//! The line reader of one pipe: it takes the bytes as the reads bring them
//! and gives the lines, each decoded as text.
use crate::lifecycle::text_result;
use crate::text::{decode_text, decoded};
use vstd::prelude::*;
use vstd::utf8::{
    decode_first_scalar, decode_utf8, decode_utf8_first_scalar, pop_first_scalar,
    take_first_scalar, valid_utf8,
};

verus! {

/// The byte that ends a line.
pub const LINE_FEED: u8 = 0x0A;

/// The byte that may stand before the line feed and is dropped with it.
pub const CARRIAGE_RETURN: u8 = 0x0D;

/// What one read of a pipe brought.
#[derive(Debug)]
pub enum Chunk {
    /// Some bytes.
    Data(Vec<u8>),
    /// The end: the other side closed the pipe.
    Eof,
    /// A failure of the read, with its message.
    Failed(String),
}

/// The mathematical value of a [`Chunk`].
pub enum ChunkView {
    Data(Seq<u8>),
    Eof,
    Failed(Seq<char>),
}

impl View for Chunk {
    type V = ChunkView;

    open spec fn view(&self) -> ChunkView {
        match self {
            Chunk::Data(bytes) => ChunkView::Data(bytes@),
            Chunk::Eof => ChunkView::Eof,
            Chunk::Failed(failure) => ChunkView::Failed(failure@),
        }
    }
}

/// Splits at the line feeds: `pending` is the begun line that `data`
/// continues. Gives the lines that `data` completes, each without its line
/// feed, and the begun line that is left.
pub open spec fn scan(pending: Seq<u8>, data: Seq<u8>) -> (Seq<Seq<u8>>, Seq<u8>)
    decreases data.len(),
{
    if data.len() == 0 {
        (Seq::empty(), pending)
    } else {
        let (lines, begun) = scan(pending, data.drop_last());
        if data.last() == LINE_FEED {
            (lines.push(begun), Seq::empty())
        } else {
            (lines, begun.push(data.last()))
        }
    }
}

/// The lines, each with a line feed behind it, one after the other.
pub open spec fn joined(lines: Seq<Seq<u8>>) -> Seq<u8>
    decreases lines.len(),
{
    if lines.len() == 0 {
        Seq::empty()
    } else {
        joined(lines.drop_last()) + lines.last() + seq![LINE_FEED]
    }
}

/// Whether `bytes` holds no line feed.
pub open spec fn feed_free(bytes: Seq<u8>) -> bool {
    forall|i: int| 0 <= i < bytes.len() ==> #[trigger] bytes[i] != LINE_FEED
}

/// `raw` without the carriage return at its end, if it has one.
pub open spec fn without_return(raw: Seq<u8>) -> Seq<u8> {
    if raw.len() > 0 && raw.last() == CARRIAGE_RETURN {
        raw.drop_last()
    } else {
        raw
    }
}

/// The text of a line that a line feed ended: a carriage return before the
/// line feed goes with it.
pub open spec fn whole_line(raw: Seq<u8>) -> Result<Seq<char>, Seq<char>> {
    decoded(without_return(raw))
}

/// The texts of the complete lines `raws`.
pub open spec fn whole_lines(raws: Seq<Seq<u8>>) -> Seq<Result<Seq<char>, Seq<char>>> {
    Seq::new(raws.len(), |i: int| whole_line(raws[i]))
}

/// The lines of a reader's answer, each by its characters.
pub open spec fn texts(lines: Seq<Result<String, String>>) -> Seq<Result<Seq<char>, Seq<char>>> {
    Seq::new(lines.len(), |i: int| text_result(lines[i]))
}

/// The mathematical value of a [`LineReader`].
pub struct ReaderView {
    /// The bytes of the line that has begun.
    pub pending: Seq<u8>,
    /// Whether the pipe may still bring bytes.
    pub open: bool,
}

impl ReaderView {
    /// Whether the begun line holds no line feed, as it does in every reader
    /// that was made by [`LineReader::new`] and fed since.
    pub open spec fn settled(self) -> bool {
        feed_free(self.pending)
    }

    /// The lines that the reader gives for `chunk`, in order. Data gives the
    /// lines that it completes. The end gives the begun line, if there is
    /// one, as it stands. A failure gives itself. A reader that has seen the
    /// end or a failure gives nothing.
    pub open spec fn lines_on(self, chunk: ChunkView) -> Seq<Result<Seq<char>, Seq<char>>> {
        if !self.open {
            Seq::empty()
        } else {
            match chunk {
                ChunkView::Data(data) => whole_lines(scan(self.pending, data).0),
                ChunkView::Eof => if self.pending.len() > 0 {
                    seq![decoded(self.pending)]
                } else {
                    Seq::empty()
                },
                ChunkView::Failed(failure) => seq![Err(failure)],
            }
        }
    }

    /// The reader after `chunk`: data leaves the line that it has begun; the
    /// end and a failure close the reader for good.
    pub open spec fn after(self, chunk: ChunkView) -> ReaderView {
        if !self.open {
            self
        } else {
            match chunk {
                ChunkView::Data(data) => ReaderView { pending: scan(self.pending, data).1, open: true },
                _ => ReaderView { pending: Seq::empty(), open: false },
            }
        }
    }
}

/// The line reader of one pipe.
#[derive(Debug)]
pub struct LineReader {
    pending: Vec<u8>,
    open: bool,
}

impl View for LineReader {
    type V = ReaderView;

    closed spec fn view(&self) -> ReaderView {
        ReaderView { pending: self.pending@, open: self.open }
    }
}

impl LineReader {
    /// A reader at the start of its pipe.
    pub fn new() -> (r: Self)
        ensures
            r@ == (ReaderView { pending: Seq::empty(), open: true }),
            r@.settled(),
    {
        LineReader { pending: Vec::new(), open: true }
    }

    /// Whether the pipe may still bring bytes: neither its end nor a failure
    /// was seen.
    pub fn is_open(&self) -> (r: bool)
        ensures
            r == self@.open,
    {
        self.open
    }

    /// Takes what one read brought and gives the lines that it completes.
    pub fn feed(&mut self, chunk: Chunk) -> (lines: Vec<Result<String, String>>)
        ensures
            texts(lines@) == old(self)@.lines_on(chunk@),
            final(self)@ == old(self)@.after(chunk@),
            old(self)@.settled() ==> final(self)@.settled(),
    {
        let mut lines: Vec<Result<String, String>> = Vec::new();
        if !self.open {
            return lines;
        }
        match chunk {
            Chunk::Data(data) => {
                let ghost begun = self.pending@;
                let mut i: usize = 0;
                while i < data.len()
                    invariant
                        i <= data.len(),
                        self.open,
                        texts(lines@) == whole_lines(scan(begun, data@.subrange(0, i as int)).0),
                        self.pending@ == scan(begun, data@.subrange(0, i as int)).1,
                    decreases data.len() - i,
                {
                    let byte = data[i];
                    let ghost seen = data@.subrange(0, i as int);
                    assert(data@.subrange(0, i + 1).drop_last() =~= seen);
                    if byte == LINE_FEED {
                        let mut raw: Vec<u8> = Vec::new();
                        core::mem::swap(&mut raw, &mut self.pending);
                        let ghost whole = raw@;
                        if raw.len() > 0 && raw[raw.len() - 1] == CARRIAGE_RETURN {
                            raw.pop();
                        }
                        let line = decode_text(raw);
                        lines.push(line);
                        assert(whole_lines(scan(begun, seen).0.push(whole)) =~= whole_lines(
                            scan(begun, seen).0,
                        ).push(whole_line(whole)));
                    } else {
                        self.pending.push(byte);
                    }
                    i = i + 1;
                }
                assert(data@.subrange(0, i as int) =~= data@);
                proof {
                    if feed_free(begun) {
                        lemma_scan_cuts_at_feeds(begun, data@);
                    }
                }
            },
            Chunk::Eof => {
                self.open = false;
                let mut raw: Vec<u8> = Vec::new();
                core::mem::swap(&mut raw, &mut self.pending);
                if raw.len() > 0 {
                    let line = decode_text(raw);
                    lines.push(line);
                }
            },
            Chunk::Failed(failure) => {
                self.open = false;
                self.pending = Vec::new();
                lines.push(Err(failure));
            },
        }
        lines
    }
}

/// Some reads of data, one after the other, as one run of bytes.
pub open spec fn flat(reads: Seq<Seq<u8>>) -> Seq<u8>
    decreases reads.len(),
{
    if reads.len() == 0 {
        Seq::empty()
    } else {
        flat(reads.drop_last()) + reads.last()
    }
}

/// The reader after it took the data of `reads`, one read after the other.
pub open spec fn after_reads(reader: ReaderView, reads: Seq<Seq<u8>>) -> ReaderView
    decreases reads.len(),
{
    if reads.len() == 0 {
        reader
    } else {
        after_reads(reader, reads.drop_last()).after(ChunkView::Data(reads.last()))
    }
}

/// The lines that the reader gives over the data of `reads`, in order.
pub open spec fn lines_over(reader: ReaderView, reads: Seq<Seq<u8>>) -> Seq<
    Result<Seq<char>, Seq<char>>,
>
    decreases reads.len(),
{
    if reads.len() == 0 {
        Seq::empty()
    } else {
        lines_over(reader, reads.drop_last()) + after_reads(reader, reads.drop_last()).lines_on(
            ChunkView::Data(reads.last()),
        )
    }
}

/// The lines do not depend on how the reads cut the bytes: data that comes
/// in two parts completes the lines of the first part, then those that the
/// second part completes from where the first left off.
pub proof fn lemma_scan_concat(pending: Seq<u8>, a: Seq<u8>, b: Seq<u8>)
    ensures
        scan(pending, a + b).0 == scan(pending, a).0 + scan(scan(pending, a).1, b).0,
        scan(pending, a + b).1 == scan(scan(pending, a).1, b).1,
    decreases b.len(),
{
    if b.len() > 0 {
        assert((a + b).drop_last() =~= a + b.drop_last());
        lemma_scan_concat(pending, a, b.drop_last());
    }
}

/// Nothing is lost and nothing is added: the complete lines, each with its
/// line feed, and then the begun line are the bytes that came in.
pub proof fn lemma_scan_rejoins(pending: Seq<u8>, data: Seq<u8>)
    ensures
        joined(scan(pending, data).0) + scan(pending, data).1 == pending + data,
    decreases data.len(),
{
    if data.len() > 0 {
        let (lines, begun) = scan(pending, data.drop_last());
        lemma_scan_rejoins(pending, data.drop_last());
        if data.last() == LINE_FEED {
            assert(lines.push(begun).drop_last() =~= lines);
        } else {
            assert(joined(lines) + begun.push(data.last()) =~= (joined(lines) + begun).push(
                data.last(),
            ));
        }
    }
}

/// No line holds a line feed: every complete line ends at the first one
/// behind its start, and the begun line has none yet.
pub proof fn lemma_scan_cuts_at_feeds(pending: Seq<u8>, data: Seq<u8>)
    requires
        feed_free(pending),
    ensures
        feed_free(scan(pending, data).1),
        forall|k: int|
            0 <= k < scan(pending, data).0.len() ==> feed_free(#[trigger] scan(pending, data).0[k]),
        scan(pending, data).0.len() == data.filter(|b: u8| b == LINE_FEED).len(),
    decreases data.len(),
{
    reveal(Seq::filter);
    if data.len() > 0 {
        lemma_scan_cuts_at_feeds(pending, data.drop_last());
    }
}

/// However many reads bring the bytes, and wherever they cut them, an open
/// reader gives the lines of the bytes taken as one, and is left with the
/// line that they have begun.
pub proof fn lemma_reads_do_not_matter(reader: ReaderView, reads: Seq<Seq<u8>>)
    requires
        reader.open,
    ensures
        lines_over(reader, reads) == whole_lines(scan(reader.pending, flat(reads)).0),
        after_reads(reader, reads) == (ReaderView {
            pending: scan(reader.pending, flat(reads)).1,
            open: true,
        }),
    decreases reads.len(),
{
    if reads.len() > 0 {
        let before = reads.drop_last();
        lemma_reads_do_not_matter(reader, before);
        lemma_scan_concat(reader.pending, flat(before), reads.last());
    }
}

/// A pipe ends once: after its end or a failure, the reader gives nothing
/// and stays as it is, whatever is fed to it.
pub proof fn lemma_closed_reader_is_silent(reader: ReaderView, chunk: ChunkView, next: ChunkView)
    requires
        !(chunk is Data) || !reader.open,
    ensures
        !reader.after(chunk).open,
        reader.after(chunk).lines_on(next) == Seq::<Result<Seq<char>, Seq<char>>>::empty(),
        reader.after(chunk).after(next) == reader.after(chunk),
{
}

/// Whether `text` holds no line feed.
pub open spec fn one_line(text: Seq<char>) -> bool {
    forall|i: int| 0 <= i < text.len() ==> #[trigger] text[i] != '\n'
}

/// Text that is decoded from bytes without a line feed holds none: in UTF-8
/// the byte of the line feed stands for nothing else, and nothing else
/// stands for the line feed.
pub proof fn lemma_text_without_feed(bytes: Seq<u8>)
    requires
        valid_utf8(bytes),
        feed_free(bytes),
    ensures
        one_line(decode_utf8(bytes)),
    decreases bytes.len(),
{
    if bytes.len() > 0 {
        let first = decode_first_scalar(bytes) as char;
        let rest = pop_first_scalar(bytes);
        assert(feed_free(rest)) by {
            assert forall|i: int| 0 <= i < rest.len() implies #[trigger] rest[i] != LINE_FEED by {}
        }
        lemma_text_without_feed(rest);
        assert(first != '\n') by {
            if first == '\n' {
                decode_utf8_first_scalar(bytes);
                assert((0x0Au32 & 0x7F) as u8 == 0x0Au8) by (bit_vector);
                assert(take_first_scalar(bytes)[0] == bytes[0]);
            }
        }
        assert(decode_utf8(bytes) =~= seq![first] + decode_utf8(rest));
    }
}

/// A reader keeps its begun line free of line feeds, and every text that
/// it gives is one line: it holds no line feed.
pub proof fn lemma_reader_gives_lines(reader: ReaderView, chunk: ChunkView)
    requires
        reader.settled(),
    ensures
        reader.after(chunk).settled(),
        forall|k: int|
            0 <= k < reader.lines_on(chunk).len() ==> (#[trigger] reader.lines_on(chunk)[k] matches Ok(
                text,
            ) ==> one_line(text)),
{
    let lines = reader.lines_on(chunk);
    if reader.open {
        match chunk {
            ChunkView::Data(data) => {
                lemma_scan_cuts_at_feeds(reader.pending, data);
                assert forall|k: int| 0 <= k < lines.len() implies (#[trigger] lines[k] matches Ok(
                    text,
                ) ==> one_line(text)) by {
                    let raw = scan(reader.pending, data).0[k];
                    if valid_utf8(without_return(raw)) {
                        lemma_text_without_feed(without_return(raw));
                    }
                }
            },
            ChunkView::Eof => {
                if valid_utf8(reader.pending) {
                    lemma_text_without_feed(reader.pending);
                }
            },
            ChunkView::Failed(_) => {},
        }
    }
}

} // verus!
