//! Text helpers: decoding, white space, trimming, and the decimal form of an
//! exit code.
use vstd::prelude::*;
use vstd::string::StrSliceExecFns;
use vstd::string::StringExecFns;
use vstd::utf8::{decode_utf8, valid_utf8};

verus! {

/// The message that `String::from_utf8` gives for bytes that are no UTF-8.
pub uninterp spec fn utf8_failure(bytes: Seq<u8>) -> Seq<char>;

/// The text that `bytes` encodes in UTF-8, or the failure where they encode
/// none.
pub open spec fn decoded(bytes: Seq<u8>) -> Result<Seq<char>, Seq<char>> {
    if valid_utf8(bytes) {
        Ok(decode_utf8(bytes))
    } else {
        Err(utf8_failure(bytes))
    }
}

/// Calls `String::from_utf8` and, where it fails, `to_string` on its error.
/// The contract says that the call succeeds exactly on valid UTF-8, that the
/// text then is the one that the bytes encode, and that the message of a
/// failure depends on the bytes alone.
#[verifier::external_body]
pub(crate) fn decode_text(bytes: Vec<u8>) -> (r: Result<String, String>)
    ensures
        r is Ok <==> valid_utf8(bytes@),
        r matches Ok(text) ==> text@ == decode_utf8(bytes@),
        r matches Err(failure) ==> failure@ == utf8_failure(bytes@),
{
    match String::from_utf8(bytes) {
        Ok(text) => Ok(text),
        Err(failure) => Err(failure.to_string()),
    }
}

/// Whether `c` is a white-space character: one of the code points that carry
/// the Unicode property White_Space.
pub open spec fn white_space(c: char) -> bool {
    let u = c as u32;
    ||| 0x09 <= u <= 0x0D
    ||| u == 0x20
    ||| u == 0x85
    ||| u == 0xA0
    ||| u == 0x1680
    ||| 0x2000 <= u <= 0x200A
    ||| u == 0x2028
    ||| u == 0x2029
    ||| u == 0x202F
    ||| u == 0x205F
    ||| u == 0x3000
}

/// `s` without its leading white space.
pub open spec fn trim_start(s: Seq<char>) -> Seq<char>
    decreases s.len(),
{
    if s.len() > 0 && white_space(s[0]) {
        trim_start(s.subrange(1, s.len() as int))
    } else {
        s
    }
}

/// `s` without its trailing white space.
pub open spec fn trim_end(s: Seq<char>) -> Seq<char>
    decreases s.len(),
{
    if s.len() > 0 && white_space(s[s.len() - 1]) {
        trim_end(s.subrange(0, s.len() - 1))
    } else {
        s
    }
}

/// `s` without its leading and trailing white space.
pub open spec fn trimmed(s: Seq<char>) -> Seq<char> {
    trim_end(trim_start(s))
}

/// Whether every character of `s` from `from` up to `to` is white space.
pub open spec fn blank_between(s: Seq<char>, from: int, to: int) -> bool {
    forall|j: int| from <= j < to ==> white_space(#[trigger] s[j])
}

/// Leading white space ends at the first character that is none.
pub proof fn lemma_trim_start_at(s: Seq<char>, k: int)
    requires
        0 <= k <= s.len(),
        blank_between(s, 0, k),
        k < s.len() ==> !white_space(s[k]),
    ensures
        trim_start(s) == s.subrange(k, s.len() as int),
    decreases k,
{
    if k > 0 {
        let rest = s.subrange(1, s.len() as int);
        assert forall|j: int| 0 <= j < k - 1 implies white_space(#[trigger] rest[j]) by {}
        lemma_trim_start_at(rest, k - 1);
    }
}

/// Trailing white space begins behind the last character that is none.
pub proof fn lemma_trim_end_at(s: Seq<char>, e: int)
    requires
        0 <= e <= s.len(),
        blank_between(s, e, s.len() as int),
        e > 0 ==> !white_space(s[e - 1]),
    ensures
        trim_end(s) == s.subrange(0, e),
    decreases s.len() - e,
{
    if e < s.len() {
        let rest = s.subrange(0, s.len() - 1);
        assert forall|j: int| e <= j < rest.len() implies white_space(#[trigger] rest[j]) by {}
        lemma_trim_end_at(rest, e);
    }
}

/// Whether `c` is a white-space character.
pub fn is_white_space(c: char) -> (r: bool)
    ensures
        r == white_space(c),
{
    let u: u32 = c as u32;
    (0x09 <= u && u <= 0x0D) || u == 0x20 || u == 0x85 || u == 0xA0 || u == 0x1680 || (0x2000 <= u
        && u <= 0x200A) || u == 0x2028 || u == 0x2029 || u == 0x202F || u == 0x205F || u == 0x3000
}

/// The part of `s` between its leading and its trailing white space.
pub fn trim(s: &str) -> (r: &str)
    ensures
        r@ == trimmed(s@),
{
    let n: usize = s.unicode_len();
    let mut start: usize = 0;
    let mut end: usize = 0;
    let mut seen: bool = false;
    let mut i: usize = 0;
    for c in it: s.chars()
        invariant
            n == s@.len(),
            it.seq() == s@,
            i == it.index(),
            i <= n,
            !seen ==> start == i && end == 0,
            seen ==> start < end <= i && !white_space(s@[start as int]) && !white_space(
                s@[end - 1],
            ),
            blank_between(s@, 0, start as int),
            seen ==> blank_between(s@, end as int, i as int),
    {
        if is_white_space(c) {
            if !seen {
                start = i + 1;
            }
        } else {
            seen = true;
            end = i + 1;
        }
        i = i + 1;
    }
    if !seen {
        end = start;
    }
    proof {
        let full = s@;
        lemma_trim_start_at(full, start as int);
        let tail = full.subrange(start as int, n as int);
        assert forall|j: int| end - start <= j < tail.len() implies white_space(
            #[trigger] tail[j],
        ) by {}
        lemma_trim_end_at(tail, end - start);
    }
    s.substring_char(start, end)
}

/// The character that stands for the digit `d`.
pub open spec fn digit(d: int) -> char {
    if d == 0 {
        '0'
    } else if d == 1 {
        '1'
    } else if d == 2 {
        '2'
    } else if d == 3 {
        '3'
    } else if d == 4 {
        '4'
    } else if d == 5 {
        '5'
    } else if d == 6 {
        '6'
    } else if d == 7 {
        '7'
    } else if d == 8 {
        '8'
    } else {
        '9'
    }
}

/// The decimal digits of `n`, most significant first, without leading zeros.
pub open spec fn digits(n: nat) -> Seq<char>
    decreases n,
{
    if n < 10 {
        seq![digit(n as int)]
    } else {
        digits(n / 10).push(digit((n % 10) as int))
    }
}

/// The decimal text of `n`: a minus sign for a negative number, then its digits.
pub open spec fn decimal(n: int) -> Seq<char> {
    if n < 0 {
        seq!['-'] + digits((-n) as nat)
    } else {
        digits(n as nat)
    }
}

/// The digits of a number hold no white space and no minus sign, and they
/// are the single digit zero only for zero.
pub proof fn lemma_digits_are_plain(n: nat)
    ensures
        digits(n).len() >= 1,
        forall|i: int|
            0 <= i < digits(n).len() ==> !white_space(#[trigger] digits(n)[i]) && digits(n)[i]
                != '-',
        digits(n) == seq!['0'] <==> n == 0,
    decreases n,
{
    if n >= 10 {
        lemma_digits_are_plain(n / 10);
        assert(seq!['0'].len() == 1);
    } else {
        assert(seq!['0'][0] == '0');
    }
}

/// The decimal text of a number has no white space around it, and it is `0`
/// only for zero.
pub proof fn lemma_decimal_is_trimmed(n: int)
    ensures
        trimmed(decimal(n)) == decimal(n),
        decimal(n) == seq!['0'] <==> n == 0,
{
    if n < 0 {
        lemma_digits_are_plain((-n) as nat);
    } else {
        lemma_digits_are_plain(n as nat);
    }
}

fn digit_str(d: i64) -> (r: &'static str)
    requires
        0 <= d < 10,
    ensures
        r@ == seq![digit(d as int)],
{
    proof {
        reveal_strlit("0");
        reveal_strlit("1");
        reveal_strlit("2");
        reveal_strlit("3");
        reveal_strlit("4");
        reveal_strlit("5");
        reveal_strlit("6");
        reveal_strlit("7");
        reveal_strlit("8");
        reveal_strlit("9");
    }
    if d == 0 {
        "0"
    } else if d == 1 {
        "1"
    } else if d == 2 {
        "2"
    } else if d == 3 {
        "3"
    } else if d == 4 {
        "4"
    } else if d == 5 {
        "5"
    } else if d == 6 {
        "6"
    } else if d == 7 {
        "7"
    } else if d == 8 {
        "8"
    } else {
        "9"
    }
}

/// The decimal text of an exit code.
pub fn decimal_text(code: i32) -> (r: String)
    ensures
        r@ == decimal(code as int),
{
    let wide: i64 = code as i64;
    let magnitude: i64 = if wide < 0 {
        -wide
    } else {
        wide
    };
    let mut text = String::from_str(digit_str(magnitude % 10));
    let mut rest: i64 = magnitude / 10;
    while rest > 0
        invariant
            0 <= rest <= magnitude,
            digits(magnitude as nat) == if rest > 0 {
                digits(rest as nat) + text@
            } else {
                text@
            },
        decreases rest,
    {
        text = String::from_str(digit_str(rest % 10)).concat(text.as_str());
        rest = rest / 10;
    }
    if wide < 0 {
        text = String::from_str("-").concat(text.as_str());
        proof {
            reveal_strlit("-");
        }
    }
    text
}

} // verus!
