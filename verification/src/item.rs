//! The events that a supervised process produces.
use crate::text::{decimal, lemma_decimal_is_trimmed, trim, trimmed};
use vstd::prelude::*;
use vstd::std_specs::convert::FromSpecImpl;
use vstd::string::StrSliceExecFns;
use vstd::string::StringExecFns;

verus! {

/// One event of a process run.
#[derive(Debug, PartialEq, Eq, PartialOrd, Ord)]
pub enum ProcessItem {
    /// A line that the process printed to standard output.
    Output(String),
    /// A line that the process printed to standard error, or a failure message.
    Error(String),
    /// The exit status of the process, as text.
    Exit(String),
}

/// The mathematical value of a [`ProcessItem`].
pub enum ItemView {
    Output(Seq<char>),
    Error(Seq<char>),
    Exit(Seq<char>),
}

impl View for ProcessItem {
    type V = ItemView;

    open spec fn view(&self) -> ItemView {
        match self {
            ProcessItem::Output(s) => ItemView::Output(s@),
            ProcessItem::Error(s) => ItemView::Error(s@),
            ProcessItem::Exit(s) => ItemView::Exit(s@),
        }
    }
}

impl ItemView {
    /// The text that the event carries, whatever its kind.
    pub open spec fn text(self) -> Seq<char> {
        match self {
            ItemView::Output(s) => s,
            ItemView::Error(s) => s,
            ItemView::Exit(s) => s,
        }
    }

    /// For an exit, whether its text is `0` once the white space around it is
    /// gone; nothing for the other kinds.
    pub open spec fn success(self) -> Option<bool> {
        match self {
            ItemView::Exit(s) => Some(trimmed(s) == seq!['0']),
            _ => None,
        }
    }

    /// The event as a diagnostic line: its kind in square brackets, a space,
    /// then its text.
    pub open spec fn tagged(self) -> Seq<char> {
        match self {
            ItemView::Output(s) => "[Output] "@ + s,
            ItemView::Error(s) => "[Error] "@ + s,
            ItemView::Exit(s) => "[Exit] "@ + s,
        }
    }
}

/// The event that one line read from a pipe becomes: a line of standard
/// output is [`ItemView::Output`]; a line of standard error, or a failed
/// read on either pipe, is [`ItemView::Error`].
pub open spec fn line_item(is_stdout: bool, line: Result<Seq<char>, Seq<char>>) -> ItemView {
    match line {
        Ok(text) => if is_stdout {
            ItemView::Output(text)
        } else {
            ItemView::Error(text)
        },
        Err(failure) => ItemView::Error(failure),
    }
}

/// An exit with the decimal text of a code reports success exactly where the
/// code is zero.
pub proof fn lemma_exit_code_success(code: int)
    ensures
        ItemView::Exit(decimal(code)).success() == Some(code == 0),
{
    lemma_decimal_is_trimmed(code);
}

impl ProcessItem {
    /// Whether the event is a line of standard output.
    #[must_use]
    pub fn is_output(&self) -> (r: bool)
        ensures
            r == (self@ is Output),
    {
        matches!(self, ProcessItem::Output(..))
    }

    /// Whether the event is a line of standard error or a failure message.
    #[must_use]
    pub fn is_error(&self) -> (r: bool)
        ensures
            r == (self@ is Error),
    {
        matches!(self, ProcessItem::Error(..))
    }

    /// Whether the event is an exit.
    #[must_use]
    pub fn is_exit(&self) -> (r: bool)
        ensures
            r == (self@ is Exit),
    {
        matches!(self, ProcessItem::Exit(..))
    }

    /// For an exit, whether the process ended with status zero.
    #[must_use]
    pub fn is_success(&self) -> (r: Option<bool>)
        ensures
            r == self@.success(),
    {
        match self {
            ProcessItem::Exit(code) => {
                let core = trim(code.as_str());
                let zero = core.unicode_len() == 1 && core.get_char(0) == '0';
                assert(zero == (core@ =~= seq!['0']));
                Some(zero)
            },
            _ => None,
        }
    }

    /// The exit text, if the event is an exit.
    #[must_use]
    pub fn as_exit(&self) -> (r: Option<&String>)
        ensures
            match self {
                ProcessItem::Exit(s) => r == Some(s),
                _ => r is None,
            },
    {
        if let ProcessItem::Exit(v) = self {
            Some(v)
        } else {
            None
        }
    }

    /// The message, if the event is an error.
    #[must_use]
    pub fn as_error(&self) -> (r: Option<&String>)
        ensures
            match self {
                ProcessItem::Error(s) => r == Some(s),
                _ => r is None,
            },
    {
        if let ProcessItem::Error(v) = self {
            Some(v)
        } else {
            None
        }
    }

    /// The line, if the event is a line of standard output.
    #[must_use]
    pub fn as_output(&self) -> (r: Option<&String>)
        ensures
            match self {
                ProcessItem::Output(s) => r == Some(s),
                _ => r is None,
            },
    {
        if let ProcessItem::Output(v) = self {
            Some(v)
        } else {
            None
        }
    }

    /// The text of the event, without its kind.
    pub fn to_string(&self) -> (r: String)
        ensures
            r@ == self@.text(),
    {
        match self {
            ProcessItem::Output(s) => s.clone(),
            ProcessItem::Error(s) => s.clone(),
            ProcessItem::Exit(s) => s.clone(),
        }
    }

    /// The event as a diagnostic line, such as `[Exit] 0`.
    pub fn tagged(&self) -> (r: String)
        ensures
            r@ == self@.tagged(),
    {
        match self {
            ProcessItem::Output(s) => String::from_str("[Output] ").concat(s.as_str()),
            ProcessItem::Error(s) => String::from_str("[Error] ").concat(s.as_str()),
            ProcessItem::Exit(s) => String::from_str("[Exit] ").concat(s.as_str()),
        }
    }
}

impl Clone for ProcessItem {
    fn clone(&self) -> (r: Self)
        ensures
            r == *self,
    {
        match self {
            ProcessItem::Output(s) => ProcessItem::Output(s.clone()),
            ProcessItem::Error(s) => ProcessItem::Error(s.clone()),
            ProcessItem::Exit(s) => ProcessItem::Exit(s.clone()),
        }
    }
}

impl core::ops::Deref for ProcessItem {
    type Target = str;

    /// The text of the event, borrowed.
    fn deref(&self) -> (r: &str)
        ensures
            r@ == self@.text(),
    {
        match self {
            ProcessItem::Output(s) => s.as_str(),
            ProcessItem::Error(s) => s.as_str(),
            ProcessItem::Exit(s) => s.as_str(),
        }
    }
}

impl From<(bool, Result<String, String>)> for ProcessItem {
    /// Tags one line read from a pipe, or the failure that ended the pipe,
    /// with the pipe it came from: `true` stands for standard output.
    fn from(tagged: (bool, Result<String, String>)) -> (r: Self) {
        let (is_stdout, line) = tagged;
        match line {
            Ok(text) => if is_stdout {
                ProcessItem::Output(text)
            } else {
                ProcessItem::Error(text)
            },
            Err(failure) => ProcessItem::Error(failure),
        }
    }
}

impl FromSpecImpl<(bool, Result<String, String>)> for ProcessItem {
    open spec fn obeys_from_spec() -> bool {
        true
    }

    open spec fn from_spec(tagged: (bool, Result<String, String>)) -> Self {
        match tagged.1 {
            Ok(text) => if tagged.0 {
                ProcessItem::Output(text)
            } else {
                ProcessItem::Error(text)
            },
            Err(failure) => ProcessItem::Error(failure),
        }
    }
}

} // verus!
