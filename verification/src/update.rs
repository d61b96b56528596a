//! The events of a run in their plainer form: the lines of the two pipes,
//! then what waiting for the process gave; and what the captured output of
//! a finished process amounts to.
use crate::lifecycle::{outcome_view, text_result};
use crate::text::{decimal, decimal_text, decode_text, decoded};
use vstd::prelude::*;
use vstd::string::StringExecFns;

verus! {

/// One event of a run that is followed to its end.
#[derive(Debug, PartialEq, Eq)]
pub enum ProcessUpdate {
    /// A line of standard output.
    Stdout(String),
    /// A line of standard error.
    Stderr(String),
    /// The exit code, in decimal.
    Exit(String),
    /// A failure: of a read, or of the wait.
    Error(String),
}

/// The mathematical value of a [`ProcessUpdate`].
pub enum UpdateView {
    Stdout(Seq<char>),
    Stderr(Seq<char>),
    Exit(Seq<char>),
    Error(Seq<char>),
}

impl View for ProcessUpdate {
    type V = UpdateView;

    open spec fn view(&self) -> UpdateView {
        match self {
            ProcessUpdate::Stdout(s) => UpdateView::Stdout(s@),
            ProcessUpdate::Stderr(s) => UpdateView::Stderr(s@),
            ProcessUpdate::Exit(s) => UpdateView::Exit(s@),
            ProcessUpdate::Error(s) => UpdateView::Error(s@),
        }
    }
}

/// What a consumer that turns lines into records does with an update.
#[derive(Debug, PartialEq, Eq)]
pub enum Route {
    /// Nothing: the line is empty.
    Skip,
    /// Parse the line of standard output.
    Parse(String),
    /// Pass the exit code on.
    Exit(String),
    /// Pass the text on as an error.
    Error(String),
}

/// The mathematical value of a [`Route`].
pub enum RouteView {
    Skip,
    Parse(Seq<char>),
    Exit(Seq<char>),
    Error(Seq<char>),
}

impl View for Route {
    type V = RouteView;

    open spec fn view(&self) -> RouteView {
        match self {
            Route::Skip => RouteView::Skip,
            Route::Parse(s) => RouteView::Parse(s@),
            Route::Exit(s) => RouteView::Exit(s@),
            Route::Error(s) => RouteView::Error(s@),
        }
    }
}

impl UpdateView {
    /// The text that the update carries, whatever its kind.
    pub open spec fn text(self) -> Seq<char> {
        match self {
            UpdateView::Stdout(s) => s,
            UpdateView::Stderr(s) => s,
            UpdateView::Exit(s) => s,
            UpdateView::Error(s) => s,
        }
    }

    /// Where the update goes: a line of standard output is parsed unless it
    /// is empty, an exit stays an exit, and a line of standard error is an
    /// error like any failure.
    pub open spec fn route(self) -> RouteView {
        match self {
            UpdateView::Stdout(line) => if line.len() == 0 {
                RouteView::Skip
            } else {
                RouteView::Parse(line)
            },
            UpdateView::Exit(code) => RouteView::Exit(code),
            UpdateView::Error(failure) => RouteView::Error(failure),
            UpdateView::Stderr(line) => RouteView::Error(line),
        }
    }
}

/// The update for what one read of a pipe gave: the line under the kind of
/// its pipe, or the failure behind the words `io: `.
pub open spec fn line_update(is_stdout: bool, line: Result<Seq<char>, Seq<char>>) -> UpdateView {
    match line {
        Ok(text) => if is_stdout {
            UpdateView::Stdout(text)
        } else {
            UpdateView::Stderr(text)
        },
        Err(failure) => UpdateView::Error("io: "@ + failure),
    }
}

/// The update that ends a run: the exit code in decimal; an error where the
/// system gave no code; the failure of the wait, or of the task that waited.
pub open spec fn wait_update(
    waited: Result<Result<Option<i32>, Seq<char>>, Seq<char>>,
) -> UpdateView {
    match waited {
        Ok(Ok(Some(code))) => UpdateView::Exit(decimal(code as int)),
        Ok(Ok(None)) => UpdateView::Error("Unable to get exit code"@),
        Ok(Err(failure)) => UpdateView::Error(failure),
        Err(failure) => UpdateView::Error(failure),
    }
}

impl ProcessUpdate {
    /// The update for what one read of standard output gave.
    pub fn from_stdout(line: Result<String, String>) -> (r: Self)
        ensures
            r@ == line_update(true, text_result(line)),
    {
        match line {
            Ok(text) => ProcessUpdate::Stdout(text),
            Err(failure) => ProcessUpdate::Error(String::from_str("io: ").concat(failure.as_str())),
        }
    }

    /// The update for what one read of standard error gave.
    pub fn from_stderr(line: Result<String, String>) -> (r: Self)
        ensures
            r@ == line_update(false, text_result(line)),
    {
        match line {
            Ok(text) => ProcessUpdate::Stderr(text),
            Err(failure) => ProcessUpdate::Error(String::from_str("io: ").concat(failure.as_str())),
        }
    }

    /// The update that ends a run, from what waiting for the process gave.
    pub fn from_wait(waited: Result<Result<Option<i32>, String>, String>) -> (r: Self)
        ensures
            r@ == wait_update(
                match waited {
                    Ok(status) => Ok(outcome_view(status)),
                    Err(failure) => Err(failure@),
                },
            ),
    {
        match waited {
            Ok(Ok(Some(code))) => ProcessUpdate::Exit(decimal_text(code)),
            Ok(Ok(None)) => ProcessUpdate::Error(String::from_str("Unable to get exit code")),
            Ok(Err(failure)) => ProcessUpdate::Error(failure),
            Err(failure) => ProcessUpdate::Error(failure),
        }
    }

    /// Where the update goes in a consumer that turns lines into records.
    pub fn route(self) -> (r: Route)
        ensures
            r@ == self@.route(),
    {
        match self {
            ProcessUpdate::Stdout(line) => if line.as_str().is_empty() {
                Route::Skip
            } else {
                Route::Parse(line)
            },
            ProcessUpdate::Exit(code) => Route::Exit(code),
            ProcessUpdate::Error(failure) => Route::Error(failure),
            ProcessUpdate::Stderr(line) => Route::Error(line),
        }
    }
}

/// The two output pipes of a child, where it has both; else the complaint
/// that a handle is missing.
pub fn both_pipes<A, B>(stdout: Option<A>, stderr: Option<B>) -> (r: Result<(A, B), String>)
    ensures
        match r {
            Ok(pair) => stdout == Some(pair.0) && stderr == Some(pair.1),
            Err(complaint) => (stdout is None || stderr is None) && complaint@
                == "child did not have a handle to stdout"@,
        },
{
    match (stdout, stderr) {
        (Some(out), Some(err)) => Ok((out, err)),
        _ => Err(String::from_str("child did not have a handle to stdout")),
    }
}

/// Why the output of a finished process gives no text.
#[derive(Debug, PartialEq, Eq)]
pub enum CaptureError {
    /// The process reported a failure; this is what it wrote to standard
    /// error.
    Failed(String),
    /// The stream that was to be read is no UTF-8; this is the message of
    /// the decoder.
    NotText(String),
}

/// The mathematical value of a [`CaptureError`].
pub enum CaptureErrorView {
    Failed(Seq<char>),
    NotText(Seq<char>),
}

impl View for CaptureError {
    type V = CaptureErrorView;

    open spec fn view(&self) -> CaptureErrorView {
        match self {
            CaptureError::Failed(s) => CaptureErrorView::Failed(s@),
            CaptureError::NotText(s) => CaptureErrorView::NotText(s@),
        }
    }
}

/// What the output of a finished process amounts to: after a success, the
/// text of its standard output; after a failure, an error with the text of
/// its standard error. Where the stream in question is no UTF-8, the error
/// says so instead.
pub open spec fn capture(success: bool, stdout: Seq<u8>, stderr: Seq<u8>) -> Result<
    Seq<char>,
    CaptureErrorView,
> {
    if success {
        match decoded(stdout) {
            Ok(text) => Ok(text),
            Err(failure) => Err(CaptureErrorView::NotText(failure)),
        }
    } else {
        match decoded(stderr) {
            Ok(text) => Err(CaptureErrorView::Failed(text)),
            Err(failure) => Err(CaptureErrorView::NotText(failure)),
        }
    }
}

/// Reads the output of a finished process that was captured whole.
pub fn captured_text(success: bool, stdout: Vec<u8>, stderr: Vec<u8>) -> (r: Result<
    String,
    CaptureError,
>)
    ensures
        match r {
            Ok(text) => capture(success, stdout@, stderr@) == Ok::<Seq<char>, CaptureErrorView>(
                text@,
            ),
            Err(error) => capture(success, stdout@, stderr@) == Err::<Seq<char>, CaptureErrorView>(
                error@,
            ),
        },
{
    if success {
        match decode_text(stdout) {
            Ok(text) => Ok(text),
            Err(failure) => Err(CaptureError::NotText(failure)),
        }
    } else {
        match decode_text(stderr) {
            Ok(text) => Err(CaptureError::Failed(text)),
            Err(failure) => Err(CaptureError::NotText(failure)),
        }
    }
}

impl Clone for ProcessUpdate {
    fn clone(&self) -> (r: Self)
        ensures
            r == *self,
    {
        match self {
            ProcessUpdate::Stdout(s) => ProcessUpdate::Stdout(s.clone()),
            ProcessUpdate::Stderr(s) => ProcessUpdate::Stderr(s.clone()),
            ProcessUpdate::Exit(s) => ProcessUpdate::Exit(s.clone()),
            ProcessUpdate::Error(s) => ProcessUpdate::Error(s.clone()),
        }
    }
}

impl core::ops::Deref for ProcessUpdate {
    type Target = String;

    /// The text of the update, borrowed.
    fn deref(&self) -> (r: &String)
        ensures
            r@ == self@.text(),
    {
        match self {
            ProcessUpdate::Stdout(s) => s,
            ProcessUpdate::Stderr(s) => s,
            ProcessUpdate::Exit(s) => s,
            ProcessUpdate::Error(s) => s,
        }
    }
}

} // verus!
