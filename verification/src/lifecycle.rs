//! The lifecycle controller: it takes what happens to a supervised process,
//! one event at a time, and decides what the consumer sees and when the run
//! is over.
use crate::item::{line_item, ItemView, ProcessItem};
use crate::item::lemma_exit_code_success;
use crate::text::{decimal, decimal_text};
use vstd::prelude::*;
use vstd::string::StringExecFns;

verus! {

/// How far a run has come.
#[derive(Clone, Copy, Debug, PartialEq, Eq, Structural)]
pub enum Phase {
    /// Lines may arrive; the exit and a cancellation are both awaited.
    Running,
    /// A cancellation was taken up and the kill is under way; lines that were
    /// already read are still passed on.
    Draining,
    /// The terminal event was decided; nothing follows it.
    Terminated,
}

/// Something that happened to the supervised process.
#[derive(Debug)]
pub enum Event {
    /// One pipe gave a line, or failed: `is_stdout` says which pipe.
    Line { is_stdout: bool, line: Result<String, String> },
    /// Waiting for the process ended: with its exit code, with none where the
    /// system has none to give, or with the failure of the wait itself.
    Exited(Result<Option<i32>, String>),
    /// The cancellation signal was observed.
    Cancel,
    /// The kill that a cancellation asked for was attempted.
    Killed(Result<(), String>),
}

/// The mathematical value of an [`Event`].
pub enum EventView {
    Line { is_stdout: bool, line: Result<Seq<char>, Seq<char>> },
    Exited(Result<Option<i32>, Seq<char>>),
    Cancel,
    Killed(Result<(), Seq<char>>),
}

/// A text or a failure, each by its characters.
pub open spec fn text_result(r: Result<String, String>) -> Result<Seq<char>, Seq<char>> {
    match r {
        Ok(text) => Ok(text@),
        Err(failure) => Err(failure@),
    }
}

/// A value or a failure, the failure by its characters.
pub open spec fn outcome_view<T>(r: Result<T, String>) -> Result<T, Seq<char>> {
    match r {
        Ok(value) => Ok(value),
        Err(failure) => Err(failure@),
    }
}

impl View for Event {
    type V = EventView;

    open spec fn view(&self) -> EventView {
        match self {
            Event::Line { is_stdout, line } => EventView::Line {
                is_stdout: *is_stdout,
                line: text_result(*line),
            },
            Event::Exited(status) => EventView::Exited(outcome_view(*status)),
            Event::Cancel => EventView::Cancel,
            Event::Killed(outcome) => EventView::Killed(outcome_view(*outcome)),
        }
    }
}

/// What the driver of a run has to do after an event.
#[derive(Debug, PartialEq, Eq)]
pub enum Action {
    /// Hand the item to the consumer and go on.
    Emit(ProcessItem),
    /// Try to kill the process, then report the attempt as [`Event::Killed`].
    Kill,
    /// Hand the item to the consumer as the last one and stop; where `reap`
    /// is set, the process has not been waited for yet and still must be.
    Finish { item: ProcessItem, reap: bool },
    /// Nothing.
    Idle,
}

/// The mathematical value of an [`Action`].
pub enum ActionView {
    Emit(ItemView),
    Kill,
    Finish { item: ItemView, reap: bool },
    Idle,
}

impl View for Action {
    type V = ActionView;

    open spec fn view(&self) -> ActionView {
        match self {
            Action::Emit(item) => ActionView::Emit(item@),
            Action::Kill => ActionView::Kill,
            Action::Finish { item, reap } => ActionView::Finish { item: item@, reap: *reap },
            Action::Idle => ActionView::Idle,
        }
    }
}

/// The terminal event of a run that ended by itself: the exit code in
/// decimal; an error where the system gave no code; the failure of the wait.
pub open spec fn exit_item(status: Result<Option<i32>, Seq<char>>) -> ItemView {
    match status {
        Ok(Some(code)) => ItemView::Exit(decimal(code as int)),
        Ok(None) => ItemView::Error("Unable to get exit code"@),
        Err(failure) => ItemView::Error(failure),
    }
}

/// The terminal event of a cancelled run: exit `0` where the kill was
/// delivered, else an error that holds the failure of the kill.
pub open spec fn kill_item(outcome: Result<(), Seq<char>>) -> ItemView {
    match outcome {
        Ok(()) => ItemView::Exit("0"@),
        Err(failure) => ItemView::Error("abort Process Error: "@ + failure),
    }
}

/// The transition of the controller: the phase that follows `phase` on
/// `event`, and what the driver has to do.
pub open spec fn react(phase: Phase, event: EventView) -> (Phase, ActionView) {
    match phase {
        Phase::Running => match event {
            EventView::Line { is_stdout, line } => (
                Phase::Running,
                ActionView::Emit(line_item(is_stdout, line)),
            ),
            EventView::Exited(status) => (
                Phase::Terminated,
                ActionView::Finish { item: exit_item(status), reap: false },
            ),
            EventView::Cancel => (Phase::Draining, ActionView::Kill),
            EventView::Killed(_) => (Phase::Running, ActionView::Idle),
        },
        Phase::Draining => match event {
            EventView::Line { is_stdout, line } => (
                Phase::Draining,
                ActionView::Emit(line_item(is_stdout, line)),
            ),
            EventView::Killed(outcome) => (
                Phase::Terminated,
                ActionView::Finish { item: kill_item(outcome), reap: true },
            ),
            _ => (Phase::Draining, ActionView::Idle),
        },
        Phase::Terminated => (Phase::Terminated, ActionView::Idle),
    }
}

/// A kill that was delivered ends the run as an exit with code zero does:
/// with the same item, which reports success.
pub proof fn lemma_delivered_kill_is_exit_zero()
    ensures
        kill_item(Ok(())) == exit_item(Ok(Some(0))),
        kill_item(Ok(())).success() == Some(true),
{
    reveal_strlit("0");
    assert("0"@ =~= decimal(0));
    lemma_exit_code_success(0);
}

/// The item for a line of one pipe.
pub fn line_event_item(is_stdout: bool, line: Result<String, String>) -> (r: ProcessItem)
    ensures
        r@ == line_item(is_stdout, text_result(line)),
{
    ProcessItem::from((is_stdout, line))
}

/// The terminal item of a run that ended by itself.
pub fn exit_event_item(status: Result<Option<i32>, String>) -> (r: ProcessItem)
    ensures
        r@ == exit_item(outcome_view(status)),
{
    match status {
        Ok(Some(code)) => ProcessItem::Exit(decimal_text(code)),
        Ok(None) => ProcessItem::Error(String::from_str("Unable to get exit code")),
        Err(failure) => ProcessItem::Error(failure),
    }
}

/// The terminal item of a cancelled run.
pub fn kill_event_item(outcome: Result<(), String>) -> (r: ProcessItem)
    ensures
        r@ == kill_item(outcome_view(outcome)),
{
    match outcome {
        Ok(()) => ProcessItem::Exit(String::from_str("0")),
        Err(failure) => ProcessItem::Error(
            String::from_str("abort Process Error: ").concat(failure.as_str()),
        ),
    }
}

/// The controller of one run.
#[derive(Debug)]
pub struct Lifecycle {
    phase: Phase,
}

impl View for Lifecycle {
    type V = Phase;

    closed spec fn view(&self) -> Phase {
        self.phase
    }
}

impl Lifecycle {
    /// The controller of a process that has just been spawned.
    pub fn new() -> (r: Self)
        ensures
            r@ is Running,
    {
        Lifecycle { phase: Phase::Running }
    }

    /// How far the run has come.
    pub fn phase(&self) -> (r: Phase)
        ensures
            r == self@,
    {
        self.phase
    }

    /// Whether the terminal event was decided.
    pub fn is_terminated(&self) -> (r: bool)
        ensures
            r == (self@ is Terminated),
    {
        matches!(self.phase, Phase::Terminated)
    }

    /// Takes one event and says what the driver has to do with it.
    pub fn step(&mut self, event: Event) -> (action: Action)
        ensures
            (final(self)@, action@) == react(old(self)@, event@),
    {
        match self.phase {
            Phase::Running => match event {
                Event::Line { is_stdout, line } => Action::Emit(line_event_item(is_stdout, line)),
                Event::Exited(status) => {
                    self.phase = Phase::Terminated;
                    Action::Finish { item: exit_event_item(status), reap: false }
                },
                Event::Cancel => {
                    self.phase = Phase::Draining;
                    Action::Kill
                },
                Event::Killed(_) => Action::Idle,
            },
            Phase::Draining => match event {
                Event::Line { is_stdout, line } => Action::Emit(line_event_item(is_stdout, line)),
                Event::Killed(outcome) => {
                    self.phase = Phase::Terminated;
                    Action::Finish { item: kill_event_item(outcome), reap: true }
                },
                _ => Action::Idle,
            },
            Phase::Terminated => Action::Idle,
        }
    }
}

} // verus!
