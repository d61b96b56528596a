//! One supervised process: how it is to be started, the handle to its
//! standard input, the latch that cancels it, and the controller of its run.
use crate::cancel::{CancelState, CancelToken};
use crate::lifecycle::{react, Action, ActionView, Event, EventView, Lifecycle, Phase};
use std::sync::Arc;
use tokio::sync::Notify;
use vstd::prelude::*;
use vstd::string::StringExecFns;

verus! {

/// `tokio::sync::Notify`: what wakes the task that waits for a cancellation.
/// Nothing inside it can be read here.
#[verifier::external_type_specification]
#[verifier::external_body]
pub struct ExNotify(tokio::sync::Notify);

/// `tokio::sync::Notify::new` makes a signal that nobody waits for yet.
/// Nothing is claimed of it.
pub assume_specification[ tokio::sync::Notify::new ]() -> (r: tokio::sync::Notify);

/// `tokio::sync::Notify::notify_one` wakes the task that waits on the signal,
/// or the next one that will. Nothing is claimed of it: what it changes
/// cannot be read here.
pub assume_specification[ tokio::sync::Notify::notify_one ](signal: &tokio::sync::Notify);

/// Calls `clone` of `Arc`, which gives another pointer to the same value.
#[verifier::external_body]
fn share(signal: &Arc<Notify>) -> (r: Arc<Notify>)
    ensures
        r == *signal,
{
    signal.clone()
}

/// What a standard stream of the child is connected to.
#[derive(Clone, Copy, Debug, PartialEq, Eq, Structural)]
pub enum Pipe {
    /// Nothing: reads end at once, writes are dropped.
    Null,
    /// A pipe whose other end the parent holds.
    Piped,
    /// The stream of the parent.
    Inherit,
}

/// What is needed to start the child. Standard output and standard error
/// are always piped: the run is made of their lines.
#[derive(Debug)]
pub struct Invocation {
    /// The program to run.
    pub program: String,
    /// Its arguments, in order.
    pub args: Vec<String>,
    /// What its standard input is connected to.
    pub stdin: Pipe,
}

/// One process and its run. `H` is the type of the handle to the standard
/// input of the child.
#[derive(Debug)]
pub struct Process<H> {
    program: String,
    args: Vec<String>,
    set_stdin: Option<Pipe>,
    set_stdout: Option<Pipe>,
    set_stderr: Option<Pipe>,
    stdin: Option<H>,
    abort: Option<Arc<Notify>>,
    latch: Option<CancelToken>,
    run: Option<Lifecycle>,
}

/// The mathematical value of a [`Process`].
pub struct ProcessView<H> {
    /// The program to run.
    pub program: Seq<char>,
    /// Its arguments.
    pub args: Seq<Seq<char>>,
    /// The policy for standard input, until a start takes it.
    pub set_stdin: Option<Pipe>,
    /// The policy for standard output, until a start takes it.
    pub set_stdout: Option<Pipe>,
    /// The policy for standard error, until a start takes it.
    pub set_stderr: Option<Pipe>,
    /// The handle to the standard input of the child, until it is taken.
    pub stdin: Option<H>,
    /// What wakes the driver of the run, once the child was started.
    pub signal: Option<Arc<Notify>>,
    /// The cancellation latch, once the child was started.
    pub latch: Option<CancelState>,
    /// How far the run has come, once the child was started.
    pub phase: Option<Phase>,
}

impl<H> ProcessView<H> {
    /// Whether the child can be started: no start has taken the policies, and
    /// both output streams are piped.
    pub open spec fn ready(self) -> bool {
        &&& self.set_stdin is Some
        &&& self.set_stdout == Some(Pipe::Piped)
        &&& self.set_stderr == Some(Pipe::Piped)
    }

    /// Whether the signal, the latch and the phase agree: all are there or
    /// none; the latch is closed exactly when the run is over; and while a
    /// kill is under way a cancellation counts as requested.
    pub open spec fn consistent(self) -> bool {
        &&& self.latch is Some <==> self.phase is Some
        &&& self.signal is Some <==> self.phase is Some
        &&& self.latch == Some(CancelState::Closed) <==> self.phase == Some(Phase::Terminated)
        &&& self.phase == Some(Phase::Draining) ==> self.latch == Some(CancelState::Fired)
    }

    /// Whether a request to cancel would be delivered.
    pub open spec fn abort_delivers(self) -> bool {
        self.latch == Some(CancelState::Armed)
    }

    /// The process after a request to cancel.
    pub open spec fn after_abort(self) -> ProcessView<H> {
        match self.latch {
            Some(state) => ProcessView { latch: Some(state.after_fire()), ..self },
            None => self,
        }
    }

    /// The process after its input handle was taken.
    pub open spec fn after_take_stdin(self) -> ProcessView<H> {
        ProcessView { stdin: None, ..self }
    }

    /// What the driver has to do after `event`: what the controller says,
    /// once the child was started.
    pub open spec fn action_on(self, event: EventView) -> ActionView {
        match self.phase {
            Some(phase) => react(phase, event).1,
            None => ActionView::Idle,
        }
    }

    /// The process after `event`: the controller moves on, and the latch
    /// goes with it. A cancellation that the controller takes up counts as
    /// requested, and the latch closes with the run.
    pub open spec fn after(self, event: EventView) -> ProcessView<H> {
        match self.phase {
            Some(phase) => {
                let next = react(phase, event).0;
                ProcessView {
                    phase: Some(next),
                    latch: match next {
                        Phase::Running => self.latch,
                        Phase::Draining => Some(CancelState::Fired),
                        Phase::Terminated => Some(CancelState::Closed),
                    },
                    ..self
                }
            },
            None => self,
        }
    }
}

/// The latch, by where it stands.
pub open spec fn latch_view(latch: Option<CancelToken>) -> Option<CancelState> {
    match latch {
        Some(token) => Some(token@),
        None => None,
    }
}

/// The controller, by its phase.
pub open spec fn run_view(run: Option<Lifecycle>) -> Option<Phase> {
    match run {
        Some(lifecycle) => Some(lifecycle@),
        None => None,
    }
}

impl<H> View for Process<H> {
    type V = ProcessView<H>;

    closed spec fn view(&self) -> ProcessView<H> {
        ProcessView {
            program: self.program@,
            args: self.args.deep_view(),
            set_stdin: self.set_stdin,
            set_stdout: self.set_stdout,
            set_stderr: self.set_stderr,
            stdin: self.stdin,
            signal: self.abort,
            latch: latch_view(self.latch),
            phase: run_view(self.run),
        }
    }
}

impl<H> Process<H> {
    /// A process that will run `program` without arguments, with standard
    /// input closed and both output streams piped.
    pub fn new(program: &str) -> (r: Self)
        ensures
            r@.consistent(),
            r@ == (ProcessView::<H> {
                program: program@,
                args: Seq::empty(),
                set_stdin: Some(Pipe::Null),
                set_stdout: Some(Pipe::Piped),
                set_stderr: Some(Pipe::Piped),
                stdin: None,
                signal: None,
                latch: None,
                phase: None,
            }),
    {
        let r = Process {
            program: String::from_str(program),
            args: Vec::new(),
            set_stdin: Some(Pipe::Null),
            set_stdout: Some(Pipe::Piped),
            set_stderr: Some(Pipe::Piped),
            stdin: None,
            abort: None,
            latch: None,
            run: None,
        };
        assert(r.args.deep_view() =~= Seq::<Seq<char>>::empty());
        r
    }

    /// A process from a command line: the first word is the program, the
    /// others are its arguments.
    pub fn from_command_line(words: Vec<String>) -> (r: Self)
        requires
            words.len() > 0,
        ensures
            r@.consistent(),
            r@ == (ProcessView::<H> {
                program: words.deep_view()[0],
                args: words.deep_view().subrange(1, words.len() as int),
                set_stdin: Some(Pipe::Null),
                set_stdout: Some(Pipe::Piped),
                set_stderr: Some(Pipe::Piped),
                stdin: None,
                signal: None,
                latch: None,
                phase: None,
            }),
    {
        let mut args = words;
        let program = args.remove(0);
        let r = Process {
            program,
            args,
            set_stdin: Some(Pipe::Null),
            set_stdout: Some(Pipe::Piped),
            set_stderr: Some(Pipe::Piped),
            stdin: None,
            abort: None,
            latch: None,
            run: None,
        };
        assert(r.args.deep_view() =~= words.deep_view().subrange(1, words.len() as int));
        r
    }

    /// Adds one argument behind those that are there.
    pub fn arg(&mut self, value: &str)
        ensures
            final(self)@ == (ProcessView { args: old(self)@.args.push(value@), ..old(self)@ }),
    {
        self.args.push(String::from_str(value));
        assert(self.args.deep_view() =~= old(self).args.deep_view().push(value@));
    }

    /// Sets what the standard input of the child is connected to.
    pub fn stdin(&mut self, stdin: Pipe)
        ensures
            final(self)@ == (ProcessView { set_stdin: Some(stdin), ..old(self)@ }),
    {
        self.set_stdin = Some(stdin);
    }

    /// Sets what the standard output of the child is connected to.
    pub fn stdout(&mut self, stdout: Pipe)
        ensures
            final(self)@ == (ProcessView { set_stdout: Some(stdout), ..old(self)@ }),
    {
        self.set_stdout = Some(stdout);
    }

    /// Sets what the standard error of the child is connected to.
    pub fn stderr(&mut self, stderr: Pipe)
        ensures
            final(self)@ == (ProcessView { set_stderr: Some(stderr), ..old(self)@ }),
    {
        self.set_stderr = Some(stderr);
    }

    /// Whether the child can be started.
    pub fn ready(&self) -> (r: bool)
        ensures
            r == self@.ready(),
    {
        let stdin_set = match self.set_stdin {
            Some(_) => true,
            None => false,
        };
        let stdout_piped = match self.set_stdout {
            Some(Pipe::Piped) => true,
            _ => false,
        };
        let stderr_piped = match self.set_stderr {
            Some(Pipe::Piped) => true,
            _ => false,
        };
        stdin_set && stdout_piped && stderr_piped
    }

    /// Takes the three policies and says how to start the child.
    pub fn command(&mut self) -> (r: Invocation)
        requires
            old(self)@.ready(),
        ensures
            r.program@ == old(self)@.program,
            r.args.deep_view() == old(self)@.args,
            Some(r.stdin) == old(self)@.set_stdin,
            final(self)@ == (ProcessView {
                set_stdin: None,
                set_stdout: None,
                set_stderr: None,
                ..old(self)@
            }),
    {
        let stdin = match self.set_stdin {
            Some(pipe) => pipe,
            None => Pipe::Null,
        };
        self.set_stdin = None;
        self.set_stdout = None;
        self.set_stderr = None;
        let mut args: Vec<String> = Vec::new();
        let mut i: usize = 0;
        while i < self.args.len()
            invariant
                i <= self.args.len(),
                args.len() == i,
                forall|j: int| 0 <= j < i ==> (#[trigger] args[j])@ == self.args[j]@,
            decreases self.args.len() - i,
        {
            args.push(self.args[i].clone());
            i = i + 1;
        }
        Invocation { program: self.program.clone(), args, stdin }
    }

    /// Records that the child was started: keeps the handle to its standard
    /// input, if it has one, makes the signal, arms the latch and begins the
    /// run.
    pub fn attach(&mut self, stdin: Option<H>)
        ensures
            final(self)@.signal is Some,
            final(self)@.consistent(),
            final(self)@ == (ProcessView {
                stdin: stdin,
                signal: final(self)@.signal,
                latch: Some(CancelState::Armed),
                phase: Some(Phase::Running),
                ..old(self)@
            }),
    {
        self.stdin = stdin;
        self.abort = Some(Arc::new(Notify::new()));
        self.latch = Some(CancelToken::new());
        self.run = Some(Lifecycle::new());
    }

    /// Puts a handle to the standard input of the child in place of the one
    /// that is there, if any.
    pub fn set_child_stdin(&mut self, stdin: Option<H>)
        ensures
            final(self)@ == (ProcessView { stdin: stdin, ..old(self)@ }),
    {
        self.stdin = stdin;
    }

    /// Hands out the handle to the standard input of the child. It is handed
    /// out once: afterwards there is none.
    pub fn take_stdin(&mut self) -> (r: Option<H>)
        ensures
            r == old(self)@.stdin,
            final(self)@ == old(self)@.after_take_stdin(),
    {
        self.stdin.take()
    }

    /// The signal that wakes the driver of the run when the end of the child
    /// is requested, once the child was started.
    pub fn aborter(&self) -> (r: Option<Arc<Notify>>)
        ensures
            r == self@.signal,
    {
        match &self.abort {
            Some(signal) => Some(share(signal)),
            None => None,
        }
    }

    /// Where the cancellation latch stands, once the child was started.
    pub fn cancel_state(&self) -> (r: Option<CancelState>)
        ensures
            r == self@.latch,
    {
        match &self.latch {
            Some(token) => Some(token.state()),
            None => None,
        }
    }

    /// How far the run has come, once the child was started.
    pub fn phase(&self) -> (r: Option<Phase>)
        ensures
            r == self@.phase,
    {
        match &self.run {
            Some(lifecycle) => Some(lifecycle.phase()),
            None => None,
        }
    }

    /// Requests the end of the child. Returns whether this call delivered the
    /// request: it does not before the child was started, once a request is
    /// pending, or when the run is over. A request that is delivered wakes
    /// the driver of the run; one that is not wakes nobody.
    pub fn abort(&mut self) -> (delivered: bool)
        ensures
            delivered == old(self)@.abort_delivers(),
            final(self)@ == old(self)@.after_abort(),
            old(self)@.consistent() ==> final(self)@.consistent(),
    {
        let delivered = match self.latch {
            Some(mut token) => {
                let delivered = token.fire();
                self.latch = Some(token);
                delivered
            },
            None => false,
        };
        if delivered {
            match &self.abort {
                Some(signal) => signal.notify_one(),
                None => {},
            }
        }
        delivered
    }

    /// Takes one event of the run and says what the driver has to do.
    pub fn step(&mut self, event: Event) -> (action: Action)
        ensures
            action@ == old(self)@.action_on(event@),
            final(self)@ == old(self)@.after(event@),
            old(self)@.consistent() ==> final(self)@.consistent(),
    {
        match self.run.take() {
            Some(mut lifecycle) => {
                let action = lifecycle.step(event);
                match lifecycle.phase() {
                    Phase::Running => {},
                    Phase::Draining => {
                        let mut token = CancelToken::new();
                        token.fire();
                        self.latch = Some(token);
                    },
                    Phase::Terminated => {
                        let mut token = CancelToken::new();
                        token.close();
                        self.latch = Some(token);
                    },
                }
                self.run = Some(lifecycle);
                action
            },
            None => Action::Idle,
        }
    }
}

/// Requesting the end twice leaves the process where one request left it,
/// and the second request is not delivered.
pub proof fn lemma_abort_twice_is_abort_once<H>(process: ProcessView<H>)
    ensures
        process.after_abort().after_abort() == process.after_abort(),
        !process.after_abort().abort_delivers(),
{
}

/// The process after all of `events`, in order.
pub open spec fn after_all<H>(process: ProcessView<H>, events: Seq<EventView>) -> ProcessView<H>
    decreases events.len(),
{
    if events.len() == 0 {
        process
    } else {
        after_all(process.after(events[0]), events.subrange(1, events.len() as int))
    }
}

/// The input handle is apart from the run: no event and no request to
/// cancel touches it.
pub proof fn lemma_run_keeps_stdin<H>(process: ProcessView<H>, events: Seq<EventView>)
    ensures
        after_all(process, events).stdin == process.stdin,
        process.after_abort().stdin == process.stdin,
    decreases events.len(),
{
    if events.len() > 0 {
        lemma_run_keeps_stdin(process.after(events[0]), events.subrange(1, events.len() as int));
    }
}

/// Once the input handle was taken there is none to take: not at once, and
/// not after whatever happens to the run in between.
pub proof fn lemma_stdin_is_taken_once<H>(process: ProcessView<H>, events: Seq<EventView>)
    ensures
        process.after_take_stdin().stdin is None,
        after_all(process.after_take_stdin(), events).stdin is None,
{
    lemma_run_keeps_stdin(process.after_take_stdin(), events);
}

/// The run does not read the input handle: with the handle taken or not,
/// every event gets the same action.
pub proof fn lemma_stdin_is_apart<H>(process: ProcessView<H>, event: EventView)
    ensures
        process.after_take_stdin().action_on(event) == process.action_on(event),
        process.after_take_stdin().after(event) == process.after(event).after_take_stdin(),
{
}

/// A process that was not started gives the consumer nothing: every event
/// leaves it as it is, and no request to cancel is delivered.
pub proof fn lemma_unstarted_is_silent<H>(process: ProcessView<H>, event: EventView)
    requires
        process.phase is None,
        process.consistent(),
    ensures
        process.action_on(event) is Idle,
        process.after(event) == process,
        !process.abort_delivers(),
        process.after_abort() == process,
{
}

/// Where the signal, the latch and the phase agree, as they do in a process
/// that was just made or just started, every request and every event keeps
/// them so.
pub proof fn lemma_consistency_is_kept<H>(process: ProcessView<H>, event: EventView)
    requires
        process.consistent(),
    ensures
        process.after_abort().consistent(),
        process.after_take_stdin().consistent(),
        process.after(event).consistent(),
{
}

} // verus!
