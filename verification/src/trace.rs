//! What a whole run looks like: the actions that the controller takes over a
//! sequence of events, and the laws that hold of every such sequence.
use crate::item::{line_item, ItemView};
use crate::lifecycle::{exit_item, kill_item, react, ActionView, EventView, Phase};
use crate::text::decimal;
use vstd::prelude::*;

verus! {

/// The phase that the controller reaches from `phase` over `events`.
pub open spec fn end_phase(phase: Phase, events: Seq<EventView>) -> Phase
    decreases events.len(),
{
    if events.len() == 0 {
        phase
    } else {
        end_phase(react(phase, events[0]).0, events.subrange(1, events.len() as int))
    }
}

/// The actions that the controller takes from `phase` over `events`, one for
/// each event.
pub open spec fn actions(phase: Phase, events: Seq<EventView>) -> Seq<ActionView>
    decreases events.len(),
{
    if events.len() == 0 {
        Seq::empty()
    } else {
        let (next, action) = react(phase, events[0]);
        seq![action] + actions(next, events.subrange(1, events.len() as int))
    }
}

/// The items that the consumer sees when the driver carries out `acts`.
pub open spec fn emitted(acts: Seq<ActionView>) -> Seq<ItemView>
    decreases acts.len(),
{
    if acts.len() == 0 {
        Seq::empty()
    } else {
        let rest = emitted(acts.subrange(1, acts.len() as int));
        match acts[0] {
            ActionView::Emit(item) => seq![item] + rest,
            ActionView::Finish { item, .. } => seq![item] + rest,
            _ => rest,
        }
    }
}

/// How many of `acts` end the run.
pub open spec fn finishes(acts: Seq<ActionView>) -> nat
    decreases acts.len(),
{
    if acts.len() == 0 {
        0
    } else {
        let rest = finishes(acts.subrange(1, acts.len() as int));
        if acts[0] is Finish {
            rest + 1
        } else {
            rest
        }
    }
}

/// The items of the lines among `events`, in their order.
pub open spec fn line_items(events: Seq<EventView>) -> Seq<ItemView>
    decreases events.len(),
{
    if events.len() == 0 {
        Seq::empty()
    } else {
        let rest = line_items(events.subrange(1, events.len() as int));
        match events[0] {
            EventView::Line { is_stdout, line } => seq![line_item(is_stdout, line)] + rest,
            _ => rest,
        }
    }
}

/// Whether a run that is under way goes on over `events`: none of them ends
/// it or cancels it. Each is a line, or the report of a kill that nobody
/// asked for.
pub open spec fn goes_on(events: Seq<EventView>) -> bool {
    forall|i: int|
        0 <= i < events.len() ==> (#[trigger] events[i]) is Line || events[i] is Killed
}

/// Whether none of `events` reports a kill.
pub open spec fn no_kill_report(events: Seq<EventView>) -> bool {
    forall|i: int| 0 <= i < events.len() ==> !((#[trigger] events[i]) is Killed)
}

/// A run over `a` and then `b` is the run over `a`, followed by the run over
/// `b` from where the first one ended.
pub proof fn lemma_run_concat(phase: Phase, a: Seq<EventView>, b: Seq<EventView>)
    ensures
        end_phase(phase, a + b) == end_phase(end_phase(phase, a), b),
        actions(phase, a + b) == actions(phase, a) + actions(end_phase(phase, a), b),
    decreases a.len(),
{
    if a.len() > 0 {
        let whole = a + b;
        assert(whole.subrange(1, whole.len() as int) =~= a.subrange(1, a.len() as int) + b);
        lemma_run_concat(react(phase, a[0]).0, a.subrange(1, a.len() as int), b);
    }
}

/// A run over one event is one transition.
pub proof fn lemma_run_single(phase: Phase, event: EventView)
    ensures
        end_phase(phase, seq![event]) == react(phase, event).0,
        actions(phase, seq![event]) == seq![react(phase, event).1],
{
    let rest = seq![event].subrange(1, 1);
    assert(end_phase(react(phase, event).0, rest) == react(phase, event).0);
    assert(actions(react(phase, event).0, rest) =~= Seq::<ActionView>::empty());
}

/// What the consumer sees of one action.
pub proof fn lemma_emitted_single(action: ActionView)
    ensures
        emitted(seq![action]) == match action {
            ActionView::Emit(item) => seq![item],
            ActionView::Finish { item, .. } => seq![item],
            _ => Seq::<ItemView>::empty(),
        },
        finishes(seq![action]) == if action is Finish {
            1nat
        } else {
            0nat
        },
{
    let rest = seq![action].subrange(1, 1);
    assert(emitted(rest) =~= Seq::<ItemView>::empty());
    assert(finishes(rest) == 0);
}

/// The consumer sees the items of `a`, then those of `b`; and the two count
/// their terminal actions apart.
pub proof fn lemma_emitted_concat(a: Seq<ActionView>, b: Seq<ActionView>)
    ensures
        emitted(a + b) == emitted(a) + emitted(b),
        finishes(a + b) == finishes(a) + finishes(b),
    decreases a.len(),
{
    if a.len() > 0 {
        let whole = a + b;
        assert(whole.subrange(1, whole.len() as int) =~= a.subrange(1, a.len() as int) + b);
        lemma_emitted_concat(a.subrange(1, a.len() as int), b);
    }
}

/// Once the run is over, no event changes that, and the consumer sees
/// nothing more.
pub proof fn lemma_terminated_is_silent(events: Seq<EventView>)
    ensures
        end_phase(Phase::Terminated, events) is Terminated,
        emitted(actions(Phase::Terminated, events)) == Seq::<ItemView>::empty(),
        finishes(actions(Phase::Terminated, events)) == 0,
        forall|i: int|
            0 <= i < actions(Phase::Terminated, events).len() ==> (#[trigger] actions(
                Phase::Terminated,
                events,
            )[i]) is Idle,
    decreases events.len(),
{
    if events.len() > 0 {
        let tail = events.subrange(1, events.len() as int);
        lemma_terminated_is_silent(tail);
        let acts = actions(Phase::Terminated, events);
        assert(acts.subrange(1, acts.len() as int) =~= actions(Phase::Terminated, tail));
        assert forall|i: int| 0 <= i < acts.len() implies (#[trigger] acts[i]) is Idle by {}
    }
}

/// While the process is alive, events that do not end the run leave the
/// phase as it is, and the consumer sees the lines among them, in order.
pub proof fn lemma_quiet_stretch(phase: Phase, events: Seq<EventView>)
    requires
        phase is Running && goes_on(events) || phase is Draining && no_kill_report(events),
    ensures
        end_phase(phase, events) == phase,
        emitted(actions(phase, events)) == line_items(events),
        finishes(actions(phase, events)) == 0,
    decreases events.len(),
{
    if events.len() > 0 {
        let tail = events.subrange(1, events.len() as int);
        lemma_quiet_stretch(phase, tail);
        let acts = actions(phase, events);
        assert(acts.subrange(1, acts.len() as int) =~= actions(phase, tail));
    }
}

/// A process that exits by itself: the consumer sees the lines that were read
/// before the exit, each as output or error by its pipe and in the order
/// read, then one exit with the code of the process, and nothing after it,
/// whatever is reported later.
pub proof fn lemma_normal_exit(before: Seq<EventView>, code: i32, later: Seq<EventView>)
    requires
        goes_on(before),
    ensures
        emitted(
            actions(Phase::Running, before + seq![EventView::Exited(Ok(Some(code)))] + later),
        ) == line_items(before) + seq![ItemView::Exit(decimal(code as int))],
        finishes(
            actions(Phase::Running, before + seq![EventView::Exited(Ok(Some(code)))] + later),
        ) == 1,
        end_phase(Phase::Running, before + seq![EventView::Exited(Ok(Some(code)))] + later)
            is Terminated,
{
    lemma_ended_run(before, Ok(Some(code)), later);
}

/// A run that the wait ends, with a code, without one, or by failing: the
/// consumer sees the lines read before, then the one terminal item that the
/// outcome of the wait stands for, and nothing after it.
pub proof fn lemma_ended_run(
    before: Seq<EventView>,
    status: Result<Option<i32>, Seq<char>>,
    later: Seq<EventView>,
)
    requires
        goes_on(before),
    ensures
        emitted(actions(Phase::Running, before + seq![EventView::Exited(status)] + later))
            == line_items(before) + seq![exit_item(status)],
        finishes(actions(Phase::Running, before + seq![EventView::Exited(status)] + later)) == 1,
        end_phase(Phase::Running, before + seq![EventView::Exited(status)] + later) is Terminated,
{
    let exit = seq![EventView::Exited(status)];
    let done = seq![ActionView::Finish { item: exit_item(status), reap: false }];
    lemma_quiet_stretch(Phase::Running, before);
    lemma_run_concat(Phase::Running, before + exit, later);
    lemma_run_concat(Phase::Running, before, exit);
    lemma_run_single(Phase::Running, EventView::Exited(status));
    lemma_terminated_is_silent(later);
    let head = actions(Phase::Running, before);
    let tail = actions(Phase::Terminated, later);
    lemma_emitted_concat(head + done, tail);
    lemma_emitted_concat(head, done);
    lemma_emitted_single(done[0]);
}

/// A run that is cancelled before the process exits: the consumer sees the
/// lines read before the cancellation and those read while the kill was
/// under way, then one terminal item that is the outcome of the kill, which
/// leaves the process to be waited for; no exit that is reported in between
/// or later adds an item.
pub proof fn lemma_cancelled_run(
    before: Seq<EventView>,
    meanwhile: Seq<EventView>,
    outcome: Result<(), Seq<char>>,
    later: Seq<EventView>,
)
    requires
        goes_on(before),
        no_kill_report(meanwhile),
    ensures
        emitted(
            actions(
                Phase::Running,
                before + seq![EventView::Cancel] + meanwhile + seq![EventView::Killed(outcome)]
                    + later,
            ),
        ) == line_items(before) + line_items(meanwhile) + seq![kill_item(outcome)],
        finishes(
            actions(
                Phase::Running,
                before + seq![EventView::Cancel] + meanwhile + seq![EventView::Killed(outcome)]
                    + later,
            ),
        ) == 1,
        end_phase(
            Phase::Running,
            before + seq![EventView::Cancel] + meanwhile + seq![EventView::Killed(outcome)] + later,
        ) is Terminated,
{
    let cancel = seq![EventView::Cancel];
    let killed = seq![EventView::Killed(outcome)];
    let kill = seq![ActionView::Kill];
    let done = seq![ActionView::Finish { item: kill_item(outcome), reap: true }];
    lemma_quiet_stretch(Phase::Running, before);
    lemma_quiet_stretch(Phase::Draining, meanwhile);
    lemma_terminated_is_silent(later);
    lemma_run_concat(Phase::Running, before + cancel + meanwhile + killed, later);
    lemma_run_concat(Phase::Running, before + cancel + meanwhile, killed);
    lemma_run_concat(Phase::Running, before + cancel, meanwhile);
    lemma_run_concat(Phase::Running, before, cancel);
    lemma_run_single(Phase::Running, EventView::Cancel);
    lemma_run_single(Phase::Draining, EventView::Killed(outcome));
    let a1 = actions(Phase::Running, before);
    let a3 = actions(Phase::Draining, meanwhile);
    let a5 = actions(Phase::Terminated, later);
    lemma_emitted_concat(a1 + kill + a3 + done, a5);
    lemma_emitted_concat(a1 + kill + a3, done);
    lemma_emitted_concat(a1 + kill, a3);
    lemma_emitted_concat(a1, kill);
    lemma_emitted_single(ActionView::Kill);
    lemma_emitted_single(done[0]);
}

/// A run whose cancellation was taken up and whose kill is not reported yet:
/// the consumer has seen the lines read so far and no terminal item, and
/// the kill is awaited.
pub proof fn lemma_kill_under_way(before: Seq<EventView>, meanwhile: Seq<EventView>)
    requires
        goes_on(before),
        no_kill_report(meanwhile),
    ensures
        emitted(actions(Phase::Running, before + seq![EventView::Cancel] + meanwhile))
            == line_items(before) + line_items(meanwhile),
        finishes(actions(Phase::Running, before + seq![EventView::Cancel] + meanwhile)) == 0,
        end_phase(Phase::Running, before + seq![EventView::Cancel] + meanwhile) is Draining,
{
    let cancel = seq![EventView::Cancel];
    let kill = seq![ActionView::Kill];
    lemma_quiet_stretch(Phase::Running, before);
    lemma_quiet_stretch(Phase::Draining, meanwhile);
    lemma_run_concat(Phase::Running, before + cancel, meanwhile);
    lemma_run_concat(Phase::Running, before, cancel);
    lemma_run_single(Phase::Running, EventView::Cancel);
    let a1 = actions(Phase::Running, before);
    let a3 = actions(Phase::Draining, meanwhile);
    lemma_emitted_concat(a1 + kill, a3);
    lemma_emitted_concat(a1, kill);
    lemma_emitted_single(ActionView::Kill);
}

/// Whatever happens, and in whatever order: the controller takes one action
/// for each event; at most one of them ends the run, exactly one if the run
/// is over; and after that one every action is idle, so the consumer sees
/// nothing behind the terminal item.
pub proof fn lemma_one_terminal(phase: Phase, events: Seq<EventView>)
    ensures
        actions(phase, events).len() == events.len(),
        finishes(actions(phase, events)) <= 1,
        phase is Terminated ==> finishes(actions(phase, events)) == 0,
        !(phase is Terminated) ==> (finishes(actions(phase, events)) == 1 <==> end_phase(
            phase,
            events,
        ) is Terminated),
        forall|i: int, j: int|
            0 <= i < j < events.len() && (#[trigger] actions(phase, events)[i]) is Finish ==> (
            #[trigger] actions(phase, events)[j]) is Idle,
    decreases events.len(),
{
    if events.len() > 0 {
        let tail = events.subrange(1, events.len() as int);
        let next = react(phase, events[0]).0;
        let acts = actions(phase, events);
        let rest = actions(next, tail);
        lemma_one_terminal(next, tail);
        assert(acts.subrange(1, acts.len() as int) =~= rest);
        if next is Terminated {
            lemma_terminated_is_silent(tail);
        }
        assert forall|i: int, j: int|
            0 <= i < j < events.len() && (#[trigger] acts[i]) is Finish implies (
        #[trigger] acts[j]) is Idle by {}
    }
}

} // verus!
