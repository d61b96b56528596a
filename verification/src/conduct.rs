//! What the consumer of one process sees over a whole run.
use crate::cancel::CancelState;
use crate::item::ItemView;
use crate::lifecycle::{exit_item, kill_item, ActionView, EventView, Phase};
use crate::process::{after_all, ProcessView};
use crate::trace::{
    actions, emitted, end_phase, finishes, goes_on, lemma_cancelled_run, lemma_ended_run,
    lemma_one_terminal, line_items, no_kill_report,
};
use vstd::prelude::*;

verus! {

/// The actions that the driver of `process` is told over `events`, one for
/// each event.
pub open spec fn conduct<H>(process: ProcessView<H>, events: Seq<EventView>) -> Seq<ActionView>
    decreases events.len(),
{
    if events.len() == 0 {
        Seq::empty()
    } else {
        seq![process.action_on(events[0])] + conduct(
            process.after(events[0]),
            events.subrange(1, events.len() as int),
        )
    }
}

/// A process that was started does what its controller does, from the phase
/// that it is in; and its latch is closed exactly when the run is over.
pub proof fn lemma_started_follows_controller<H>(process: ProcessView<H>, events: Seq<EventView>)
    requires
        process.phase is Some,
        process.consistent(),
    ensures
        conduct(process, events) == actions(process.phase->0, events),
        after_all(process, events).phase == Some(end_phase(process.phase->0, events)),
        after_all(process, events).consistent(),
        after_all(process, events).stdin == process.stdin,
    decreases events.len(),
{
    if events.len() > 0 {
        lemma_started_follows_controller(
            process.after(events[0]),
            events.subrange(1, events.len() as int),
        );
    }
}

/// A process that runs and ends by itself: the consumer sees the lines read
/// before the end, in order, then the one terminal item that the outcome of
/// the wait stands for (for a process that gave an exit code, an exit with
/// that code) and nothing after it. From then on no request to cancel is
/// delivered.
pub proof fn lemma_process_ends<H>(
    process: ProcessView<H>,
    before: Seq<EventView>,
    status: Result<Option<i32>, Seq<char>>,
    later: Seq<EventView>,
)
    requires
        process.phase == Some(Phase::Running),
        process.consistent(),
        goes_on(before),
    ensures
        emitted(conduct(process, before + seq![EventView::Exited(status)] + later)) == line_items(
            before,
        ) + seq![exit_item(status)],
        finishes(conduct(process, before + seq![EventView::Exited(status)] + later)) == 1,
        !after_all(process, before + seq![EventView::Exited(status)] + later).abort_delivers(),
{
    lemma_started_follows_controller(process, before + seq![EventView::Exited(status)] + later);
    lemma_ended_run(before, status, later);
}

/// A process that is cancelled while it runs: after the request, the
/// consumer sees the lines read until the cancellation is taken up and those
/// read while the kill is under way, then one terminal item, which is the
/// outcome of the kill: never an exit of the process besides it, whatever
/// the wait reports in between or later. A second request, at any time after
/// the first, is not delivered.
pub proof fn lemma_process_is_cancelled<H>(
    process: ProcessView<H>,
    before: Seq<EventView>,
    meanwhile: Seq<EventView>,
    outcome: Result<(), Seq<char>>,
    later: Seq<EventView>,
)
    requires
        process.phase == Some(Phase::Running),
        process.consistent(),
        goes_on(before),
        no_kill_report(meanwhile),
    ensures
        emitted(
            conduct(
                process.after_abort(),
                before + seq![EventView::Cancel] + meanwhile + seq![EventView::Killed(outcome)]
                    + later,
            ),
        ) == line_items(before) + line_items(meanwhile) + seq![kill_item(outcome)],
        finishes(
            conduct(
                process.after_abort(),
                before + seq![EventView::Cancel] + meanwhile + seq![EventView::Killed(outcome)]
                    + later,
            ),
        ) == 1,
        !process.after_abort().abort_delivers(),
        !after_all(
            process.after_abort(),
            before + seq![EventView::Cancel] + meanwhile + seq![EventView::Killed(outcome)] + later,
        ).abort_delivers(),
{
    let events = before + seq![EventView::Cancel] + meanwhile + seq![EventView::Killed(outcome)]
        + later;
    lemma_started_follows_controller(process.after_abort(), events);
    lemma_cancelled_run(before, meanwhile, outcome, later);
}

/// While a request to cancel is pending or the run is over, no further
/// request is delivered, whatever happens in between.
pub proof fn lemma_request_is_delivered_once<H>(process: ProcessView<H>, events: Seq<EventView>)
    requires
        process.consistent(),
        process.latch == Some(CancelState::Fired) || process.latch == Some(CancelState::Closed),
    ensures
        !after_all(process, events).abort_delivers(),
    decreases events.len(),
{
    if events.len() > 0 {
        lemma_request_is_delivered_once(
            process.after(events[0]),
            events.subrange(1, events.len() as int),
        );
    }
}

/// A process that was not started tells its driver nothing, whatever is
/// handed to it.
pub proof fn lemma_unstarted_conduct<H>(process: ProcessView<H>, events: Seq<EventView>)
    requires
        process.phase is None,
    ensures
        conduct(process, events).len() == events.len(),
        forall|i: int| 0 <= i < events.len() ==> (#[trigger] conduct(process, events)[i]) is Idle,
        emitted(conduct(process, events)) == Seq::<ItemView>::empty(),
        finishes(conduct(process, events)) == 0,
        after_all(process, events) == process,
    decreases events.len(),
{
    if events.len() > 0 {
        let tail = events.subrange(1, events.len() as int);
        lemma_unstarted_conduct(process, tail);
        let acts = conduct(process, events);
        assert(acts.subrange(1, acts.len() as int) =~= conduct(process, tail));
        assert forall|i: int| 0 <= i < events.len() implies (#[trigger] acts[i]) is Idle by {}
    }
}

/// Whatever is handed to a process, started or not, with a request to
/// cancel pending or not: at most one of the actions that its driver is told
/// ends the run, and every action after that one is idle.
pub proof fn lemma_process_has_one_terminal<H>(process: ProcessView<H>, events: Seq<EventView>)
    requires
        process.consistent(),
    ensures
        conduct(process, events).len() == events.len(),
        finishes(conduct(process, events)) <= 1,
        finishes(conduct(process.after_abort(), events)) <= 1,
        forall|i: int, j: int|
            0 <= i < j < events.len() && (#[trigger] conduct(process, events)[i]) is Finish ==> (
            #[trigger] conduct(process, events)[j]) is Idle,
{
    match process.phase {
        Some(phase) => {
            lemma_started_follows_controller(process, events);
            lemma_started_follows_controller(process.after_abort(), events);
            lemma_one_terminal(phase, events);
        },
        None => {
            lemma_unstarted_conduct(process, events);
            lemma_unstarted_conduct(process.after_abort(), events);
        },
    }
}

} // verus!
