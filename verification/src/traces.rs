//! What holds of a session over whole runs: sequences of events, in any
//! order, fed to the transition function one after the other.

use crate::command::{stop_target, CommandView};
use crate::environment::{propagation, Binding};
use crate::rendezvous::{refusal, resolves_readiness, Claim, ProbeOutcome};
use crate::session::{fresh, idle, next, ActionView, EventView, Outcome, Phase, SessionView, SlotView};
use vstd::prelude::*;

verus! {

/// The session after all of `events`, taken in order.
pub open spec fn run(s: SessionView, events: Seq<EventView>) -> SessionView
    decreases events.len(),
{
    if events.len() == 0 {
        s
    } else {
        next(run(s, events.drop_last()), events.last()).0
    }
}

/// The action that the event at place `i` of the run calls for.
pub open spec fn action_at(s: SessionView, events: Seq<EventView>, i: int) -> ActionView {
    next(run(s, events.take(i)), events[i]).1
}

/// The event settles that the runtime is ready: the direct signal, or a
/// probe that found the igniter.
pub open spec fn settles_readiness(e: EventView) -> bool {
    match e {
        EventView::RuntimeReady => true,
        EventView::Probed(probe) => resolves_readiness(probe),
        _ => false,
    }
}

/// The event is one of the two signals that the bus delivers.
pub open spec fn is_signal(e: EventView) -> bool {
    e is RuntimeReady || e is ServerStarted
}

/// The first environment report among `events`, if there is one.
pub open spec fn first_report(events: Seq<EventView>) -> Option<Seq<Binding>>
    decreases events.len(),
{
    if events.len() == 0 {
        None
    } else {
        match first_report(events.drop_last()) {
            Some(report) => Some(report),
            None => match events.last() {
                EventView::ServerStarted(report) => Some(report),
                _ => None,
            },
        }
    }
}

/// The endpoint is published and nothing else has happened: the state in
/// which the coordinator begins to listen.
pub open spec fn published(s: SessionView) -> bool {
    s == (SessionView { claimed: true, ..fresh(s.server) })
}

/// A run of one event more is the run so far, followed by that event.
pub proof fn lemma_run_unfolds(s: SessionView, events: Seq<EventView>, i: int)
    requires
        0 <= i < events.len(),
    ensures
        run(s, events.take(i + 1)) == next(run(s, events.take(i)), events[i]).0,
{
    assert(events.take(i + 1).drop_last() =~= events.take(i));
}

/// Every session that a run reaches from a well-formed one is well formed.
pub proof fn lemma_run_keeps_wf(s: SessionView, events: Seq<EventView>)
    requires
        s.wf(),
    ensures
        run(s, events).wf(),
    decreases events.len(),
{
    if events.len() > 0 {
        lemma_run_keeps_wf(s, events.drop_last());
    }
}

/// A session never goes back to an earlier phase, a published endpoint
/// stays published, and the latch, once set, stays set.
pub proof fn lemma_run_only_advances(s: SessionView, events: Seq<EventView>)
    ensures
        run(s, events).phase.rank() >= s.phase.rank(),
        run(s, events).server == s.server,
        s.claimed ==> run(s, events).claimed,
        s.ready ==> run(s, events).ready,
    decreases events.len(),
{
    if events.len() > 0 {
        lemma_run_only_advances(s, events.drop_last());
    }
}

/// The phase that an action opens: the launch opens the spawning of the
/// server, the pushes open the propagation, the request to start the target
/// opens the active session, and the request to stop it opens the draining.
pub open spec fn opens(action: ActionView) -> Option<Phase> {
    match action {
        ActionView::SpawnServer(_) => Some(Phase::SpawningServer),
        ActionView::SetEnvironment(_) => Some(Phase::PropagatingEnvironment),
        ActionView::StartTarget(_) => Some(Phase::SessionActive),
        ActionView::StopTarget(_) => Some(Phase::Draining),
        _ => None,
    }
}

/// Each action has one cause. The server is launched only by an event that
/// settles readiness, the environment is pushed only when a report is at
/// hand and the server was launched, the target is asked for only when all
/// pushes have ended, the server is awaited only after that request, and the
/// target is stopped only when the wait for the server has ended.
pub proof fn lemma_action_has_its_cause(s: SessionView, e: EventView)
    ensures
        ({
            let (after, action) = next(s, e);
            &&& !(action is ClaimEndpoint)
            &&& action is ProbeIgniter ==> e == EventView::Claimed(Claim::Granted)
            &&& action is Abort ==> e is Claimed && e != EventView::Claimed(Claim::Granted)
            &&& action is SpawnServer ==> settles_readiness(e)
            &&& action is SetEnvironment ==> e is ServerStarted || e is ServerSpawned
            &&& action is StartTarget ==> e is EnvironmentPropagated
            &&& action is AwaitServer ==> e is TargetStartRequested
            &&& action is StopTarget ==> e is ServerExited
            &&& opens(action) matches Some(phase) ==> s.phase.rank() < phase.rank() && after.phase
                == phase
        }),
{
}

/// The actions come in one order and none comes twice: in every run, from
/// whatever session and in whatever order its events come, an action that
/// opens a phase is followed only by actions that open later phases. So the
/// server is launched at most once, and before the environment is pushed;
/// the environment is pushed before the target is asked for; and the target
/// is stopped last.
pub proof fn lemma_actions_come_in_order(s: SessionView, events: Seq<EventView>, i: int, j: int)
    requires
        0 <= i < j < events.len(),
        opens(action_at(s, events, i)) is Some,
        opens(action_at(s, events, j)) is Some,
    ensures
        opens(action_at(s, events, i))->0.rank() < opens(action_at(s, events, j))->0.rank(),
{
    lemma_action_has_its_cause(run(s, events.take(i)), events[i]);
    lemma_action_has_its_cause(run(s, events.take(j)), events[j]);
    lemma_run_unfolds(s, events, i);
    let after = run(s, events.take(i + 1));
    let rest = events.take(j).skip(i + 1);
    lemma_run_splits(s, events.take(i + 1), rest);
    assert(events.take(i + 1) + rest =~= events.take(j));
    lemma_run_only_advances(after, rest);
}

/// Running two sequences one after the other is running their concatenation.
pub proof fn lemma_run_splits(s: SessionView, first: Seq<EventView>, second: Seq<EventView>)
    ensures
        run(s, first + second) == run(run(s, first), second),
    decreases second.len(),
{
    if second.len() == 0 {
        assert(first + second =~= first);
    } else {
        lemma_run_splits(s, first, second.drop_last());
        assert((first + second).drop_last() =~= first + second.drop_last());
        assert((first + second).last() == second.last());
    }
}

/// Whichever side comes first, the server is launched exactly once and the
/// coordinator does not hang. For a coordinator that has published its
/// endpoint, in every run in which readiness is settled at all (by a probe
/// that finds the igniter, which published before the coordinator began to
/// listen, or by the direct signal of an igniter that came later), the
/// launch is called for at the first event that settles it, and at no other.
pub proof fn lemma_readiness_launches_once(s: SessionView, events: Seq<EventView>, k: int)
    requires
        published(s),
        0 <= k < events.len(),
        settles_readiness(events[k]),
        forall|j: int| 0 <= j < k ==> !settles_readiness(#[trigger] events[j]),
    ensures
        action_at(s, events, k) == ActionView::SpawnServer(s.server),
        forall|j: int| 0 <= j < events.len() && j != k ==> !(action_at(s, events, j) is SpawnServer),
        run(s, events).phase.rank() >= Phase::SpawningServer.rank(),
        run(s, events).ready,
{
    lemma_awaits_until_settled(s, events.take(k));
    lemma_run_unfolds(s, events, k);
    assert forall|j: int| 0 <= j < events.len() && j != k implies !(action_at(s, events, j)
        is SpawnServer) by {
        if action_at(s, events, j) is SpawnServer {
            if j < k {
                lemma_actions_come_in_order(s, events, j, k);
            } else {
                lemma_actions_come_in_order(s, events, k, j);
            }
        }
    }
    let rest = events.skip(k + 1);
    lemma_run_splits(s, events.take(k + 1), rest);
    assert(events.take(k + 1) + rest =~= events);
    lemma_run_only_advances(run(s, events.take(k + 1)), rest);
}

/// As long as no event settles readiness, a coordinator that has published
/// its endpoint goes on awaiting it: nothing is launched, nothing is
/// propagated, and the session target is not asked for. A report that comes
/// in the meantime is kept for later.
pub proof fn lemma_awaits_until_settled(s: SessionView, events: Seq<EventView>)
    requires
        published(s),
        forall|j: int| 0 <= j < events.len() ==> !settles_readiness(#[trigger] events[j]),
    ensures
        run(s, events).phase == Phase::AwaitingReady,
        run(s, events).claimed,
        !run(s, events).ready,
        run(s, events).server == s.server,
        forall|j: int|
            0 <= j < events.len() ==> #[trigger] action_at(s, events, j) == ActionView::Wait,
    decreases events.len(),
{
    if events.len() > 0 {
        let front = events.drop_last();
        assert forall|j: int| 0 <= j < front.len() implies !settles_readiness(
            #[trigger] front[j],
        ) by {
            assert(front[j] == events[j]);
        }
        lemma_awaits_until_settled(s, front);
        assert(!settles_readiness(events[events.len() - 1]));
        assert forall|j: int| 0 <= j < events.len() implies #[trigger] action_at(s, events, j)
            == ActionView::Wait by {
            if j < front.len() {
                assert(front.take(j) =~= events.take(j));
                assert(action_at(s, front, j) == ActionView::Wait);
            } else {
                assert(events.take(j) =~= front);
            }
        }
    }
}

/// The event that moves a session on from where it stands: the completion
/// of what the phase is busy with, or the signal that it waits for.
pub open spec fn way_on(s: SessionView) -> EventView {
    match s.phase {
        Phase::AwaitingReady => if s.claimed {
            EventView::RuntimeReady
        } else {
            EventView::Claimed(Claim::NameInUse)
        },
        Phase::SpawningServer => EventView::ServerSpawned,
        Phase::AwaitingEnvironment => EventView::ServerStarted(Seq::empty()),
        Phase::PropagatingEnvironment => EventView::EnvironmentPropagated(Outcome::Failed),
        Phase::SessionActive => EventView::ServerExited(Outcome::Failed),
        Phase::Draining => EventView::TargetStopRequested(Outcome::Failed),
        Phase::Terminated => EventView::RuntimeReady,
    }
}

/// No session is stuck: as long as it is not over, there is an event that
/// takes it to a later phase, and a failure is enough where an outcome is
/// reported.
pub proof fn lemma_never_stuck(s: SessionView)
    requires
        s.wf(),
        s.phase != Phase::Terminated,
    ensures
        next(s, way_on(s)).0.phase.rank() > s.phase.rank(),
{
}

/// The two orders in which coordinator and igniter can come up. If the
/// igniter published first, the probe finds it and the server is launched
/// at once. If the coordinator came first, the probe finds nothing, the
/// coordinator waits, and the igniter's signal launches the server.
pub proof fn lemma_either_order_launches(server: CommandView, answer: bool)
    ensures
        ({
            let igniter_first = seq![
                EventView::Claimed(Claim::Granted),
                EventView::Probed(ProbeOutcome::Answered(answer)),
            ];
            &&& action_at(fresh(server), igniter_first, 0) == ActionView::ProbeIgniter
            &&& action_at(fresh(server), igniter_first, 1) == ActionView::SpawnServer(server)
            &&& run(fresh(server), igniter_first).phase == Phase::SpawningServer
        }),
        ({
            let coordinator_first = seq![
                EventView::Claimed(Claim::Granted),
                EventView::Probed(ProbeOutcome::Unreachable),
                EventView::RuntimeReady,
            ];
            &&& action_at(fresh(server), coordinator_first, 0) == ActionView::ProbeIgniter
            &&& action_at(fresh(server), coordinator_first, 1) == ActionView::Wait
            &&& action_at(fresh(server), coordinator_first, 2) == ActionView::SpawnServer(server)
            &&& run(fresh(server), coordinator_first).phase == Phase::SpawningServer
        }),
{
    let s = fresh(server);
    let a = seq![
        EventView::Claimed(Claim::Granted),
        EventView::Probed(ProbeOutcome::Answered(answer)),
    ];
    assert(a.take(0) =~= Seq::<EventView>::empty());
    assert(a.take(2) =~= a);
    lemma_run_unfolds(s, a, 0);
    lemma_run_unfolds(s, a, 1);
    let b = seq![
        EventView::Claimed(Claim::Granted),
        EventView::Probed(ProbeOutcome::Unreachable),
        EventView::RuntimeReady,
    ];
    assert(b.take(0) =~= Seq::<EventView>::empty());
    assert(b.take(3) =~= b);
    lemma_run_unfolds(s, b, 0);
    lemma_run_unfolds(s, b, 1);
    lemma_run_unfolds(s, b, 2);
}

/// The session target is not asked for before readiness is settled and the
/// report is in, in whatever order the two come: in every run of a
/// coordinator that has published its endpoint, an event that settles
/// readiness and an environment report both come before the request to
/// start the target.
pub proof fn lemma_target_waits_for_both(s: SessionView, events: Seq<EventView>, i: int)
    requires
        published(s),
        0 <= i < events.len(),
        action_at(s, events, i) is StartTarget,
    ensures
        exists|k: int| 0 <= k < i && settles_readiness(#[trigger] events[k]),
        exists|k: int| 0 <= k < i && (#[trigger] events[k]) is ServerStarted,
{
    let before = events.take(i);
    lemma_run_keeps_wf(s, before);
    lemma_causes(s, before);
    let k1 = choose|k: int| 0 <= k < before.len() && settles_readiness(#[trigger] before[k]);
    assert(settles_readiness(events[k1]));
    let k2 = choose|k: int| 0 <= k < before.len() && (#[trigger] before[k]) is ServerStarted;
    assert(events[k2] is ServerStarted);
}

/// Nothing comes from nothing: a latch that is set was set by an event that
/// settles readiness, and a slot that is not empty was filled by a report.
pub proof fn lemma_causes(s: SessionView, events: Seq<EventView>)
    requires
        published(s),
    ensures
        run(s, events).ready ==> exists|k: int|
            0 <= k < events.len() && settles_readiness(#[trigger] events[k]),
        !(run(s, events).slot is Empty) ==> exists|k: int|
            0 <= k < events.len() && (#[trigger] events[k]) is ServerStarted,
    decreases events.len(),
{
    if events.len() > 0 {
        let front = events.drop_last();
        let last = events.len() - 1;
        lemma_causes(s, front);
        if run(s, events).ready {
            if run(s, front).ready {
                let k = choose|k: int|
                    0 <= k < front.len() && settles_readiness(#[trigger] front[k]);
                assert(settles_readiness(events[k]));
            } else {
                assert(settles_readiness(events[last]));
            }
        }
        if !(run(s, events).slot is Empty) {
            if !(run(s, front).slot is Empty) {
                let k = choose|k: int| 0 <= k < front.len() && (#[trigger] front[k]) is ServerStarted;
                assert(events[k] is ServerStarted);
            } else {
                assert(events[last] is ServerStarted);
            }
        }
    }
}

/// A report that comes when the slot is no longer empty is dropped without
/// a trace: the session stays exactly as it was.
pub proof fn lemma_later_report_is_dropped(s: SessionView, report: Seq<Binding>)
    requires
        s.wf(),
        !(s.slot is Empty),
    ensures
        next(s, EventView::ServerStarted(report)) == idle(s),
{
}

/// What is propagated is the first report, filtered, and nothing else. In
/// every run of a coordinator that has published its endpoint, the slot
/// holds the first report from its arrival until it is used, and the
/// requests that push the environment are those of the first report, however
/// many reports come after it.
pub proof fn lemma_first_report_is_propagated(s: SessionView, events: Seq<EventView>)
    requires
        published(s),
    ensures
        run(s, events).phase == Phase::Terminated ==> run(s, events).slot is Consumed,
        run(s, events).slot is Empty <==> first_report(events) is None,
        forall|held: Seq<Binding>|
            run(s, events).slot == SlotView::Holding(held) ==> first_report(events) == Some(held),
        forall|i: int|
            0 <= i < events.len() && #[trigger] action_at(s, events, i) is SetEnvironment ==> {
                &&& first_report(events.take(i + 1)) matches Some(report)
                &&& action_at(s, events, i) == ActionView::SetEnvironment(propagation(report))
            },
    decreases events.len(),
{
    lemma_run_keeps_wf(s, events);
    lemma_run_only_advances(s, events);
    if events.len() > 0 {
        let front = events.drop_last();
        let last = events.len() - 1;
        lemma_first_report_is_propagated(s, front);
        lemma_run_keeps_wf(s, front);
        lemma_run_only_advances(s, front);
        assert(events.take(last) =~= front);
        assert(events.take(last + 1) =~= events);
        assert forall|i: int|
            0 <= i < events.len() && #[trigger] action_at(s, events, i) is SetEnvironment implies {
            &&& first_report(events.take(i + 1)) matches Some(report)
            &&& action_at(s, events, i) == ActionView::SetEnvironment(propagation(report))
        } by {
            if i < last {
                assert(front.take(i) =~= events.take(i));
                assert(front.take(i + 1) =~= events.take(i + 1));
                assert(action_at(s, front, i) is SetEnvironment);
            }
        }
    }
}

/// Once the report is used, the signals have no effect any more: a second
/// readiness signal or a further report leaves the session as it is.
pub proof fn lemma_late_signals_change_nothing(s: SessionView, e: EventView)
    requires
        s.wf(),
        s.phase.rank() >= Phase::PropagatingEnvironment.rank(),
        is_signal(e),
    ensures
        next(s, e) == idle(s),
{
}

/// The stop of the session target follows the server's exit without
/// condition: however the wait for the server ended, the session goes on to
/// draining and asks for the stop.
pub proof fn lemma_stop_follows_exit(s: SessionView, exited: Outcome)
    requires
        s.phase == Phase::SessionActive,
    ensures
        next(s, EventView::ServerExited(exited)) == (
            SessionView { phase: Phase::Draining, ..s },
            ActionView::StopTarget(stop_target()),
        ),
{
}

/// Draining is always reached: from the propagation of the environment on,
/// whatever becomes of the pushes, of the request to start the target and of
/// the wait for the server, the session ends up draining, with the stop of
/// the target called for.
pub proof fn lemma_draining_is_reached(
    s: SessionView,
    pushed: Outcome,
    started: Outcome,
    exited: Outcome,
)
    requires
        s.phase == Phase::PropagatingEnvironment,
    ensures
        ({
            let events = seq![
                EventView::EnvironmentPropagated(pushed),
                EventView::TargetStartRequested(started),
                EventView::ServerExited(exited),
            ];
            &&& run(s, events) == SessionView { phase: Phase::Draining, ..s }
            &&& action_at(s, events, 2) == ActionView::StopTarget(stop_target())
        }),
{
    let events = seq![
        EventView::EnvironmentPropagated(pushed),
        EventView::TargetStartRequested(started),
        EventView::ServerExited(exited),
    ];
    assert(events.take(0) =~= Seq::<EventView>::empty());
    assert(events.take(3) =~= events);
    lemma_run_unfolds(s, events, 0);
    lemma_run_unfolds(s, events, 1);
    lemma_run_unfolds(s, events, 2);
}

/// A coordinator whose claim is refused does nothing further: the refusal
/// ends the session at once, with the reason, and whatever comes after it
/// changes nothing and calls for nothing.
pub proof fn lemma_refused_claim_is_final(
    server: CommandView,
    claim: Claim,
    events: Seq<EventView>,
)
    requires
        claim != Claim::Granted,
    ensures
        ({
            let (ended, action) = next(fresh(server), EventView::Claimed(claim));
            &&& ended == SessionView { phase: Phase::Terminated, ..fresh(server) }
            &&& refusal(claim) matches Some(error)
            &&& action == ActionView::Abort(error)
            &&& run(ended, events) == ended
            &&& forall|i: int|
                0 <= i < events.len() ==> #[trigger] action_at(ended, events, i) == ActionView::Exit
        }),
{
    let ended = next(fresh(server), EventView::Claimed(claim)).0;
    lemma_terminated_is_final(ended, events);
    assert forall|i: int| 0 <= i < events.len() implies #[trigger] action_at(ended, events, i)
        == ActionView::Exit by {
        lemma_terminated_is_final(ended, events.take(i));
    }
}

/// A session that is over stays as it is.
pub proof fn lemma_terminated_is_final(s: SessionView, events: Seq<EventView>)
    requires
        s.phase == Phase::Terminated,
    ensures
        run(s, events) == s,
        forall|e: EventView| next(s, e) == (s, ActionView::Exit),
    decreases events.len(),
{
    if events.len() > 0 {
        lemma_terminated_is_final(s, events.drop_last());
    }
}

} // verus!
