use vstd::prelude::*;

use crate::lifecycle::{child_spawned, next_phase, step_action, ActionView, Event, Phase};
use crate::plan::PlanView;

verus! {

/// The phase that the startup reaches from `phase` on `events`, one after
/// the other.
pub open spec fn run(phase: Phase, events: Seq<Event>) -> Phase
    decreases events.len(),
{
    if events.len() == 0 {
        phase
    } else {
        next_phase(run(phase, events.drop_last()), events.last())
    }
}

proof fn lemma_prefix_of_drop_last(events: Seq<Event>, i: int)
    requires
        0 <= i < events.len(),
    ensures
        events.drop_last().take(i) == events.take(i),
{
    assert(events.drop_last().take(i) =~= events.take(i));
}

proof fn lemma_creating_follows_live_probe(events: Seq<Event>)
    requires
        run(Phase::CreatingNetworkDir, events) == Phase::CreatingWallet,
    ensures
        exists|i: int|
            0 <= i < events.len() && run(Phase::CreatingNetworkDir, #[trigger] events.take(i)) == Phase::Polling
                && events[i] is Succeeded,
{
    let n = events.len() - 1;
    assert(events.take(n) =~= events.drop_last());
}

proof fn lemma_loading_follows_creation(events: Seq<Event>)
    requires
        run(Phase::CreatingNetworkDir, events) == Phase::LoadingWallet,
    ensures
        exists|i: int, j: int|
            0 <= i < j < events.len() && run(Phase::CreatingNetworkDir, #[trigger] events.take(i)) == Phase::Polling
                && events[i] is Succeeded && run(Phase::CreatingNetworkDir, #[trigger] events.take(j))
                == Phase::CreatingWallet && events[j] is Succeeded,
{
    let n = events.len() - 1;
    let prev = events.drop_last();
    assert(events.take(n) =~= prev);
    lemma_creating_follows_live_probe(prev);
    let i = choose|i: int|
        0 <= i < prev.len() && run(Phase::CreatingNetworkDir, #[trigger] prev.take(i)) == Phase::Polling
            && prev[i] is Succeeded;
    lemma_prefix_of_drop_last(events, i);
    assert(events[i] == prev[i]);
}

/// The startup reaches `Ready` only after the `version` probe succeeded and
/// then the wallet was created and loaded, in that order: a daemon that is
/// handed out answers RPC calls.
pub proof fn lemma_ready_only_after_live_probe(events: Seq<Event>)
    requires
        run(Phase::CreatingNetworkDir, events) == Phase::Ready,
    ensures
        exists|i: int, j: int, k: int|
            0 <= i < j < k < events.len() && run(Phase::CreatingNetworkDir, #[trigger] events.take(i)) == Phase::Polling
                && events[i] is Succeeded && run(Phase::CreatingNetworkDir, #[trigger] events.take(j))
                == Phase::CreatingWallet && events[j] is Succeeded && run(Phase::CreatingNetworkDir,
            #[trigger] events.take(k)) == Phase::LoadingWallet && events[k] is Succeeded,
    decreases events.len(),
{
    let n = events.len() - 1;
    let prev = events.drop_last();
    assert(events.take(n) =~= prev);
    if run(Phase::CreatingNetworkDir, prev) == Phase::Ready {
        lemma_ready_only_after_live_probe(prev);
        let (i, j, k) = choose|i: int, j: int, k: int|
            0 <= i < j < k < prev.len() && run(Phase::CreatingNetworkDir, #[trigger] prev.take(i)) == Phase::Polling
                && prev[i] is Succeeded && run(Phase::CreatingNetworkDir, #[trigger] prev.take(j))
                == Phase::CreatingWallet && prev[j] is Succeeded && run(Phase::CreatingNetworkDir,
            #[trigger] prev.take(k)) == Phase::LoadingWallet && prev[k] is Succeeded;
        lemma_prefix_of_drop_last(events, i);
        lemma_prefix_of_drop_last(events, j);
        lemma_prefix_of_drop_last(events, k);
        assert(events[i] == prev[i] && events[j] == prev[j] && events[k] == prev[k]);
    } else {
        lemma_loading_follows_creation(prev);
        let (i, j) = choose|i: int, j: int|
            0 <= i < j < prev.len() && run(Phase::CreatingNetworkDir, #[trigger] prev.take(i)) == Phase::Polling
                && prev[i] is Succeeded && run(Phase::CreatingNetworkDir, #[trigger] prev.take(j))
                == Phase::CreatingWallet && prev[j] is Succeeded;
        lemma_prefix_of_drop_last(events, i);
        lemma_prefix_of_drop_last(events, j);
        assert(events[i] == prev[i] && events[j] == prev[j]);
        assert(run(Phase::CreatingNetworkDir, events.take(n)) == Phase::LoadingWallet);
    }
}

/// `Ready` and `Failed` are final: no later event leaves them, so a failed
/// startup never turns into a handed-out daemon.
pub proof fn lemma_final_phases_stay(phase: Phase, events: Seq<Event>)
    requires
        phase is Ready || phase is Failed,
    ensures
        run(phase, events) == phase,
    decreases events.len(),
{
    if events.len() > 0 {
        lemma_final_phases_stay(phase, events.drop_last());
    }
}

/// A failure once the daemon process runs asks for the process to be
/// killed, so that a failed startup leaves no process behind.
pub proof fn lemma_failure_after_spawn_kills(plan: PlanView, phase: Phase, error: crate::error::Error)
    requires
        child_spawned(phase),
        !(phase is Ready),
        !(phase is Polling),
        !(phase is Pausing),
    ensures
        step_action(plan, phase, Event::Failed(error)) == (ActionView::Fail { error, kill_child: true }),
{
}

} // verus!
