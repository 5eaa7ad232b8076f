use vstd::prelude::*;

use crate::lifecycle::{Action, ActionView, Event};

verus! {

/// How a running daemon is taken down.
#[derive(Debug, Clone, Copy, PartialEq, Eq, Structural)]
pub enum TeardownKind {
    /// An explicit stop: ask the daemon to stop, then wait for its exit.
    Stop,
    /// The handle is released: ask the daemon to stop, then kill it whatever
    /// the answer, without waiting.
    Release,
}

/// The action that answers the reply to the stop request: an explicit stop
/// waits for the exit, or reports the failure without waiting; a release
/// kills the process in any case.
pub open spec fn teardown_action(kind: TeardownKind, event: Event) -> ActionView {
    match kind {
        TeardownKind::Stop => match event {
            Event::Succeeded => ActionView::WaitForExit,
            Event::Failed(error) => ActionView::Fail { error, kill_child: false },
        },
        TeardownKind::Release => ActionView::Kill,
    }
}

/// The state machine that takes one daemon down.
pub struct Teardown {
    kind: TeardownKind,
    answered: bool,
}

impl Teardown {
    /// The way the daemon is taken down.
    pub closed spec fn kind_spec(&self) -> TeardownKind {
        self.kind
    }

    /// The reply to the stop request has come.
    pub closed spec fn answered_spec(&self) -> bool {
        self.answered
    }

    /// Begins taking the daemon down: the first action is the `stop` call.
    pub fn begin(kind: TeardownKind) -> (r: (Teardown, Action))
        ensures
            r.0.kind_spec() == kind,
            !r.0.answered_spec(),
            r.1@ == (ActionView::Call { method: "stop"@, params: "[]"@ }),
    {
        let action = Action::Call { method: String::from_str("stop"), params: String::from_str("[]") };
        (Teardown { kind, answered: false }, action)
    }

    /// Tells the machine how the last action went and returns the next one.
    pub fn step(&mut self, event: Event) -> (r: Action)
        ensures
            final(self).kind_spec() == old(self).kind_spec(),
            final(self).answered_spec(),
            old(self).answered_spec() ==> r@ == ActionView::Idle,
            !old(self).answered_spec() ==> r@ == teardown_action(old(self).kind_spec(), event),
    {
        if self.answered {
            return Action::Idle;
        }
        self.answered = true;
        match self.kind {
            TeardownKind::Stop => match event {
                Event::Succeeded => Action::WaitForExit,
                Event::Failed(error) => Action::Fail { error, kill_child: false },
            },
            TeardownKind::Release => Action::Kill,
        }
    }
}

/// A released daemon is killed whatever the answer to its stop request.
pub proof fn lemma_release_always_kills(event: Event)
    ensures
        teardown_action(TeardownKind::Release, event) == ActionView::Kill,
{
}

/// An explicit stop waits for the exit only when the stop request
/// succeeded, and never kills the process.
pub proof fn lemma_stop_waits_only_after_stop_call(event: Event)
    ensures
        (teardown_action(TeardownKind::Stop, event) == ActionView::WaitForExit) <==> event is Succeeded,
        teardown_action(TeardownKind::Stop, event) != ActionView::Kill,
{
}

} // verus!
