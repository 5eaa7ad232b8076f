use vstd::prelude::*;

use crate::error::Error;
use crate::plan::{strings_view, PlanView, StartupPlan};

verus! {

/// The pause between two liveness probes, in milliseconds.
pub const POLL_INTERVAL_MS: u64 = 250;

/// Where a daemon's startup stands.
#[derive(Debug, Clone, Copy, PartialEq, Eq, Structural)]
pub enum Phase {
    /// The network subdirectory is being created.
    CreatingNetworkDir,
    /// The wallet directory is being created.
    CreatingWalletDir,
    /// The configuration file is being written.
    WritingConfig,
    /// The daemon process is being spawned.
    Spawning,
    /// The RPC client is being built.
    Connecting,
    /// A `version` call probes whether the RPC interface answers.
    Polling,
    /// The probe failed; waiting before the next one.
    Pausing,
    /// The default wallet is being created.
    CreatingWallet,
    /// The default wallet is being loaded.
    LoadingWallet,
    /// The daemon is up, answers RPC calls and has its wallet loaded.
    Ready,
    /// The startup failed.
    Failed,
}

/// The outcome of the action that was asked for last.
#[derive(Debug)]
pub enum Event {
    /// The action succeeded.
    Succeeded,
    /// The action failed with this error.
    Failed(Error),
}

/// What the caller is asked to do next.
#[derive(Debug)]
pub enum Action {
    /// Create this directory and its missing parents.
    CreateDir(String),
    /// Write `contents` to the file at `path`.
    WriteFile { path: String, contents: String },
    /// Spawn the daemon executable with `args`, showing its output or not.
    Spawn { args: Vec<String>, view_stdout: bool },
    /// Build the RPC client for `url` with these credentials.
    Connect { url: String, user: String, password: String },
    /// Make the RPC call `method` with `params`, a JSON text.
    Call { method: String, params: String },
    /// Wait this many milliseconds.
    Sleep { millis: u64 },
    /// The startup is complete: hand out the daemon.
    Ready,
    /// Give up with `error`; first kill the daemon process when `kill_child`.
    Fail { error: Error, kill_child: bool },
    /// Wait until the daemon process exits and report its status.
    WaitForExit,
    /// Kill the daemon process without waiting for it.
    Kill,
    /// Nothing is left to do.
    Idle,
}

/// The mathematical content of an [`Action`].
pub enum ActionView {
    CreateDir(Seq<char>),
    WriteFile { path: Seq<char>, contents: Seq<char> },
    Spawn { args: Seq<Seq<char>>, view_stdout: bool },
    Connect { url: Seq<char>, user: Seq<char>, password: Seq<char> },
    Call { method: Seq<char>, params: Seq<char> },
    Sleep { millis: u64 },
    Ready,
    Fail { error: Error, kill_child: bool },
    WaitForExit,
    Kill,
    Idle,
}

impl View for Action {
    type V = ActionView;

    open spec fn view(&self) -> ActionView {
        match self {
            Action::CreateDir(p) => ActionView::CreateDir(p@),
            Action::WriteFile { path, contents } => ActionView::WriteFile { path: path@, contents: contents@ },
            Action::Spawn { args, view_stdout } => ActionView::Spawn { args: strings_view(args@), view_stdout: *view_stdout },
            Action::Connect { url, user, password } => ActionView::Connect { url: url@, user: user@, password: password@ },
            Action::Call { method, params } => ActionView::Call { method: method@, params: params@ },
            Action::Sleep { millis } => ActionView::Sleep { millis: *millis },
            Action::Ready => ActionView::Ready,
            Action::Fail { error, kill_child } => ActionView::Fail { error: *error, kill_child: *kill_child },
            Action::WaitForExit => ActionView::WaitForExit,
            Action::Kill => ActionView::Kill,
            Action::Idle => ActionView::Idle,
        }
    }
}

/// The phase that follows `phase` on `event`. A failed probe is retried
/// after a pause; any other failure ends the startup; `Ready` and `Failed`
/// are final.
pub open spec fn next_phase(phase: Phase, event: Event) -> Phase {
    match phase {
        Phase::Ready => Phase::Ready,
        Phase::Failed => Phase::Failed,
        Phase::Polling => if event is Succeeded { Phase::CreatingWallet } else { Phase::Pausing },
        Phase::Pausing => Phase::Polling,
        _ => if event is Failed {
            Phase::Failed
        } else {
            match phase {
                Phase::CreatingNetworkDir => Phase::CreatingWalletDir,
                Phase::CreatingWalletDir => Phase::WritingConfig,
                Phase::WritingConfig => Phase::Spawning,
                Phase::Spawning => Phase::Connecting,
                Phase::Connecting => Phase::Polling,
                Phase::CreatingWallet => Phase::LoadingWallet,
                _ => Phase::Ready,
            }
        },
    }
}

/// The daemon process runs while the startup stands in `phase`.
pub open spec fn child_spawned(phase: Phase) -> bool {
    match phase {
        Phase::Connecting | Phase::Polling | Phase::Pausing | Phase::CreatingWallet
        | Phase::LoadingWallet | Phase::Ready => true,
        _ => false,
    }
}

/// The action that asks for the work of `phase`, which is neither `Ready`
/// nor `Failed`.
pub open spec fn phase_action(plan: PlanView, phase: Phase) -> ActionView {
    match phase {
        Phase::CreatingNetworkDir => ActionView::CreateDir(plan.network_dir),
        Phase::CreatingWalletDir => ActionView::CreateDir(plan.wallet_dir),
        Phase::WritingConfig => ActionView::WriteFile { path: plan.config_path, contents: plan.config_text },
        Phase::Spawning => ActionView::Spawn { args: plan.args, view_stdout: plan.view_stdout },
        Phase::Connecting => ActionView::Connect {
            url: plan.client_url,
            user: plan.rpc_user,
            password: plan.rpc_password,
        },
        Phase::Polling => ActionView::Call { method: "version"@, params: "[]"@ },
        Phase::Pausing => ActionView::Sleep { millis: POLL_INTERVAL_MS },
        Phase::CreatingWallet => ActionView::Call { method: "create"@, params: "[]"@ },
        Phase::LoadingWallet => ActionView::Call { method: "load_wallet"@, params: plan.load_params },
        Phase::Ready => ActionView::Ready,
        Phase::Failed => ActionView::Idle,
    }
}

/// The action that follows `event` in `phase`: a failure that ends the
/// startup is reported, with the daemon process killed when it was
/// spawned; a final phase asks for nothing more; else the work of the next
/// phase is asked for.
pub open spec fn step_action(plan: PlanView, phase: Phase, event: Event) -> ActionView {
    if phase is Ready || phase is Failed {
        ActionView::Idle
    } else if next_phase(phase, event) is Failed {
        ActionView::Fail { error: event->Failed_0, kill_child: child_spawned(phase) }
    } else {
        phase_action(plan, next_phase(phase, event))
    }
}

/// The state machine that brings one daemon up: it asks for one action at a
/// time and is told how that action went.
pub struct Startup {
    plan: StartupPlan,
    phase: Phase,
}

impl Startup {
    /// The plan that the machine follows.
    pub closed spec fn plan_spec(&self) -> PlanView {
        self.plan@
    }

    /// Where the machine stands.
    pub closed spec fn phase_spec(&self) -> Phase {
        self.phase
    }

    /// Starts the machine on `plan`, with the first action.
    pub fn start(plan: StartupPlan) -> (r: (Startup, Action))
        ensures
            r.0.plan_spec() == plan@,
            r.0.phase_spec() == Phase::CreatingNetworkDir,
            r.1@ == phase_action(plan@, Phase::CreatingNetworkDir),
    {
        let machine = Startup { plan, phase: Phase::CreatingNetworkDir };
        let action = machine.action_of(Phase::CreatingNetworkDir);
        (machine, action)
    }

    /// The plan that the machine follows.
    pub fn plan(&self) -> (r: &StartupPlan)
        ensures
            r@ == self.plan_spec(),
    {
        &self.plan
    }

    /// Where the machine stands.
    pub fn phase(&self) -> (r: Phase)
        ensures
            r == self.phase_spec(),
    {
        self.phase
    }

    fn action_of(&self, phase: Phase) -> (r: Action)
        ensures
            r@ == phase_action(self.plan@, phase),
    {
        let plan = &self.plan;
        match phase {
            Phase::CreatingNetworkDir => Action::CreateDir(plan.network_dir.clone()),
            Phase::CreatingWalletDir => Action::CreateDir(plan.wallet_dir.clone()),
            Phase::WritingConfig => Action::WriteFile {
                path: plan.config_path.clone(),
                contents: plan.config_text.clone(),
            },
            Phase::Spawning => Action::Spawn { args: clone_strings(&plan.args), view_stdout: plan.view_stdout },
            Phase::Connecting => Action::Connect {
                url: plan.client_url.clone(),
                user: plan.rpc_user.clone(),
                password: plan.rpc_password.clone(),
            },
            Phase::Polling => Action::Call { method: String::from_str("version"), params: String::from_str("[]") },
            Phase::Pausing => Action::Sleep { millis: POLL_INTERVAL_MS },
            Phase::CreatingWallet => Action::Call { method: String::from_str("create"), params: String::from_str("[]") },
            Phase::LoadingWallet => Action::Call {
                method: String::from_str("load_wallet"),
                params: plan.load_params.clone(),
            },
            Phase::Ready => Action::Ready,
            Phase::Failed => Action::Idle,
        }
    }

    /// Tells the machine how the last action went and returns the next one.
    pub fn step(&mut self, event: Event) -> (r: Action)
        ensures
            final(self).plan_spec() == old(self).plan_spec(),
            final(self).phase_spec() == next_phase(old(self).phase_spec(), event),
            r@ == step_action(old(self).plan_spec(), old(self).phase_spec(), event),
    {
        let phase = self.phase;
        match phase {
            Phase::Ready | Phase::Failed => Action::Idle,
            Phase::Polling => {
                let next = match event {
                    Event::Succeeded => Phase::CreatingWallet,
                    Event::Failed(_) => Phase::Pausing,
                };
                self.phase = next;
                self.action_of(next)
            },
            Phase::Pausing => {
                self.phase = Phase::Polling;
                self.action_of(Phase::Polling)
            },
            _ => match event {
                Event::Failed(error) => {
                    self.phase = Phase::Failed;
                    let kill_child = match phase {
                        Phase::Connecting | Phase::CreatingWallet | Phase::LoadingWallet => true,
                        _ => false,
                    };
                    Action::Fail { error, kill_child }
                },
                Event::Succeeded => {
                    let next = match phase {
                        Phase::CreatingNetworkDir => Phase::CreatingWalletDir,
                        Phase::CreatingWalletDir => Phase::WritingConfig,
                        Phase::WritingConfig => Phase::Spawning,
                        Phase::Spawning => Phase::Connecting,
                        Phase::Connecting => Phase::Polling,
                        Phase::CreatingWallet => Phase::LoadingWallet,
                        _ => Phase::Ready,
                    };
                    self.phase = next;
                    self.action_of(next)
                },
            },
        }
    }
}

/// A copy of `v`, string by string.
pub fn clone_strings(v: &Vec<String>) -> (r: Vec<String>)
    ensures
        strings_view(r@) == strings_view(v@),
{
    let mut r: Vec<String> = Vec::new();
    let mut i: usize = 0;
    while i < v.len()
        invariant
            0 <= i <= v@.len(),
            strings_view(r@) =~= strings_view(v@.subrange(0, i as int)),
        decreases v@.len() - i,
    {
        let s = v[i].clone();
        let ghost before = r@;
        r.push(s);
        assert(strings_view(r@) =~= strings_view(before).push(s@));
        assert(strings_view(v@.subrange(0, i + 1)) =~= strings_view(v@.subrange(0, i as int)).push(v@[i as int]@));
        i += 1;
    }
    assert(v@.subrange(0, i as int) =~= v@);
    r
}

} // verus!
