//! Session launcher.
//!
//! Launching a session is a fixed protocol: create the start-up script,
//! allocate a pseudoterminal of the requested size, spawn the child shell
//! attached to the subordinate side, release the subordinate side in the
//! parent, and only then run the relay until the child exits. The launcher
//! is a state machine: the driving loop performs each returned action
//! against the operating system and reports what happened, and the machine
//! decides the next step. Every pre-spawn failure aborts the launch; in
//! particular no child is ever spawned once the start-up script failed, and
//! the relay never runs before the subordinate side has been released.

use vstd::prelude::*;

use crate::relay::RelayResult;
use crate::script::WrapRequest;
use vstd::string::StringExecFns;

verus! {

/// A pseudoterminal size in character cells; the pixel dimensions may be
/// zero, signaling "unknown".
#[derive(Clone, Copy, Debug, PartialEq, Eq, Structural)]
pub struct TermSize {
    pub rows: u16,
    pub cols: u16,
    pub pixel_width: u16,
    pub pixel_height: u16,
}

/// Everything a session launch needs: the shell to spawn, the prompt
/// literal that makes the sandboxed shell visually identifiable, an
/// optional command-wrap request, an optional transcript file path, and the
/// terminal size.
pub struct SessionConfig {
    pub shell: String,
    pub prompt: String,
    /// Further variables to set in the child's environment, beyond the
    /// prompt variable itself.
    pub env_overrides: Vec<(String, String)>,
    pub wrap: Option<WrapRequest>,
    pub transcript_path: Option<String>,
    pub size: TermSize,
}

impl SessionConfig {
    /// Whether a transcript sink is configured.
    pub open spec fn transcript_enabled(self) -> bool {
        self.transcript_path is Some
    }
}

/// A fatal launch failure; each variant carries the underlying cause.
pub enum LaunchError {
    /// The OS could not allocate a pseudoterminal.
    PtyAllocationError(String),
    /// The shell binary could not be located or exec'd.
    SpawnError(String),
    /// The transient start-up script could not be created or written.
    StartupScriptError(String),
}

/// What the driving loop observed after performing the last action.
pub enum LaunchEvent {
    Begin,
    ScriptReady,
    ScriptFailed(String),
    PtyReady,
    PtyFailed(String),
    SpawnOk,
    SpawnFailed(String),
    SubordinateClosed,
    /// The child exited; true when its exit status could be retrieved.
    ChildExited(bool),
}

/// What the driving loop must do next.
pub enum LaunchAction {
    /// Generate and persist the start-up script.
    CreateScript,
    /// Allocate a pseudoterminal of the given size.
    OpenPty(TermSize),
    /// Spawn the child shell attached to the subordinate side.
    SpawnChild,
    /// Release the parent's handle on the subordinate side.
    CloseSubordinate,
    /// Run both relay directions; true when a transcript is configured.
    RunRelay(bool),
    /// The session is over with this result.
    Finish(RelayResult),
    /// Abort the launch with this error.
    Fail(LaunchError),
    /// The event does not belong to the current phase; nothing changes.
    NoStep,
}

/// Where the protocol stands.
#[derive(Clone, Copy, Debug, PartialEq, Eq, Structural)]
pub enum LaunchPhase {
    Idle,
    ScriptPending,
    PtyPending,
    SpawnPending,
    ReleasePending,
    Relaying,
    Finished,
    Failed,
}

/// Which events belong to which phase.
pub open spec fn fits(phase: LaunchPhase, ev: LaunchEvent) -> bool {
    match (phase, ev) {
        (LaunchPhase::Idle, LaunchEvent::Begin) => true,
        (LaunchPhase::ScriptPending, LaunchEvent::ScriptReady) => true,
        (LaunchPhase::ScriptPending, LaunchEvent::ScriptFailed(_)) => true,
        (LaunchPhase::PtyPending, LaunchEvent::PtyReady) => true,
        (LaunchPhase::PtyPending, LaunchEvent::PtyFailed(_)) => true,
        (LaunchPhase::SpawnPending, LaunchEvent::SpawnOk) => true,
        (LaunchPhase::SpawnPending, LaunchEvent::SpawnFailed(_)) => true,
        (LaunchPhase::ReleasePending, LaunchEvent::SubordinateClosed) => true,
        (LaunchPhase::Relaying, LaunchEvent::ChildExited(_)) => true,
        _ => false,
    }
}

/// The launch protocol's state: the configuration, the phase, and a ghost
/// record of the protocol-ordering facts that the laws below state.
pub struct Launcher {
    pub config: SessionConfig,
    pub phase: LaunchPhase,
    /// The start-up script was created and persisted successfully.
    pub script_ok: Ghost<bool>,
    /// A child spawn has been requested.
    pub spawn_requested: Ghost<bool>,
    /// The parent has released the subordinate side.
    pub subordinate_closed: Ghost<bool>,
}

impl Launcher {
    /// The protocol's invariant: a spawn is requested only after the script
    /// succeeded, the relay runs only after the spawn, and the subordinate
    /// side is released before the relay runs.
    pub open spec fn wf(self) -> bool {
        &&& (self.phase is PtyPending || self.phase is SpawnPending || self.phase
            is ReleasePending || self.phase is Relaying || self.phase is Finished)
            ==> self.script_ok@
        &&& self.spawn_requested@ ==> self.script_ok@
        &&& (self.phase is SpawnPending || self.phase is ReleasePending || self.phase is Relaying
            || self.phase is Finished) ==> self.spawn_requested@
        &&& (self.phase is Relaying || self.phase is Finished) ==> self.subordinate_closed@
        &&& self.subordinate_closed@ ==> self.spawn_requested@
        &&& (self.phase is Idle || self.phase is ScriptPending) ==> (!self.spawn_requested@
            && !self.subordinate_closed@ && !self.script_ok@)
    }

    /// A launcher about to start, with nothing done yet.
    pub fn new(config: SessionConfig) -> (l: Launcher)
        ensures
            l.wf(),
            l.config == config,
            l.phase is Idle,
            !l.script_ok@,
            !l.spawn_requested@,
            !l.subordinate_closed@,
    {
        Launcher {
            config,
            phase: LaunchPhase::Idle,
            script_ok: Ghost(false),
            spawn_requested: Ghost(false),
            subordinate_closed: Ghost(false),
        }
    }

    /// One protocol step: given what the driving loop observed, move to the
    /// next phase and say what to do. Every pre-spawn failure moves to
    /// `Failed` with the matching error and its cause; an event that does
    /// not belong to the current phase changes nothing.
    pub fn step(&mut self, ev: LaunchEvent) -> (act: LaunchAction)
        requires
            old(self).wf(),
        ensures
            final(self).wf(),
            final(self).config == old(self).config,
            final(self).script_ok@ == (old(self).script_ok@ || (old(self).phase is ScriptPending
                && ev is ScriptReady)),
            final(self).spawn_requested@ == (old(self).spawn_requested@ || (old(self).phase
                is PtyPending && ev is PtyReady)),
            final(self).subordinate_closed@ == (old(self).subordinate_closed@ || (old(self).phase
                is ReleasePending && ev is SubordinateClosed)),
            (old(self).phase is Idle && ev is Begin) ==> {
                &&& final(self).phase is ScriptPending
                &&& act is CreateScript
            },
            (old(self).phase is ScriptPending && ev is ScriptReady) ==> {
                &&& final(self).phase is PtyPending
                &&& act matches LaunchAction::OpenPty(sz) && sz == old(self).config.size
            },
            old(self).phase is ScriptPending ==> (ev matches LaunchEvent::ScriptFailed(m) ==> {
                &&& final(self).phase is Failed
                &&& act matches LaunchAction::Fail(LaunchError::StartupScriptError(m2)) && m2 == m
            }),
            (old(self).phase is PtyPending && ev is PtyReady) ==> {
                &&& final(self).phase is SpawnPending
                &&& act is SpawnChild
            },
            old(self).phase is PtyPending ==> (ev matches LaunchEvent::PtyFailed(m) ==> {
                &&& final(self).phase is Failed
                &&& act matches LaunchAction::Fail(LaunchError::PtyAllocationError(m2)) && m2 == m
            }),
            (old(self).phase is SpawnPending && ev is SpawnOk) ==> {
                &&& final(self).phase is ReleasePending
                &&& act is CloseSubordinate
            },
            old(self).phase is SpawnPending ==> (ev matches LaunchEvent::SpawnFailed(m) ==> {
                &&& final(self).phase is Failed
                &&& act matches LaunchAction::Fail(LaunchError::SpawnError(m2)) && m2 == m
            }),
            (old(self).phase is ReleasePending && ev is SubordinateClosed) ==> {
                &&& final(self).phase is Relaying
                &&& act matches LaunchAction::RunRelay(t) && t == old(
                    self,
                ).config.transcript_enabled()
            },
            old(self).phase is Relaying ==> (ev matches LaunchEvent::ChildExited(ok) ==> {
                &&& final(self).phase is Finished
                &&& act matches LaunchAction::Finish(res) && res == (if ok {
                    RelayResult::Completed
                } else {
                    RelayResult::ChildWaitError
                })
            }),
            !fits(old(self).phase, ev) ==> (act is NoStep && *final(self) == *old(self)),
    {
        match (self.phase, ev) {
            (LaunchPhase::Idle, LaunchEvent::Begin) => {
                self.phase = LaunchPhase::ScriptPending;
                LaunchAction::CreateScript
            },
            (LaunchPhase::ScriptPending, LaunchEvent::ScriptReady) => {
                self.phase = LaunchPhase::PtyPending;
                proof {
                    self.script_ok@ = true;
                }
                LaunchAction::OpenPty(self.config.size)
            },
            (LaunchPhase::ScriptPending, LaunchEvent::ScriptFailed(m)) => {
                self.phase = LaunchPhase::Failed;
                LaunchAction::Fail(LaunchError::StartupScriptError(m))
            },
            (LaunchPhase::PtyPending, LaunchEvent::PtyReady) => {
                self.phase = LaunchPhase::SpawnPending;
                proof {
                    self.spawn_requested@ = true;
                }
                LaunchAction::SpawnChild
            },
            (LaunchPhase::PtyPending, LaunchEvent::PtyFailed(m)) => {
                self.phase = LaunchPhase::Failed;
                LaunchAction::Fail(LaunchError::PtyAllocationError(m))
            },
            (LaunchPhase::SpawnPending, LaunchEvent::SpawnOk) => {
                self.phase = LaunchPhase::ReleasePending;
                LaunchAction::CloseSubordinate
            },
            (LaunchPhase::SpawnPending, LaunchEvent::SpawnFailed(m)) => {
                self.phase = LaunchPhase::Failed;
                LaunchAction::Fail(LaunchError::SpawnError(m))
            },
            (LaunchPhase::ReleasePending, LaunchEvent::SubordinateClosed) => {
                self.phase = LaunchPhase::Relaying;
                proof {
                    self.subordinate_closed@ = true;
                }
                let transcript = match &self.config.transcript_path {
                    Some(_) => true,
                    None => false,
                };
                LaunchAction::RunRelay(transcript)
            },
            (LaunchPhase::Relaying, LaunchEvent::ChildExited(ok)) => {
                self.phase = LaunchPhase::Finished;
                if ok {
                    LaunchAction::Finish(RelayResult::Completed)
                } else {
                    LaunchAction::Finish(RelayResult::ChildWaitError)
                }
            },
            (_, _) => LaunchAction::NoStep,
        }
    }
}

/// Pre-spawn failures abort the whole launch: a launch whose start-up
/// script was never created successfully has never requested a child
/// spawn, in any reachable state.
pub proof fn lemma_script_failure_precludes_spawn(l: Launcher)
    requires
        l.wf(),
        !l.script_ok@,
    ensures
        !l.spawn_requested@,
{
}

/// Resource release: by the time the relay runs — and hence by the time the
/// child's exit is observed — the parent has released the subordinate-side
/// descriptor, so the controlling-side read observes end-of-stream when the
/// child and its descendants exit.
pub proof fn lemma_subordinate_released_before_relay(l: Launcher)
    requires
        l.wf(),
        l.phase is Relaying || l.phase is Finished,
    ensures
        l.subordinate_closed@,
{
}

/// The default session: the platform shell with the distinguishing sandbox
/// prompt on a standard-size terminal, a transcript exactly when a
/// transcript path is configured, and the editor command wrapped for
/// invocation logging exactly when a log path is configured.
pub fn default_session_config(
    transcript_path: Option<String>,
    wrap_log_path: Option<String>,
) -> (c: SessionConfig)
    ensures
        c.shell@ == ("bash")@,
        c.prompt@ == ("(kubelingo-sandbox)$ ")@,
        c.size == (TermSize { rows: 24, cols: 80, pixel_width: 0, pixel_height: 0 }),
        c.transcript_path == transcript_path,
        wrap_log_path matches Some(l) ==> (c.wrap matches Some(w) && w.command@ == ("vim")@
            && w.log_path == l),
        wrap_log_path is None ==> c.wrap is None,
        c.env_overrides@.len() == 0,
{
    let wrap = match wrap_log_path {
        Some(l) => Some(WrapRequest { command: String::from_str("vim"), log_path: l }),
        None => None,
    };
    SessionConfig {
        shell: String::from_str("bash"),
        prompt: String::from_str("(kubelingo-sandbox)$ "),
        env_overrides: Vec::new(),
        wrap,
        transcript_path,
        size: TermSize { rows: 24, cols: 80, pixel_width: 0, pixel_height: 0 },
    }
}

/// The child's invocation: program, argument vector, and environment
/// overrides, ready for the driving loop to hand to the spawner.
pub struct LaunchPlan {
    pub program: String,
    pub args: Vec<String>,
    pub env: Vec<(String, String)>,
    pub size: TermSize,
}

/// Build the child's invocation: the configured shell, told to read the
/// generated start-up script as its rc file, with the distinguishing prompt
/// variable and the requested overrides set in the child's environment —
/// never the parent's — and the configured terminal size.
pub fn build_launch_plan(config: &SessionConfig, script_path: &str) -> (p: LaunchPlan)
    ensures
        p.program@ == config.shell@,
        p.args@.len() == 2,
        p.args@[0]@ == ("--rcfile")@,
        p.args@[1]@ == script_path@,
        p.env@.len() == 1 + config.env_overrides@.len(),
        p.env@[0].0@ == ("PS1")@,
        p.env@[0].1@ == config.prompt@,
        forall|i: int|
            0 <= i < config.env_overrides@.len() ==> p.env@[i + 1] == config.env_overrides@[i],
        p.size == config.size,
{
    let mut args: Vec<String> = Vec::new();
    args.push(String::from_str("--rcfile"));
    args.push(String::from_str(script_path));
    let mut env: Vec<(String, String)> = Vec::new();
    env.push((String::from_str("PS1"), config.prompt.clone()));
    let mut i: usize = 0;
    while i < config.env_overrides.len()
        invariant
            i <= config.env_overrides@.len(),
            env@.len() == 1 + i,
            env@[0].0@ == ("PS1")@,
            env@[0].1@ == config.prompt@,
            forall|k: int| 0 <= k < i ==> env@[k + 1] == config.env_overrides@[k],
        decreases config.env_overrides@.len() - i,
    {
        let (key, value) = (&config.env_overrides[i].0, &config.env_overrides[i].1);
        env.push((key.clone(), value.clone()));
        i += 1;
    }
    LaunchPlan { program: config.shell.clone(), args, env, size: config.size }
}

} // verus!
