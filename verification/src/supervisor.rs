//! Ownership of the one supervised child process, from startup to shutdown,
//! and what the child is started with.

use vstd::prelude::*;
use crate::command::{CommandInvocation, InvocationView};
use crate::text::{text_pairs, texts};

verus! {

/// The environment variable whose presence selects development mode.
pub const DEV_MODE_VARIABLE: &'static str = "TAURI_DEV";

/// The label of the window whose closing ends supervision.
pub const MAIN_WINDOW: &'static str = "main";

/// Where the supervisor stands in its life.
#[derive(Clone, Copy, Debug, PartialEq, Eq, Structural)]
pub enum Phase {
    /// Nothing has been started and no child is tracked.
    Idle,
    /// A spawn was asked for and its result is awaited.
    Starting,
    /// The child's handle is stored.
    Running,
    /// A server was reachable at startup already; it is not ours.
    External,
    /// Shutdown has run.
    Stopped,
}

/// What startup has to do.
#[derive(Clone, Copy, Debug, PartialEq, Eq, Structural)]
pub enum StartDecision {
    /// A server answers already: spawn nothing.
    AlreadyRunning,
    /// Locate the project, resolve the command and spawn the child.
    Launch,
    /// Startup has run before: nothing to do.
    Nothing,
}

/// The mathematical state of a supervisor over handles of type `H`.
pub struct SupervisorState<H> {
    pub phase: Phase,
    pub child: Option<H>,
}

impl<H> SupervisorState<H> {
    /// A handle is held exactly while the supervisor runs a child of its own.
    pub open spec fn wf(self) -> bool {
        self.child is Some <==> self.phase == Phase::Running
    }

    /// The state before anything has happened.
    pub open spec fn initial() -> Self {
        SupervisorState { phase: Phase::Idle, child: None }
    }

    /// Startup, given whether the server's endpoint answered. Only an idle
    /// supervisor starts anything, and only where nothing answered.
    pub open spec fn ensure_started(self, reachable: bool) -> (Self, StartDecision) {
        if self.phase != Phase::Idle {
            (self, StartDecision::Nothing)
        } else if reachable {
            (SupervisorState { phase: Phase::External, ..self }, StartDecision::AlreadyRunning)
        } else {
            (SupervisorState { phase: Phase::Starting, ..self }, StartDecision::Launch)
        }
    }

    /// The spawn that was asked for gave `handle`. A supervisor that awaits
    /// no spawn does not take it and hands it back.
    pub open spec fn child_spawned(self, handle: H) -> (Self, Option<H>) {
        if self.phase == Phase::Starting {
            (SupervisorState { phase: Phase::Running, child: Some(handle) }, None)
        } else {
            (self, Some(handle))
        }
    }

    /// The spawn that was asked for failed: the supervisor is idle again.
    pub open spec fn spawn_failed(self) -> Self {
        if self.phase == Phase::Starting {
            SupervisorState { phase: Phase::Idle, ..self }
        } else {
            self
        }
    }

    /// Shutdown: the handle that was held, if any, is handed out to be
    /// terminated, and none is held afterwards.
    pub open spec fn shutdown(self) -> (Self, Option<H>) {
        (SupervisorState { phase: Phase::Stopped, child: None }, self.child)
    }
}

/// Tracks at most one child process handle.
pub struct Supervisor<H> {
    phase: Phase,
    child: Option<H>,
}

impl<H> View for Supervisor<H> {
    type V = SupervisorState<H>;

    closed spec fn view(&self) -> SupervisorState<H> {
        SupervisorState { phase: self.phase, child: self.child }
    }
}

impl<H> Supervisor<H> {
    #[verifier::type_invariant]
    closed spec fn inv(self) -> bool {
        self@.wf()
    }

    /// A supervisor that has started nothing.
    pub fn new() -> (supervisor: Self)
        ensures
            supervisor@ == SupervisorState::<H>::initial(),
            supervisor@.wf(),
    {
        Supervisor { phase: Phase::Idle, child: None }
    }

    /// Where the supervisor stands.
    pub fn phase(&self) -> (phase: Phase)
        ensures
            phase == self@.phase,
            self@.wf(),
    {
        proof {
            use_type_invariant(self);
        }
        self.phase
    }

    /// Whether a child's handle is held.
    pub fn has_child(&self) -> (held: bool)
        ensures
            held == (self@.child is Some),
            held == (self@.phase == Phase::Running),
    {
        proof {
            use_type_invariant(self);
        }
        self.child.is_some()
    }

    /// Decides what startup does, given whether the endpoint answered. Where
    /// it answered, nothing is spawned.
    pub fn ensure_started(&mut self, reachable: bool) -> (decision: StartDecision)
        ensures
            (final(self)@, decision) == old(self)@.ensure_started(reachable),
            final(self)@.wf(),
            reachable ==> decision != StartDecision::Launch,
            old(self)@.phase != Phase::Idle ==> decision == StartDecision::Nothing,
            final(self)@.child == old(self)@.child,
    {
        proof {
            use_type_invariant(&*self);
        }
        match self.phase {
            Phase::Idle => {
                if reachable {
                    self.phase = Phase::External;
                    StartDecision::AlreadyRunning
                } else {
                    self.phase = Phase::Starting;
                    StartDecision::Launch
                }
            },
            _ => StartDecision::Nothing,
        }
    }

    /// Stores the handle that the spawn gave. Returns `None` where it was
    /// stored, and the handle itself where no spawn was awaited.
    pub fn child_spawned(&mut self, handle: H) -> (refused: Option<H>)
        ensures
            (final(self)@, refused) == old(self)@.child_spawned(handle),
            final(self)@.wf(),
    {
        proof {
            use_type_invariant(&*self);
        }
        match self.phase {
            Phase::Starting => {
                *self = Supervisor { phase: Phase::Running, child: Some(handle) };
                None
            },
            _ => Some(handle),
        }
    }

    /// Notes that the spawn failed: no handle is stored and the supervisor is
    /// idle again.
    pub fn spawn_failed(&mut self)
        ensures
            final(self)@ == old(self)@.spawn_failed(),
            final(self)@.wf(),
    {
        proof {
            use_type_invariant(&*self);
        }
        match self.phase {
            Phase::Starting => {
                self.phase = Phase::Idle;
            },
            _ => {},
        }
    }
}

/// Ends supervision: returns the child to terminate, if one is held, and
/// leaves the supervisor without a handle. A second call finds none.
pub fn shutdown_server<H>(supervisor: &mut Supervisor<H>) -> (child: Option<H>)
    ensures
        (final(supervisor)@, child) == old(supervisor)@.shutdown(),
        final(supervisor)@.wf(),
        final(supervisor)@.child is None,
        final(supervisor)@.phase == Phase::Stopped,
        child == old(supervisor)@.child,
{
    let mut held = Supervisor { phase: Phase::Stopped, child: None };
    core::mem::swap(supervisor, &mut held);
    held.child
}

/// Every step leaves a well-formed supervisor well formed: at every moment
/// at most one handle is held, and only for a child that the supervisor
/// spawned itself.
pub proof fn lemma_steps_keep_supervisor_well_formed<H>(
    state: SupervisorState<H>,
    reachable: bool,
    handle: H,
)
    requires
        state.wf(),
    ensures
        SupervisorState::<H>::initial().wf(),
        state.ensure_started(reachable).0.wf(),
        state.child_spawned(handle).0.wf(),
        state.spawn_failed().wf(),
        state.shutdown().0.wf(),
{
}

/// Shutdown is idempotent: a second shutdown right after the first hands
/// out nothing and leaves the state as the first left it.
pub proof fn lemma_shutdown_is_idempotent<H>(state: SupervisorState<H>)
    ensures
        state.shutdown().0.child is None,
        state.shutdown().0.shutdown() == (state.shutdown().0, None::<H>),
{
}

/// Where the endpoint answers at startup, nothing is spawned: no launch is
/// decided on, no spawn comes to be awaited and no handle comes to be held.
pub proof fn lemma_no_spawn_when_reachable<H>(state: SupervisorState<H>)
    ensures
        state.ensure_started(true).1 != StartDecision::Launch,
        state.ensure_started(true).0.child == state.child,
        state.phase != Phase::Starting ==> state.ensure_started(true).0.phase != Phase::Starting,
{
}

/// A spawn is asked for only by an idle supervisor, and a supervisor that
/// has asked for one, holds a child or has shut down asks for no other.
pub proof fn lemma_single_child<H>(state: SupervisorState<H>, reachable: bool)
    requires
        state.wf(),
    ensures
        state.ensure_started(reachable).1 == StartDecision::Launch ==> state.phase == Phase::Idle
            && state.child is None,
        state.ensure_started(reachable).1 == StartDecision::Launch ==> state.ensure_started(
            reachable,
        ).0.ensure_started(reachable).1 == StartDecision::Nothing,
        state.child is Some ==> state.ensure_started(reachable).1 == StartDecision::Nothing,
{
}

/// Whether the server runs for development or for production.
#[derive(Clone, Copy, Debug, PartialEq, Eq, Structural)]
pub enum RunMode {
    Development,
    Production,
}

/// Development mode is in force where the environment flag is set or the
/// shell itself is a debug build.
pub open spec fn run_mode_of(dev_flag_set: bool, debug_build: bool) -> RunMode {
    if dev_flag_set || debug_build {
        RunMode::Development
    } else {
        RunMode::Production
    }
}

/// The tool's command that selects a mode.
pub open spec fn mode_command_of(mode: RunMode) -> Seq<char> {
    match mode {
        RunMode::Development => "dev"@,
        RunMode::Production => "start"@,
    }
}

/// What the child's arguments are: the invocation's prefix, the flag that
/// switches emoji output off, and the mode's command.
pub open spec fn launch_arguments_of(prefix: Seq<Seq<char>>, mode: RunMode) -> Seq<Seq<char>> {
    prefix + seq!["--no-emoji"@, mode_command_of(mode)]
}

/// The variables set on the child: local-server mode on, update checks,
/// delegation and coloured output off.
pub open spec fn child_environment_of() -> Seq<(Seq<char>, Seq<char>)> {
    seq![
        ("ELIZA_USE_LOCAL_SERVER"@, "true"@),
        ("CI"@, "true"@),
        ("NO_UPDATE_CHECK"@, "1"@),
        ("ELIZA_TEST_MODE"@, "true"@),
        ("ELIZA_CLI_TEST_MODE"@, "true"@),
        ("ELIZA_SKIP_LOCAL_CLI_DELEGATION"@, "true"@),
        ("npm_config_update_notifier"@, "false"@),
        ("NO_COLOR"@, "true"@),
    ]
}

/// Everything that the child is spawned with.
pub struct LaunchPlan<D> {
    pub program: &'static str,
    pub arguments: Vec<&'static str>,
    /// The project directory, where one was found; else the child inherits
    /// the shell's.
    pub working_directory: Option<D>,
    pub environment: Vec<(&'static str, &'static str)>,
}

/// A launch plan as plain values.
pub struct LaunchPlanView<D> {
    pub program: Seq<char>,
    pub arguments: Seq<Seq<char>>,
    pub working_directory: Option<D>,
    pub environment: Seq<(Seq<char>, Seq<char>)>,
}

impl<D> View for LaunchPlan<D> {
    type V = LaunchPlanView<D>;

    open spec fn view(&self) -> LaunchPlanView<D> {
        LaunchPlanView {
            program: self.program@,
            arguments: texts(self.arguments@),
            working_directory: self.working_directory,
            environment: text_pairs(self.environment@),
        }
    }
}

/// The plan that an invocation, a mode and a project directory give.
pub open spec fn launch_plan_of<D>(
    invocation: InvocationView,
    mode: RunMode,
    project_directory: Option<D>,
) -> LaunchPlanView<D> {
    LaunchPlanView {
        program: invocation.program,
        arguments: launch_arguments_of(invocation.prefix, mode),
        working_directory: project_directory,
        environment: child_environment_of(),
    }
}

/// Determines the mode from the environment flag and the build's kind.
pub fn run_mode(dev_flag_set: bool, debug_build: bool) -> (mode: RunMode)
    ensures
        mode == run_mode_of(dev_flag_set, debug_build),
{
    if dev_flag_set || debug_build {
        RunMode::Development
    } else {
        RunMode::Production
    }
}

/// The tool's command that selects `mode`.
pub fn mode_command(mode: RunMode) -> (command: &'static str)
    ensures
        command@ == mode_command_of(mode),
{
    match mode {
        RunMode::Development => "dev",
        RunMode::Production => "start",
    }
}

/// The variables set on the child, in the order in which they are set.
pub fn child_environment() -> (environment: Vec<(&'static str, &'static str)>)
    ensures
        text_pairs(environment@) == child_environment_of(),
{
    let environment = vec![
        ("ELIZA_USE_LOCAL_SERVER", "true"),
        ("CI", "true"),
        ("NO_UPDATE_CHECK", "1"),
        ("ELIZA_TEST_MODE", "true"),
        ("ELIZA_CLI_TEST_MODE", "true"),
        ("ELIZA_SKIP_LOCAL_CLI_DELEGATION", "true"),
        ("npm_config_update_notifier", "false"),
        ("NO_COLOR", "true"),
    ];
    assert(text_pairs(environment@) =~= child_environment_of());
    environment
}

/// Builds what the child is spawned with.
pub fn launch_plan<D>(
    invocation: CommandInvocation,
    mode: RunMode,
    project_directory: Option<D>,
) -> (plan: LaunchPlan<D>)
    ensures
        plan@ == launch_plan_of(invocation@, mode, project_directory),
{
    let program = invocation.program;
    let mut arguments = invocation.prefix;
    let ghost prefix = texts(arguments@);
    arguments.push("--no-emoji");
    arguments.push(mode_command(mode));
    assert(texts(arguments@) =~= launch_arguments_of(prefix, mode));
    LaunchPlan {
        program,
        arguments,
        working_directory: project_directory,
        environment: child_environment(),
    }
}

/// What the host framework tells the supervisor.
#[derive(Clone, Copy, Debug, PartialEq, Eq, Structural)]
pub enum HostEvent {
    /// The main window was asked to close.
    WindowCloseRequested,
    /// The application exits for good.
    Exit,
    /// Anything else.
    Other,
}

/// Both exit notifications end supervision, and nothing else does.
pub open spec fn calls_for_shutdown(event: HostEvent) -> bool {
    event == HostEvent::WindowCloseRequested || event == HostEvent::Exit
}

/// Handles a notification of the host framework: on either exit
/// notification the supervisor shuts down and the child to terminate, if
/// any, is returned; anything else leaves the supervisor as it is.
pub fn on_host_event<H>(supervisor: &mut Supervisor<H>, event: HostEvent) -> (child: Option<H>)
    ensures
        calls_for_shutdown(event) ==> (final(supervisor)@, child) == old(supervisor)@.shutdown(),
        !calls_for_shutdown(event) ==> final(supervisor)@ == old(supervisor)@ && child is None,
        final(supervisor)@.wf(),
{
    proof {
        use_type_invariant(&*supervisor);
    }
    match event {
        HostEvent::WindowCloseRequested | HostEvent::Exit => shutdown_server(supervisor),
        HostEvent::Other => None,
    }
}

} // verus!
