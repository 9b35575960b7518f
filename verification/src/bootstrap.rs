//! The container bootstrap as a linear state machine.
//!
//! Once the root directory is populated, the process stages the target
//! executable into it, unshares the PID namespace, chroots, and execs. Each
//! step is irreversible and each failure is fatal: the machine only ever
//! walks forward, and after isolation succeeds only the exec-and-wait path
//! remains. As with the pull, the library decides and a thin driver performs
//! the I/O and the system calls.

use vstd::prelude::*;

use crate::errors::PullError;

verus! {

/// The command the container runs: an absolute executable path and its
/// arguments, forwarded verbatim.
pub struct CommandSpec {
    pub executable_path: String,
    pub args: Vec<String>,
}

/// The view of a command: path and arguments as character sequences.
pub struct CommandView {
    pub executable_path: Seq<char>,
    pub args: Seq<Seq<char>>,
}

impl View for CommandSpec {
    type V = CommandView;

    open spec fn view(&self) -> CommandView {
        CommandView { executable_path: self.executable_path@, args: self.args.deep_view() }
    }
}

/// Where the bootstrap stands. The phases form a line: no transition ever
/// moves backwards, and `Finished` and `Aborted` are terminal.
#[derive(Clone, Copy, Debug, PartialEq, Eq, Structural)]
pub enum BootPhase {
    /// Creating the scratch root and its required subpaths.
    Preparing,
    /// Populating the root by pulling the image.
    Pulling,
    /// Copying the executable into the root.
    Staging,
    /// Unsharing the PID namespace.
    Unsharing,
    /// Changing the process root to the scratch directory.
    Chrooting,
    /// The command is running; waiting for it to exit.
    Running,
    /// The command exited; the host exits with the same code.
    Finished { code: i32 },
    /// A step failed; the host reports the error and exits non-zero.
    Aborted { error: PullError },
}

/// One bootstrap in progress.
pub struct BootSession {
    pub root: String,
    pub command: CommandSpec,
    pub phase: BootPhase,
}

/// What the driver is asked to do next.
pub enum BootAction {
    /// Create the scratch root's required subpaths.
    PrepareRoot,
    /// Populate the root: run the whole pull against it.
    RunPull,
    /// Copy `source` to `destination` (the same path relocated under the
    /// new root).
    StageExecutable { source: String, destination: String },
    /// Unshare the PID namespace, so the command becomes PID 1.
    UnsharePidNamespace,
    /// Change the process root to the scratch directory.
    ChangeRoot,
    /// Spawn the staged executable with the caller's arguments, streams
    /// inherited, and wait for it.
    Exec { path: String, args: Vec<String> },
    /// Report this fatal error and exit non-zero.
    Report { error: PullError },
    /// Exit with the command's own exit code.
    ExitWith { code: i32 },
}

/// The view of a bootstrap action.
pub enum BootActionView {
    PrepareRoot,
    RunPull,
    StageExecutable { source: Seq<char>, destination: Seq<char> },
    UnsharePidNamespace,
    ChangeRoot,
    Exec { path: Seq<char>, args: Seq<Seq<char>> },
    Report { error: PullError },
    ExitWith { code: i32 },
}

impl View for BootAction {
    type V = BootActionView;

    open spec fn view(&self) -> BootActionView {
        match self {
            BootAction::PrepareRoot => BootActionView::PrepareRoot,
            BootAction::RunPull => BootActionView::RunPull,
            BootAction::StageExecutable { source, destination } => {
                BootActionView::StageExecutable { source: source@, destination: destination@ }
            },
            BootAction::UnsharePidNamespace => BootActionView::UnsharePidNamespace,
            BootAction::ChangeRoot => BootActionView::ChangeRoot,
            BootAction::Exec { path, args } => BootActionView::Exec {
                path: path@,
                args: args.deep_view(),
            },
            BootAction::Report { error } => BootActionView::Report { error: *error },
            BootAction::ExitWith { code } => BootActionView::ExitWith { code: *code },
        }
    }
}

/// What the driver reports back: the outcome of the last action.
#[derive(Clone, Copy, Debug, PartialEq, Eq, Structural)]
pub enum BootEvent {
    /// The step succeeded.
    Succeeded,
    /// The step failed.
    Failed,
    /// The pull failed with this error.
    PullFailed { error: PullError },
    /// The command exited; `code` is `None` when it was terminated by a
    /// signal and no exit code exists.
    ChildExited { code: Option<i32> },
    /// The command could not be spawned.
    SpawnFailed,
}

/// Which events can answer which phase.
pub open spec fn boot_event_fits(phase: BootPhase, e: BootEvent) -> bool {
    match phase {
        BootPhase::Preparing => e is Succeeded || e is Failed,
        BootPhase::Pulling => e is Succeeded || e is PullFailed,
        BootPhase::Staging => e is Succeeded || e is Failed,
        BootPhase::Unsharing => e is Succeeded || e is Failed,
        BootPhase::Chrooting => e is Succeeded || e is Failed,
        BootPhase::Running => e is ChildExited || e is SpawnFailed,
        BootPhase::Finished { .. } => false,
        BootPhase::Aborted { .. } => false,
    }
}

/// Where the executable lands inside the new root: the root directory with
/// the absolute source path appended.
pub open spec fn staged_path_spec(root: Seq<char>, exe: Seq<char>) -> Seq<char> {
    root + exe
}

/// An aborted bootstrap: the phase records the error and the driver is told
/// to report it.
pub open spec fn boot_fail_view(e: PullError) -> (BootPhase, BootActionView) {
    (BootPhase::Aborted { error: e }, BootActionView::Report { error: e })
}

/// The exit code the host propagates: the command's own, or 1 when the
/// command was terminated by a signal and no code exists.
pub open spec fn propagated_exit_code(code: Option<i32>) -> i32 {
    match code {
        Some(c) => c,
        None => 1,
    }
}

/// The transition function of the bootstrap: from a phase and the event
/// answering it, the next phase and the next action.
pub open spec fn boot_step_view(root: Seq<char>, cmd: CommandView, phase: BootPhase, e: BootEvent) -> (
    BootPhase,
    BootActionView,
)
    recommends
        boot_event_fits(phase, e),
{
    match (phase, e) {
        (BootPhase::Preparing, BootEvent::Succeeded) => (BootPhase::Pulling, BootActionView::RunPull),
        (BootPhase::Preparing, BootEvent::Failed) => boot_fail_view(PullError::Stage),
        (BootPhase::Pulling, BootEvent::Succeeded) => (
            BootPhase::Staging,
            BootActionView::StageExecutable {
                source: cmd.executable_path,
                destination: staged_path_spec(root, cmd.executable_path),
            },
        ),
        (BootPhase::Pulling, BootEvent::PullFailed { error }) => boot_fail_view(error),
        (BootPhase::Staging, BootEvent::Succeeded) => (
            BootPhase::Unsharing,
            BootActionView::UnsharePidNamespace,
        ),
        (BootPhase::Staging, BootEvent::Failed) => boot_fail_view(PullError::Stage),
        (BootPhase::Unsharing, BootEvent::Succeeded) => (
            BootPhase::Chrooting,
            BootActionView::ChangeRoot,
        ),
        (BootPhase::Unsharing, BootEvent::Failed) => boot_fail_view(PullError::Isolation),
        (BootPhase::Chrooting, BootEvent::Succeeded) => (
            BootPhase::Running,
            BootActionView::Exec { path: cmd.executable_path, args: cmd.args },
        ),
        (BootPhase::Chrooting, BootEvent::Failed) => boot_fail_view(PullError::Isolation),
        (BootPhase::Running, BootEvent::ChildExited { code }) => (
            BootPhase::Finished { code: propagated_exit_code(code) },
            BootActionView::ExitWith { code: propagated_exit_code(code) },
        ),
        (BootPhase::Running, BootEvent::SpawnFailed) => boot_fail_view(PullError::Exec),
        _ => (phase, BootActionView::ExitWith { code: 1 }),
    }
}

/// How far along the line a phase stands; the two terminal phases share the
/// final rank.
pub open spec fn phase_rank(phase: BootPhase) -> int {
    match phase {
        BootPhase::Preparing => 0,
        BootPhase::Pulling => 1,
        BootPhase::Staging => 2,
        BootPhase::Unsharing => 3,
        BootPhase::Chrooting => 4,
        BootPhase::Running => 5,
        BootPhase::Finished { .. } => 6,
        BootPhase::Aborted { .. } => 6,
    }
}

/// The bootstrap is a one-way line: no event ever moves it backwards, so
/// once isolation has succeeded only the exec, wait and exit path remains
/// reachable, and a failure can only end the run.
pub proof fn lemma_bootstrap_only_moves_forward(
    root: Seq<char>,
    cmd: CommandView,
    phase: BootPhase,
    e: BootEvent,
)
    requires
        boot_event_fits(phase, e),
    ensures
        phase_rank(boot_step_view(root, cmd, phase, e).0) > phase_rank(phase),
{
}

/// Start the bootstrap: check that the executable path is absolute (a
/// relative one cannot be relocated under the new root and is a staging
/// error), then ask the driver to prepare the scratch root.
pub fn start_bootstrap(root: String, command: CommandSpec) -> (r: Result<
    (BootSession, BootAction),
    PullError,
>)
    ensures
        match r {
            Ok(sa) => {
                &&& command@.executable_path.len() > 0
                &&& command@.executable_path[0] == '/'
                &&& sa.0.root@ == root@
                &&& sa.0.command@ == command@
                &&& sa.0.phase == BootPhase::Preparing
                &&& sa.1@ == BootActionView::PrepareRoot
            },
            Err(e) => {
                &&& !(command@.executable_path.len() > 0 && command@.executable_path[0] == '/')
                &&& e == PullError::Stage
            },
        },
{
    if command.executable_path.as_str().unicode_len() == 0 {
        return Err(PullError::Stage);
    }
    if command.executable_path.as_str().get_char(0) != '/' {
        return Err(PullError::Stage);
    }
    let session = BootSession { root, command, phase: BootPhase::Preparing };
    Ok((session, BootAction::PrepareRoot))
}

/// Advance the bootstrap by one event: consume the outcome of the last
/// action and return the session with the next action. The transition taken
/// is exactly [`boot_step_view`] of the old phase and the event.
pub fn boot_step(session: BootSession, event: BootEvent) -> (r: (BootSession, BootAction))
    requires
        boot_event_fits(session.phase, event),
    ensures
        r.0.root@ == session.root@,
        r.0.command@ == session.command@,
        (r.0.phase, r.1@) == boot_step_view(session.root@, session.command@, session.phase, event),
{
    let BootSession { root, command, phase } = session;
    match (phase, event) {
        (BootPhase::Preparing, BootEvent::Succeeded) => (
            BootSession { root, command, phase: BootPhase::Pulling },
            BootAction::RunPull,
        ),
        (BootPhase::Preparing, BootEvent::Failed) => boot_fail(root, command, PullError::Stage),
        (BootPhase::Pulling, BootEvent::Succeeded) => {
            let source = command.executable_path.clone();
            let mut destination = root.clone();
            destination.append(command.executable_path.as_str());
            (
                BootSession { root, command, phase: BootPhase::Staging },
                BootAction::StageExecutable { source, destination },
            )
        },
        (BootPhase::Pulling, BootEvent::PullFailed { error }) => boot_fail(root, command, error),
        (BootPhase::Staging, BootEvent::Succeeded) => (
            BootSession { root, command, phase: BootPhase::Unsharing },
            BootAction::UnsharePidNamespace,
        ),
        (BootPhase::Staging, BootEvent::Failed) => boot_fail(root, command, PullError::Stage),
        (BootPhase::Unsharing, BootEvent::Succeeded) => (
            BootSession { root, command, phase: BootPhase::Chrooting },
            BootAction::ChangeRoot,
        ),
        (BootPhase::Unsharing, BootEvent::Failed) => boot_fail(root, command, PullError::Isolation),
        (BootPhase::Chrooting, BootEvent::Succeeded) => {
            let path = command.executable_path.clone();
            let args = clone_args(&command.args);
            (
                BootSession { root, command, phase: BootPhase::Running },
                BootAction::Exec { path, args },
            )
        },
        (BootPhase::Chrooting, BootEvent::Failed) => boot_fail(root, command, PullError::Isolation),
        (BootPhase::Running, BootEvent::ChildExited { code }) => {
            let exit_code = match code {
                Some(c) => c,
                None => 1,
            };
            (
                BootSession { root, command, phase: BootPhase::Finished { code: exit_code } },
                BootAction::ExitWith { code: exit_code },
            )
        },
        (BootPhase::Running, BootEvent::SpawnFailed) => boot_fail(root, command, PullError::Exec),
        (phase, _) => {
            proof {
                assert(false);
            }
            (BootSession { root, command, phase }, BootAction::ExitWith { code: 1 })
        },
    }
}

/// End the bootstrap on a fatal error.
fn boot_fail(root: String, command: CommandSpec, error: PullError) -> (r: (
    BootSession,
    BootAction,
))
    ensures
        r.0.root@ == root@,
        r.0.command@ == command@,
        (r.0.phase, r.1@) == boot_fail_view(error),
{
    (
        BootSession { root, command, phase: BootPhase::Aborted { error } },
        BootAction::Report { error },
    )
}

/// Clone an argument list, keeping every argument's characters.
fn clone_args(args: &Vec<String>) -> (r: Vec<String>)
    ensures
        r.deep_view() == args.deep_view(),
{
    let n = args.len();
    let mut out: Vec<String> = Vec::new();
    let mut i: usize = 0;
    while i < n
        invariant
            n == args@.len(),
            i <= n,
            out@.len() == i,
            forall|j: int| 0 <= j < i ==> #[trigger] out@[j]@ == args@[j]@,
        decreases n - i,
    {
        out.push(args[i].clone());
        i = i + 1;
    }
    proof {
        assert(out.deep_view() =~= args.deep_view());
    }
    out
}

} // verus!
