//! The process handle: the one owner of the worker's operating-system
//! process.
//!
//! The handle decides; its host acts. Starting and stopping the worker take
//! several operations of the operating system, so [`ProcessHandle::start_process`]
//! and [`ProcessHandle::stop_process`] answer with the first thing to do, and
//! [`ProcessHandle::resume`] takes what came of it and answers with the next,
//! until the answer is [`ProcessEffect::Finished`].

use crate::error::{outcome_view, Aria2Error, Aria2ErrorView};
use crate::text::{joined, decimal_digits, push_text, to_decimal, views};
use vstd::prelude::*;
use vstd::string::StringExecFns;

verus! {

/// What a launch of the worker needs to know.
#[derive(Debug, PartialEq, Eq)]
pub struct ProcessConfig {
    /// Port of the control endpoint.
    pub rpc_port: u16,
    /// Token that every call to the control endpoint carries.
    pub rpc_secret: String,
    /// Directory the worker downloads into.
    pub download_dir: String,
    /// File in which the worker keeps its session between runs.
    pub session_file: String,
    /// How many restarts in a row the monitor may attempt.
    pub max_restart_attempts: u32,
}

/// A [`ProcessConfig`] with its texts as sequences of characters.
pub struct ProcessConfigView {
    pub rpc_port: u16,
    pub rpc_secret: Seq<char>,
    pub download_dir: Seq<char>,
    pub session_file: Seq<char>,
    pub max_restart_attempts: u32,
}

impl View for ProcessConfig {
    type V = ProcessConfigView;

    open spec fn view(&self) -> ProcessConfigView {
        ProcessConfigView {
            rpc_port: self.rpc_port,
            rpc_secret: self.rpc_secret@,
            download_dir: self.download_dir@,
            session_file: self.session_file@,
            max_restart_attempts: self.max_restart_attempts,
        }
    }
}

impl Clone for ProcessConfig {
    fn clone(&self) -> (copy: Self)
        ensures
            copy@ == self@,
    {
        ProcessConfig {
            rpc_port: self.rpc_port,
            rpc_secret: self.rpc_secret.clone(),
            download_dir: self.download_dir.clone(),
            session_file: self.session_file.clone(),
            max_restart_attempts: self.max_restart_attempts,
        }
    }
}

/// The command line of the worker: the control endpoint with its port and
/// secret, the download directory, resumption of partial files, and the
/// session file, which is saved every minute and read back when it exists.
/// A quiet worker is told not to write to its console.
pub open spec fn launch_arguments_spec(
    config: ProcessConfigView,
    session_exists: bool,
    quiet: bool,
) -> Seq<Seq<char>> {
    seq![
        "--enable-rpc"@,
        "--rpc-listen-port"@,
        decimal_digits(config.rpc_port as nat),
        "--rpc-secret"@,
        config.rpc_secret,
        "--dir"@,
        config.download_dir,
        "--continue"@,
        "--save-session"@,
        config.session_file,
        "--save-session-interval"@,
        "60"@,
    ] + (if session_exists {
        seq!["--input-file"@, config.session_file]
    } else {
        seq![]
    }) + (if quiet {
        seq!["--quiet"@]
    } else {
        seq![]
    })
}

/// Builds the command line of the worker.
pub fn launch_arguments(config: &ProcessConfig, session_exists: bool, quiet: bool) -> (args: Vec<
    String,
>)
    ensures
        views(args@) == launch_arguments_spec(config@, session_exists, quiet),
{
    let mut args: Vec<String> = Vec::new();
    assert(views(args@) =~= Seq::<Seq<char>>::empty());
    push_text(&mut args, "--enable-rpc");
    push_text(&mut args, "--rpc-listen-port");
    let port = to_decimal(config.rpc_port as u64);
    push_text(&mut args, port.as_str());
    push_text(&mut args, "--rpc-secret");
    push_text(&mut args, config.rpc_secret.as_str());
    push_text(&mut args, "--dir");
    push_text(&mut args, config.download_dir.as_str());
    push_text(&mut args, "--continue");
    push_text(&mut args, "--save-session");
    push_text(&mut args, config.session_file.as_str());
    push_text(&mut args, "--save-session-interval");
    push_text(&mut args, "60");
    if session_exists {
        push_text(&mut args, "--input-file");
        push_text(&mut args, config.session_file.as_str());
    }
    if quiet {
        push_text(&mut args, "--quiet");
    }
    assert(views(args@) =~= launch_arguments_spec(config@, session_exists, quiet));
    args
}

/// What came of the attempt to terminate a process.
#[derive(Debug, PartialEq, Eq)]
pub enum KillOutcome {
    /// The termination signal was delivered.
    Killed,
    /// The process had ended before the signal was sent.
    AlreadyExited,
    /// The signal could not be sent; the text says why.
    Failed(String),
}

/// A [`KillOutcome`] with its text as a sequence of characters.
pub enum KillOutcomeView {
    Killed,
    AlreadyExited,
    Failed(Seq<char>),
}

impl View for KillOutcome {
    type V = KillOutcomeView;

    open spec fn view(&self) -> KillOutcomeView {
        match *self {
            KillOutcome::Killed => KillOutcomeView::Killed,
            KillOutcome::AlreadyExited => KillOutcomeView::AlreadyExited,
            KillOutcome::Failed(reason) => KillOutcomeView::Failed(reason@),
        }
    }
}

/// What a non-blocking look at a process showed.
#[derive(Debug, Clone, Copy, PartialEq, Eq)]
pub enum ExitProbe {
    /// The process has not ended.
    StillRunning,
    /// The process has ended.
    Exited,
    /// The operating system could not tell.
    ProbeFailed,
}

/// Which operation a termination belongs to.
#[derive(Debug, Clone, Copy, PartialEq, Eq)]
pub enum Goal {
    /// The worker is being stopped.
    Stop,
    /// The worker is being started, and its predecessor is cleared away first.
    Launch,
}

/// The step of a start or stop that the host has been asked to perform.
#[derive(Debug, Clone, Copy, PartialEq, Eq)]
pub enum Phase {
    /// Nothing is under way.
    Idle,
    /// The owned process is being signalled to terminate.
    Killing(Goal),
    /// The signalled process is being waited for.
    Reaping(Goal),
    /// The download directory is being created.
    EnsuringDownloadDir,
    /// The directory of the session file is being created.
    EnsuringSessionDir,
    /// The session file is being looked for.
    ProbingSessionFile,
    /// The worker is being spawned.
    Spawning,
}

/// What the handle asks its host to do. `P` is the host's own type for a
/// spawned process.
#[derive(Debug, PartialEq, Eq)]
pub enum ProcessEffect<P> {
    /// Signal the process to terminate; report with [`ProcessOutcome::Killed`].
    Kill(P),
    /// Wait until the process has ended, whatever the wait returns; report
    /// with [`ProcessOutcome::Reaped`].
    Reap(P),
    /// Create the directory and its parents unless they exist; report with
    /// [`ProcessOutcome::Directory`].
    EnsureDirectory(String),
    /// Create the directory that holds the file, where the path names one;
    /// report with [`ProcessOutcome::Directory`].
    EnsureParentDirectory(String),
    /// See whether the file exists; report with [`ProcessOutcome::FileExists`].
    ProbeFile(String),
    /// Spawn the binary with the arguments; report with
    /// [`ProcessOutcome::Spawned`].
    Spawn { binary: String, args: Vec<String> },
    /// The operation is over, with this result.
    Finished(Result<(), Aria2Error>),
}

/// A [`ProcessEffect`] with its texts as sequences of characters.
pub enum ProcessEffectView<P> {
    Kill(P),
    Reap(P),
    EnsureDirectory(Seq<char>),
    EnsureParentDirectory(Seq<char>),
    ProbeFile(Seq<char>),
    Spawn { binary: Seq<char>, args: Seq<Seq<char>> },
    Finished(Result<(), Aria2ErrorView>),
}

impl<P> View for ProcessEffect<P> {
    type V = ProcessEffectView<P>;

    open spec fn view(&self) -> ProcessEffectView<P> {
        match *self {
            ProcessEffect::Kill(process) => ProcessEffectView::Kill(process),
            ProcessEffect::Reap(process) => ProcessEffectView::Reap(process),
            ProcessEffect::EnsureDirectory(path) => ProcessEffectView::EnsureDirectory(path@),
            ProcessEffect::EnsureParentDirectory(path) => ProcessEffectView::EnsureParentDirectory(
                path@,
            ),
            ProcessEffect::ProbeFile(path) => ProcessEffectView::ProbeFile(path@),
            ProcessEffect::Spawn { binary, args } => ProcessEffectView::Spawn {
                binary: binary@,
                args: views(args@),
            },
            ProcessEffect::Finished(result) => ProcessEffectView::Finished(outcome_view(result)),
        }
    }
}

/// What the host reports of the effect it was asked for.
#[derive(Debug, PartialEq, Eq)]
pub enum ProcessOutcome<P> {
    /// The process that was to be terminated, and what came of the signal.
    Killed(P, KillOutcome),
    /// The process has been waited for.
    Reaped,
    /// The directory exists now, or the text says why it could not be made.
    Directory(Result<(), String>),
    /// Whether the file exists.
    FileExists(bool),
    /// The spawned process, or the text of the failure.
    Spawned(Result<P, String>),
}

/// A [`ProcessOutcome`] with its texts as sequences of characters.
pub enum ProcessOutcomeView<P> {
    Killed(P, KillOutcomeView),
    Reaped,
    Directory(Result<(), Seq<char>>),
    FileExists(bool),
    Spawned(Result<P, Seq<char>>),
}

impl<P> View for ProcessOutcome<P> {
    type V = ProcessOutcomeView<P>;

    open spec fn view(&self) -> ProcessOutcomeView<P> {
        match *self {
            ProcessOutcome::Killed(process, outcome) => ProcessOutcomeView::Killed(
                process,
                outcome@,
            ),
            ProcessOutcome::Reaped => ProcessOutcomeView::Reaped,
            ProcessOutcome::Directory(Ok(_)) => ProcessOutcomeView::Directory(Ok(())),
            ProcessOutcome::Directory(Err(reason)) => ProcessOutcomeView::Directory(Err(reason@)),
            ProcessOutcome::FileExists(exists) => ProcessOutcomeView::FileExists(exists),
            ProcessOutcome::Spawned(Ok(process)) => ProcessOutcomeView::Spawned(Ok(process)),
            ProcessOutcome::Spawned(Err(reason)) => ProcessOutcomeView::Spawned(Err(reason@)),
        }
    }
}

/// The state of a process handle.
pub struct ProcessHandleView<P> {
    /// The owned process, if there is one.
    pub process: Option<P>,
    /// The step of a start or stop that is under way.
    pub phase: Phase,
    /// Restarts attempted since the worker last answered a health probe.
    pub restart_count: u32,
    /// Path of the worker binary.
    pub binary_path: Seq<char>,
    /// The launch parameters.
    pub config: ProcessConfigView,
    /// Whether the worker is told not to write to its console.
    pub quiet: bool,
}

impl<P> ProcessHandleView<P> {
    /// While a start or stop is under way the handle owns no process: the
    /// old one has been handed to the host and the new one is not stored
    /// before the start is over.
    pub open spec fn wf(self) -> bool {
        self.phase != Phase::Idle ==> self.process is None
    }

    /// The state of a handle that was just made.
    pub open spec fn created(binary_path: Seq<char>, config: ProcessConfigView) -> Self {
        ProcessHandleView {
            process: None,
            phase: Phase::Idle,
            restart_count: 0,
            binary_path,
            config,
            quiet: false,
        }
    }

    /// The state with the given count of restarts.
    pub open spec fn with_restart_count(self, restart_count: u32) -> Self {
        ProcessHandleView { restart_count, ..self }
    }

    /// The state with nothing under way.
    pub open spec fn settled(self) -> Self {
        ProcessHandleView { phase: Phase::Idle, ..self }
    }

    /// The state in the given phase, owning no process.
    pub open spec fn awaiting(self, phase: Phase) -> Self {
        ProcessHandleView { process: None, phase, ..self }
    }
}

/// The result of an operation that failed with the given error.
pub open spec fn failed<P>(error: Aria2ErrorView) -> ProcessEffectView<P> {
    ProcessEffectView::Finished(Err(error))
}

/// Text of the error reported when the termination signal cannot be sent.
pub open spec fn kill_failure(reason: Seq<char>) -> Aria2ErrorView {
    Aria2ErrorView::ProcessManagementError("Failed to kill process: "@ + reason)
}

/// Text of the error reported when the download directory cannot be made.
pub open spec fn download_dir_failure(reason: Seq<char>) -> Aria2ErrorView {
    Aria2ErrorView::ProcessStartFailed("Failed to create download directory "@ + reason)
}

/// Text of the error reported when the session directory cannot be made.
pub open spec fn session_dir_failure(reason: Seq<char>) -> Aria2ErrorView {
    Aria2ErrorView::ProcessStartFailed("Failed to create session directory "@ + reason)
}

/// Text of the error reported when the worker cannot be spawned.
pub open spec fn spawn_failure(reason: Seq<char>) -> Aria2ErrorView {
    Aria2ErrorView::ProcessStartFailed("Failed to spawn aria2: "@ + reason)
}

/// The error reported when the host answers with something that the step
/// under way does not wait for.
pub open spec fn protocol_failure() -> Aria2ErrorView {
    Aria2ErrorView::General("outcome does not answer the step under way"@)
}

/// Stopping begins: an owned process leaves the handle to be terminated;
/// with none there is nothing to do, and that is a success.
pub open spec fn stop_begins<P>(pre: ProcessHandleView<P>) -> (
    ProcessHandleView<P>,
    ProcessEffectView<P>,
) {
    match pre.process {
        Some(process) => (
            pre.awaiting(Phase::Killing(Goal::Stop)),
            ProcessEffectView::Kill(process),
        ),
        None => (pre.settled(), ProcessEffectView::Finished(Ok(()))),
    }
}

/// Starting begins: an owned process is terminated first; with none the
/// download directory is next.
pub open spec fn launch_begins<P>(pre: ProcessHandleView<P>) -> (
    ProcessHandleView<P>,
    ProcessEffectView<P>,
) {
    match pre.process {
        Some(process) => (
            pre.awaiting(Phase::Killing(Goal::Launch)),
            ProcessEffectView::Kill(process),
        ),
        None => (
            pre.awaiting(Phase::EnsuringDownloadDir),
            ProcessEffectView::EnsureDirectory(pre.config.download_dir),
        ),
    }
}

/// What follows when the host reports `outcome` in state `pre`.
///
/// A stop signals the process and waits for it; a signal that finds the
/// process gone counts as delivered, any other failure ends the operation
/// with a process-management error. A start then makes the download
/// directory, makes the directory of the session file, looks for the
/// session file, spawns the worker and keeps the new process; each failure
/// ends it with a process-start error that names the step. An outcome that
/// answers no step under way ends the operation with an error, and a
/// process that came with it is let go.
pub open spec fn outcome_applies<P>(pre: ProcessHandleView<P>, outcome: ProcessOutcomeView<P>) -> (
    ProcessHandleView<P>,
    ProcessEffectView<P>,
) {
    match (pre.phase, outcome) {
        (Phase::Killing(goal), ProcessOutcomeView::Killed(process, KillOutcomeView::Failed(reason))) => (
            pre.settled(),
            failed(kill_failure(reason)),
        ),
        (Phase::Killing(goal), ProcessOutcomeView::Killed(process, _)) => (
            pre.awaiting(Phase::Reaping(goal)),
            ProcessEffectView::Reap(process),
        ),
        (Phase::Reaping(Goal::Stop), ProcessOutcomeView::Reaped) => (
            pre.settled(),
            ProcessEffectView::Finished(Ok(())),
        ),
        (Phase::Reaping(Goal::Launch), ProcessOutcomeView::Reaped) => (
            pre.awaiting(Phase::EnsuringDownloadDir),
            ProcessEffectView::EnsureDirectory(pre.config.download_dir),
        ),
        (Phase::EnsuringDownloadDir, ProcessOutcomeView::Directory(Ok(_))) => (
            pre.awaiting(Phase::EnsuringSessionDir),
            ProcessEffectView::EnsureParentDirectory(pre.config.session_file),
        ),
        (Phase::EnsuringDownloadDir, ProcessOutcomeView::Directory(Err(reason))) => (
            pre.settled(),
            failed(download_dir_failure(reason)),
        ),
        (Phase::EnsuringSessionDir, ProcessOutcomeView::Directory(Ok(_))) => (
            pre.awaiting(Phase::ProbingSessionFile),
            ProcessEffectView::ProbeFile(pre.config.session_file),
        ),
        (Phase::EnsuringSessionDir, ProcessOutcomeView::Directory(Err(reason))) => (
            pre.settled(),
            failed(session_dir_failure(reason)),
        ),
        (Phase::ProbingSessionFile, ProcessOutcomeView::FileExists(exists)) => (
            pre.awaiting(Phase::Spawning),
            ProcessEffectView::Spawn {
                binary: pre.binary_path,
                args: launch_arguments_spec(pre.config, exists, pre.quiet),
            },
        ),
        (Phase::Spawning, ProcessOutcomeView::Spawned(Ok(process))) => (
            ProcessHandleView { process: Some(process), phase: Phase::Idle, ..pre },
            ProcessEffectView::Finished(Ok(())),
        ),
        (Phase::Spawning, ProcessOutcomeView::Spawned(Err(reason))) => (
            pre.settled(),
            failed(spawn_failure(reason)),
        ),
        _ => (pre.settled(), failed(protocol_failure())),
    }
}

/// What a look at the owned process means: the worker runs if there is a
/// process and it has not ended. A process that has ended, or that the
/// operating system cannot tell about, is forgotten.
pub open spec fn liveness_observed<P>(pre: ProcessHandleView<P>, probe: ExitProbe) -> (
    ProcessHandleView<P>,
    bool,
) {
    if pre.process is Some && probe == ExitProbe::StillRunning {
        (pre, true)
    } else {
        (ProcessHandleView { process: None, ..pre }, false)
    }
}

/// One more restart is counted; the new count is handed out.
pub open spec fn restart_counted<P>(pre: ProcessHandleView<P>) -> (ProcessHandleView<P>, u32) {
    let count = (pre.restart_count + 1) as u32;
    (pre.with_restart_count(count), count)
}

/// The restarts counted so far are forgotten.
pub open spec fn restart_cleared<P>(pre: ProcessHandleView<P>) -> ProcessHandleView<P> {
    pre.with_restart_count(0)
}

/// The state after `times` more restarts have been counted.
pub open spec fn restart_counted_times<P>(
    pre: ProcessHandleView<P>,
    times: nat,
) -> ProcessHandleView<P>
    decreases times,
{
    if times == 0 {
        pre
    } else {
        restart_counted(restart_counted_times(pre, (times - 1) as nat)).0
    }
}

/// A whole stop: what `stop_process` begins, carried to its end by a host
/// whose termination signal came to `signal`.
pub open spec fn stop_completes<P>(pre: ProcessHandleView<P>, signal: KillOutcomeView) -> (
    ProcessHandleView<P>,
    Result<(), Aria2ErrorView>,
) {
    let begun = stop_begins(pre);
    match begun.1 {
        ProcessEffectView::Kill(process) => {
            let signalled = outcome_applies(begun.0, ProcessOutcomeView::Killed(process, signal));
            match signalled.1 {
                ProcessEffectView::Reap(_) => {
                    let reaped = outcome_applies(signalled.0, ProcessOutcomeView::Reaped);
                    (reaped.0, reaped.1->Finished_0)
                },
                _ => (signalled.0, signalled.1->Finished_0),
            }
        },
        _ => (begun.0, begun.1->Finished_0),
    }
}

/// A whole start of a handle that owns no process: what `start_process`
/// begins, carried to its end by a host that could make both directories,
/// found the session file or not, and spawned `process`.
pub open spec fn launch_completes<P>(
    pre: ProcessHandleView<P>,
    session_exists: bool,
    process: P,
) -> (ProcessHandleView<P>, ProcessEffectView<P>) {
    let download_dir = outcome_applies(launch_begins(pre).0, ProcessOutcomeView::Directory(Ok(())));
    let session_dir = outcome_applies(download_dir.0, ProcessOutcomeView::Directory(Ok(())));
    let probed = outcome_applies(session_dir.0, ProcessOutcomeView::FileExists(session_exists));
    outcome_applies(probed.0, ProcessOutcomeView::Spawned(Ok(process)))
}

/// Every step leaves the handle well formed, whatever the host reports.
pub proof fn lemma_steps_are_well_formed<P>(
    pre: ProcessHandleView<P>,
    outcome: ProcessOutcomeView<P>,
    probe: ExitProbe,
)
    ensures
        ProcessHandleView::<P>::created(pre.binary_path, pre.config).wf(),
        stop_begins(pre).0.wf(),
        launch_begins(pre).0.wf(),
        outcome_applies(pre, outcome).0.wf(),
        pre.wf() ==> liveness_observed(pre, probe).0.wf(),
        pre.wf() ==> restart_counted(pre).0.wf() && restart_cleared(pre).wf(),
{
}

/// The handle lets go of the process it owns before it asks for a new one
/// to be spawned, and a start that succeeds leaves it with exactly the
/// process that was spawned.
pub proof fn lemma_launch_replaces_process<P>(
    pre: ProcessHandleView<P>,
    outcome: ProcessOutcomeView<P>,
    session_exists: bool,
    process: P,
)
    ensures
        launch_begins(pre).0.process is None,
        pre.process is Some ==> launch_begins(pre).1 == ProcessEffectView::Kill(pre.process->0),
        outcome_applies(pre, outcome).1 is Spawn ==> outcome_applies(pre, outcome).0.process
            is None,
        pre.process is None ==> launch_completes(pre, session_exists, process) == (
            ProcessHandleView { process: Some(process), phase: Phase::Idle, ..pre },
            ProcessEffectView::<P>::Finished(Ok(())),
        ),
{
}

/// The order of a start that replaces a process, on a host where every
/// step works: the old process is signalled and waited for, the download
/// directory and the directory of the session file are made, the session
/// file is looked for, and only then the worker is spawned, with the
/// command line that belongs to the configuration. Until the start is
/// over the handle owns no process; then it owns the new one.
pub proof fn lemma_launch_order<P>(
    pre: ProcessHandleView<P>,
    signal: KillOutcomeView,
    session_exists: bool,
    process: P,
)
    requires
        pre.process is Some,
        !(signal is Failed),
    ensures
        ({
            let begun = launch_begins(pre);
            let signalled = outcome_applies(
                begun.0,
                ProcessOutcomeView::Killed(pre.process->0, signal),
            );
            let reaped = outcome_applies(signalled.0, ProcessOutcomeView::Reaped);
            let download_dir = outcome_applies(reaped.0, ProcessOutcomeView::Directory(Ok(())));
            let session_dir = outcome_applies(
                download_dir.0,
                ProcessOutcomeView::Directory(Ok(())),
            );
            let probed = outcome_applies(
                session_dir.0,
                ProcessOutcomeView::FileExists(session_exists),
            );
            let spawned = outcome_applies(probed.0, ProcessOutcomeView::Spawned(Ok(process)));
            &&& begun.1 == ProcessEffectView::Kill(pre.process->0)
            &&& signalled.1 == ProcessEffectView::Reap(pre.process->0)
            &&& reaped.1 == ProcessEffectView::<P>::EnsureDirectory(pre.config.download_dir)
            &&& download_dir.1 == ProcessEffectView::<P>::EnsureParentDirectory(
                pre.config.session_file,
            )
            &&& session_dir.1 == ProcessEffectView::<P>::ProbeFile(pre.config.session_file)
            &&& probed.1 == (ProcessEffectView::<P>::Spawn {
                binary: pre.binary_path,
                args: launch_arguments_spec(pre.config, session_exists, pre.quiet),
            })
            &&& spawned.1 == ProcessEffectView::<P>::Finished(Ok(()))
            &&& begun.0.process is None
            &&& signalled.0.process is None
            &&& reaped.0.process is None
            &&& download_dir.0.process is None
            &&& session_dir.0.process is None
            &&& probed.0.process is None
            &&& spawned.0 == (ProcessHandleView {
                process: Some(process),
                phase: Phase::Idle,
                ..pre
            })
        }),
{
}

/// While a start or a stop is under way the worker does not count as
/// running: nobody sees a process before its start is over.
pub proof fn lemma_not_running_while_under_way<P>(pre: ProcessHandleView<P>, probe: ExitProbe)
    requires
        pre.wf(),
        pre.phase != Phase::Idle,
    ensures
        !liveness_observed(pre, probe).1,
{
}

/// A stop leaves the handle without a process and with nothing under way,
/// also where the termination signal failed; it fails only where there was
/// a process and the signal to it failed. After it the worker never counts
/// as running, whatever a look at the process is said to have shown.
pub proof fn lemma_stopped_worker_does_not_run<P>(
    pre: ProcessHandleView<P>,
    signal: KillOutcomeView,
    probe: ExitProbe,
)
    ensures
        stop_completes(pre, signal).0 == (ProcessHandleView {
            process: None,
            phase: Phase::Idle,
            ..pre
        }),
        stop_completes(pre, signal).1 is Err <==> pre.process is Some && signal is Failed,
        !liveness_observed(stop_completes(pre, signal).0, probe).1,
        liveness_observed(stop_completes(pre, signal).0, probe).0 == stop_completes(
            pre,
            signal,
        ).0,
{
}

/// Stopping a handle that owns no process succeeds and changes nothing but
/// to settle it, so a second stop after a first succeeds and leaves the
/// handle as the first left it.
pub proof fn lemma_stop_is_idempotent<P>(
    pre: ProcessHandleView<P>,
    first: KillOutcomeView,
    second: KillOutcomeView,
)
    ensures
        pre.process is None ==> stop_completes(pre, first) == (pre.settled(), Ok::<
            (),
            Aria2ErrorView,
        >(())),
        stop_completes(stop_completes(pre, first).0, second) == (
            stop_completes(pre, first).0,
            Ok::<(), Aria2ErrorView>(()),
        ),
{
}

/// Counting restarts yields 1, 2, 3 and so on: each count is one more than
/// the one before, the first count of a new handle is 1, and so is the
/// first count after the counter was cleared.
pub proof fn lemma_restart_counts_ascend<P>(pre: ProcessHandleView<P>, times: nat)
    requires
        times <= u32::MAX,
    ensures
        pre.restart_count < u32::MAX ==> restart_counted(pre).1 == pre.restart_count + 1,
        restart_counted(ProcessHandleView::<P>::created(pre.binary_path, pre.config)).1 == 1,
        restart_counted(restart_cleared(pre)).1 == 1,
        restart_counted_times(restart_cleared(pre), times).restart_count == times,
        times >= 1 ==> restart_counted(
            restart_counted_times(restart_cleared(pre), (times - 1) as nat),
        ).1 == times,
    decreases times,
{
    if times > 0 {
        lemma_restart_counts_ascend(pre, (times - 1) as nat);
    }
}

/// Owner of at most one worker process, with the count of restarts that the
/// monitor has attempted in a row.
#[derive(Debug)]
pub struct ProcessHandle<P> {
    child: Option<P>,
    phase: Phase,
    restart_count: u32,
    binary_path: String,
    config: ProcessConfig,
    quiet: bool,
}

impl<P> View for ProcessHandle<P> {
    type V = ProcessHandleView<P>;

    closed spec fn view(&self) -> ProcessHandleView<P> {
        ProcessHandleView {
            process: self.child,
            phase: self.phase,
            restart_count: self.restart_count,
            binary_path: self.binary_path@,
            config: self.config@,
            quiet: self.quiet,
        }
    }
}

impl<P> ProcessHandle<P> {
    /// A handle for the worker binary at `binary_path`: it owns no process,
    /// has counted no restart, and lets the worker write to its console.
    pub fn new(binary_path: String, config: ProcessConfig) -> (handle: Self)
        ensures
            handle@ == ProcessHandleView::<P>::created(binary_path@, config@),
    {
        ProcessHandle {
            child: None,
            phase: Phase::Idle,
            restart_count: 0,
            binary_path,
            config,
            quiet: false,
        }
    }

    /// Chooses whether the worker is told not to write to its console.
    pub fn set_quiet(&mut self, quiet: bool)
        ensures
            final(self)@ == (ProcessHandleView { quiet, ..old(self)@ }),
    {
        self.quiet = quiet;
    }

    /// Begins a start of the worker and says what the host does first.
    pub fn start_process(&mut self) -> (effect: ProcessEffect<P>)
        ensures
            (final(self)@, effect@) == launch_begins(old(self)@),
    {
        match self.child.take() {
            Some(process) => {
                self.phase = Phase::Killing(Goal::Launch);
                ProcessEffect::Kill(process)
            },
            None => {
                self.phase = Phase::EnsuringDownloadDir;
                ProcessEffect::EnsureDirectory(self.config.download_dir.clone())
            },
        }
    }

    /// Begins a stop of the worker and says what the host does first.
    pub fn stop_process(&mut self) -> (effect: ProcessEffect<P>)
        ensures
            (final(self)@, effect@) == stop_begins(old(self)@),
    {
        match self.child.take() {
            Some(process) => {
                self.phase = Phase::Killing(Goal::Stop);
                ProcessEffect::Kill(process)
            },
            None => {
                self.phase = Phase::Idle;
                ProcessEffect::Finished(Ok(()))
            },
        }
    }

    /// Takes what the host reports and says what it does next.
    pub fn resume(&mut self, outcome: ProcessOutcome<P>) -> (effect: ProcessEffect<P>)
        ensures
            (final(self)@, effect@) == outcome_applies(old(self)@, outcome@),
    {
        let phase = self.phase;
        self.phase = Phase::Idle;
        match (phase, outcome) {
            (Phase::Killing(_), ProcessOutcome::Killed(_, KillOutcome::Failed(reason))) => {
                ProcessEffect::Finished(
                    Err(
                        Aria2Error::ProcessManagementError(
                            joined("Failed to kill process: ", reason.as_str()),
                        ),
                    ),
                )
            },
            (Phase::Killing(goal), ProcessOutcome::Killed(process, _)) => {
                self.child = None;
                self.phase = Phase::Reaping(goal);
                ProcessEffect::Reap(process)
            },
            (Phase::Reaping(Goal::Stop), ProcessOutcome::Reaped) => ProcessEffect::Finished(Ok(())),
            (Phase::Reaping(Goal::Launch), ProcessOutcome::Reaped) => {
                self.child = None;
                self.phase = Phase::EnsuringDownloadDir;
                ProcessEffect::EnsureDirectory(self.config.download_dir.clone())
            },
            (Phase::EnsuringDownloadDir, ProcessOutcome::Directory(Ok(_))) => {
                self.child = None;
                self.phase = Phase::EnsuringSessionDir;
                ProcessEffect::EnsureParentDirectory(self.config.session_file.clone())
            },
            (Phase::EnsuringDownloadDir, ProcessOutcome::Directory(Err(reason))) => {
                ProcessEffect::Finished(
                    Err(
                        Aria2Error::ProcessStartFailed(
                            joined("Failed to create download directory ", reason.as_str()),
                        ),
                    ),
                )
            },
            (Phase::EnsuringSessionDir, ProcessOutcome::Directory(Ok(_))) => {
                self.child = None;
                self.phase = Phase::ProbingSessionFile;
                ProcessEffect::ProbeFile(self.config.session_file.clone())
            },
            (Phase::EnsuringSessionDir, ProcessOutcome::Directory(Err(reason))) => {
                ProcessEffect::Finished(
                    Err(
                        Aria2Error::ProcessStartFailed(
                            joined("Failed to create session directory ", reason.as_str()),
                        ),
                    ),
                )
            },
            (Phase::ProbingSessionFile, ProcessOutcome::FileExists(exists)) => {
                self.child = None;
                self.phase = Phase::Spawning;
                ProcessEffect::Spawn {
                    binary: self.binary_path.clone(),
                    args: launch_arguments(&self.config, exists, self.quiet),
                }
            },
            (Phase::Spawning, ProcessOutcome::Spawned(Ok(process))) => {
                self.child = Some(process);
                ProcessEffect::Finished(Ok(()))
            },
            (Phase::Spawning, ProcessOutcome::Spawned(Err(reason))) => {
                ProcessEffect::Finished(
                    Err(
                        Aria2Error::ProcessStartFailed(
                            joined("Failed to spawn aria2: ", reason.as_str()),
                        ),
                    ),
                )
            },
            _ => ProcessEffect::Finished(
                Err(
                    Aria2Error::General(
                        String::from_str("outcome does not answer the step under way"),
                    ),
                ),
            ),
        }
    }

    /// The owned process, for the host to look at.
    pub fn process_mut(&mut self) -> (process: Option<&mut P>)
        ensures
            match process {
                Some(borrowed) => old(self)@.process == Some(*borrowed) && final(self)@ == (
                ProcessHandleView { process: Some(*final(borrowed)), ..old(self)@ }),
                None => old(self)@.process is None && final(self)@ == old(self)@,
            },
    {
        self.child.as_mut()
    }

    /// Says whether the worker runs, given what a non-blocking look at the
    /// owned process showed, and forgets a process that has ended.
    pub fn is_running(&mut self, probe: ExitProbe) -> (running: bool)
        ensures
            (final(self)@, running) == liveness_observed(old(self)@, probe),
    {
        let running = match (&self.child, probe) {
            (Some(_), ExitProbe::StillRunning) => true,
            _ => false,
        };
        if !running {
            self.child = None;
        }
        running
    }

    /// Counts one more restart and returns the new count.
    pub fn increment_restart_count(&mut self) -> (count: u32)
        requires
            old(self)@.restart_count < u32::MAX,
        ensures
            (final(self)@, count) == restart_counted(old(self)@),
    {
        self.restart_count = self.restart_count + 1;
        self.restart_count
    }

    /// Forgets the restarts counted so far.
    pub fn reset_restart_count(&mut self)
        ensures
            final(self)@ == restart_cleared(old(self)@),
    {
        self.restart_count = 0;
    }

    /// Whether the handle owns a process.
    pub fn has_process(&self) -> (owned: bool)
        ensures
            owned == self@.process is Some,
    {
        self.child.is_some()
    }

    /// The step of a start or stop that is under way.
    pub fn phase(&self) -> (phase: Phase)
        ensures
            phase == self@.phase,
    {
        self.phase
    }

    /// The restarts counted so far.
    pub fn restart_count(&self) -> (count: u32)
        ensures
            count == self@.restart_count,
    {
        self.restart_count
    }

    /// Port of the control endpoint of the worker.
    pub fn rpc_port(&self) -> (port: u16)
        ensures
            port == self@.config.rpc_port,
    {
        self.config.rpc_port
    }

    /// Directory the worker downloads into.
    pub fn download_dir(&self) -> (dir: String)
        ensures
            dir@ == self@.config.download_dir,
    {
        self.config.download_dir.clone()
    }

    /// How many restarts in a row the monitor may attempt.
    pub fn max_restart_attempts(&self) -> (ceiling: u32)
        ensures
            ceiling == self@.config.max_restart_attempts,
    {
        self.config.max_restart_attempts
    }
}

} // verus!
