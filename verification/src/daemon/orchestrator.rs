//! The orchestrator: bringing the worker up, and tearing it down.
//!
//! Bringing it up takes the worker binary, the download directory, a
//! launch, and then the wait for readiness: the control endpoint is probed
//! at a fixed pace until it answers, the process turns out to have ended,
//! or the deadline has passed. Only a worker that answered becomes an
//! [`Aria2Daemon`], with its health monitor started.
//!
//! The orchestrator decides; its host acts. [`Aria2Daemon::start`] answers
//! with the first thing to do and [`DaemonStartup::resume`] takes what came
//! of it and answers with the next.

use crate::daemon::monitor::{
    event_applies, monitoring_begins, HealthMonitor, HealthMonitorView, MonitorEffect,
    MonitorEvent, MonitorPhase,
};
use crate::daemon::platform::{
    binary_dir_for, binary_dir_spec, binary_path_spec, get_binary_path, join, join_spec, HostDirs,
    HostDirsView, Platform,
};
use crate::daemon::process::{
    liveness_observed, stop_begins, ExitProbe, ProcessConfig, ProcessConfigView, ProcessEffect,
    ProcessHandle, ProcessHandleView,
};
use crate::error::{Aria2Error, Aria2ErrorView};
use crate::text::{decimal_digits, push_decimal};
use vstd::prelude::*;
use vstd::string::StringExecFns;

verus! {

/// Port of the control endpoint unless the configuration names another.
pub const DEFAULT_RPC_PORT: u16 = 6800;

/// Restarts in a row that the monitor attempts unless the configuration
/// says otherwise.
pub const DEFAULT_MAX_RESTART_ATTEMPTS: u32 = 10;

/// Seconds between two health checks unless the configuration says
/// otherwise.
pub const DEFAULT_HEALTH_CHECK_INTERVAL_SECS: u64 = 10;

/// Milliseconds after which a worker that has not answered is given up.
pub const READINESS_TIMEOUT_MILLIS: u64 = 30_000;

/// Milliseconds between two probes of a worker that has not answered yet.
pub const READINESS_POLL_MILLIS: u64 = 500;

/// What the host application configures.
#[derive(Debug, PartialEq, Eq)]
pub struct DaemonConfig {
    /// Port of the control endpoint.
    pub rpc_port: u16,
    /// Token that every call to the control endpoint carries.
    pub rpc_secret: String,
    /// Directory the worker downloads into.
    pub download_dir: String,
    /// File in which the worker keeps its session between runs.
    pub session_file: String,
    /// How many restarts in a row the monitor may attempt.
    pub max_restart_attempts: u32,
    /// Seconds between two health checks.
    pub health_check_interval_secs: u64,
}

/// A [`DaemonConfig`] with its texts as sequences of characters.
pub struct DaemonConfigView {
    pub rpc_port: u16,
    pub rpc_secret: Seq<char>,
    pub download_dir: Seq<char>,
    pub session_file: Seq<char>,
    pub max_restart_attempts: u32,
    pub health_check_interval_secs: u64,
}

impl View for DaemonConfig {
    type V = DaemonConfigView;

    open spec fn view(&self) -> DaemonConfigView {
        DaemonConfigView {
            rpc_port: self.rpc_port,
            rpc_secret: self.rpc_secret@,
            download_dir: self.download_dir@,
            session_file: self.session_file@,
            max_restart_attempts: self.max_restart_attempts,
            health_check_interval_secs: self.health_check_interval_secs,
        }
    }
}

impl DaemonConfigView {
    /// The configuration that is used where the host names none: the usual
    /// port and token, downloads and session file beside the worker binary,
    /// ten restarts in a row and a health check every ten seconds.
    pub open spec fn default_for(platform: Platform, dirs: HostDirsView) -> DaemonConfigView {
        DaemonConfigView {
            rpc_port: DEFAULT_RPC_PORT,
            rpc_secret: "burncloud"@,
            download_dir: binary_dir_spec(platform, dirs),
            session_file: join_spec(platform, binary_dir_spec(platform, dirs), "aria2.session"@),
            max_restart_attempts: DEFAULT_MAX_RESTART_ATTEMPTS,
            health_check_interval_secs: DEFAULT_HEALTH_CHECK_INTERVAL_SECS,
        }
    }

    /// What a launch takes from the configuration.
    pub open spec fn process_config(self) -> ProcessConfigView {
        ProcessConfigView {
            rpc_port: self.rpc_port,
            rpc_secret: self.rpc_secret,
            download_dir: self.download_dir,
            session_file: self.session_file,
            max_restart_attempts: self.max_restart_attempts,
        }
    }
}

impl Clone for DaemonConfig {
    fn clone(&self) -> (copy: Self)
        ensures
            copy@ == self@,
    {
        DaemonConfig {
            rpc_port: self.rpc_port,
            rpc_secret: self.rpc_secret.clone(),
            download_dir: self.download_dir.clone(),
            session_file: self.session_file.clone(),
            max_restart_attempts: self.max_restart_attempts,
            health_check_interval_secs: self.health_check_interval_secs,
        }
    }
}

impl Default for DaemonConfig {
    /// The default configuration for the machine at hand.
    fn default() -> (config: Self)
        ensures
            exists|platform: Platform, dirs: HostDirsView|
                config@ == DaemonConfigView::default_for(platform, dirs),
    {
        let dirs = HostDirs::detect();
        DaemonConfig::for_host(Platform::current(), &dirs)
    }
}

impl DaemonConfig {
    /// The default configuration for a host with the given platform and
    /// directories.
    pub fn for_host(platform: Platform, dirs: &HostDirs) -> (config: Self)
        ensures
            config@ == DaemonConfigView::default_for(platform, dirs@),
    {
        let download_dir = binary_dir_for(platform, dirs);
        let session_file = join(platform, download_dir.as_str(), "aria2.session");
        DaemonConfig {
            rpc_port: DEFAULT_RPC_PORT,
            rpc_secret: String::from_str("burncloud"),
            download_dir,
            session_file,
            max_restart_attempts: DEFAULT_MAX_RESTART_ATTEMPTS,
            health_check_interval_secs: DEFAULT_HEALTH_CHECK_INTERVAL_SECS,
        }
    }

    /// The launch parameters that this configuration asks for.
    pub fn process_config(&self) -> (config: ProcessConfig)
        ensures
            config@ == self@.process_config(),
    {
        ProcessConfig {
            rpc_port: self.rpc_port,
            rpc_secret: self.rpc_secret.clone(),
            download_dir: self.download_dir.clone(),
            session_file: self.session_file.clone(),
            max_restart_attempts: self.max_restart_attempts,
        }
    }
}

/// The step of bringing the worker up that the host has been asked to
/// perform.
#[derive(Debug, Clone, Copy, PartialEq, Eq)]
pub enum StartupPhase {
    /// The worker binary is being looked for.
    CheckingBinary,
    /// The worker binary is being fetched.
    AcquiringBinary,
    /// The download directory is being created.
    EnsuringDownloadDir,
    /// The worker is being launched.
    StartingProcess,
    /// The control endpoint is being probed.
    Probing,
    /// The launched process is being looked at.
    CheckingProcess,
    /// The pause between two probes.
    Sleeping,
}

/// What the orchestrator asks its host to do while the worker comes up.
#[derive(Debug, PartialEq, Eq)]
pub enum DaemonEffect {
    /// See whether the worker binary exists at the path; report with
    /// [`DaemonEvent::BinaryPresent`].
    CheckBinary(String),
    /// Fetch the worker binary to the path; report with
    /// [`DaemonEvent::BinaryAcquired`].
    AcquireBinary(String),
    /// Create the directory unless it exists; report with
    /// [`DaemonEvent::DirectoryEnsured`].
    EnsureDirectory(String),
    /// Start the worker through the process handle of the startup; report
    /// with [`DaemonEvent::ProcessStarted`].
    StartProcess,
    /// Probe the control endpoint once; report with [`DaemonEvent::Probed`].
    ProbeEndpoint,
    /// Look at the owned process without blocking; report with
    /// [`DaemonEvent::Liveness`].
    CheckLiveness,
    /// Pause for so many milliseconds; report with [`DaemonEvent::Slept`].
    Sleep(u64),
}

/// A [`DaemonEffect`] with its texts as sequences of characters.
pub enum DaemonEffectView {
    CheckBinary(Seq<char>),
    AcquireBinary(Seq<char>),
    EnsureDirectory(Seq<char>),
    StartProcess,
    ProbeEndpoint,
    CheckLiveness,
    Sleep(u64),
}

impl View for DaemonEffect {
    type V = DaemonEffectView;

    open spec fn view(&self) -> DaemonEffectView {
        match *self {
            DaemonEffect::CheckBinary(path) => DaemonEffectView::CheckBinary(path@),
            DaemonEffect::AcquireBinary(path) => DaemonEffectView::AcquireBinary(path@),
            DaemonEffect::EnsureDirectory(path) => DaemonEffectView::EnsureDirectory(path@),
            DaemonEffect::StartProcess => DaemonEffectView::StartProcess,
            DaemonEffect::ProbeEndpoint => DaemonEffectView::ProbeEndpoint,
            DaemonEffect::CheckLiveness => DaemonEffectView::CheckLiveness,
            DaemonEffect::Sleep(millis) => DaemonEffectView::Sleep(millis),
        }
    }
}

/// What the host reports while the worker comes up. Times are counted in
/// milliseconds from the moment the launch succeeded.
#[derive(Debug, PartialEq, Eq)]
pub enum DaemonEvent {
    /// Whether the worker binary exists.
    BinaryPresent(bool),
    /// The worker binary is in place, or why it is not.
    BinaryAcquired(Result<(), Aria2Error>),
    /// The directory exists now, or the text says why it could not be made.
    DirectoryEnsured(Result<(), String>),
    /// What came of the launch.
    ProcessStarted(Result<(), Aria2Error>),
    /// Whether the control endpoint answered, and the time when the probe
    /// was over.
    Probed { answered: bool, elapsed_millis: u64 },
    /// What the look at the owned process showed.
    Liveness(ExitProbe),
    /// The pause is over, at this time.
    Slept { elapsed_millis: u64 },
}

/// A [`DaemonEvent`] with its texts as sequences of characters.
pub enum DaemonEventView {
    BinaryPresent(bool),
    BinaryAcquired(Result<(), Aria2ErrorView>),
    DirectoryEnsured(Result<(), Seq<char>>),
    ProcessStarted(Result<(), Aria2ErrorView>),
    Probed { answered: bool, elapsed_millis: u64 },
    Liveness(ExitProbe),
    Slept { elapsed_millis: u64 },
}

impl View for DaemonEvent {
    type V = DaemonEventView;

    open spec fn view(&self) -> DaemonEventView {
        match *self {
            DaemonEvent::BinaryPresent(present) => DaemonEventView::BinaryPresent(present),
            DaemonEvent::BinaryAcquired(Ok(_)) => DaemonEventView::BinaryAcquired(Ok(())),
            DaemonEvent::BinaryAcquired(Err(error)) => DaemonEventView::BinaryAcquired(
                Err(error@),
            ),
            DaemonEvent::DirectoryEnsured(Ok(_)) => DaemonEventView::DirectoryEnsured(Ok(())),
            DaemonEvent::DirectoryEnsured(Err(reason)) => DaemonEventView::DirectoryEnsured(
                Err(reason@),
            ),
            DaemonEvent::ProcessStarted(Ok(_)) => DaemonEventView::ProcessStarted(Ok(())),
            DaemonEvent::ProcessStarted(Err(error)) => DaemonEventView::ProcessStarted(
                Err(error@),
            ),
            DaemonEvent::Probed { answered, elapsed_millis } => DaemonEventView::Probed {
                answered,
                elapsed_millis,
            },
            DaemonEvent::Liveness(probe) => DaemonEventView::Liveness(probe),
            DaemonEvent::Slept { elapsed_millis } => DaemonEventView::Slept { elapsed_millis },
        }
    }
}

/// The state of a worker that is coming up.
pub struct DaemonStartupView<P> {
    /// The step under way.
    pub phase: StartupPhase,
    /// The process handle.
    pub process: ProcessHandleView<P>,
    /// Path of the worker binary.
    pub binary_path: Seq<char>,
    /// Seconds between two health checks of the monitor to come.
    pub health_check_interval_secs: u64,
    /// Probes of the control endpoint made so far.
    pub attempts: u32,
}

/// The state of a worker that is up.
pub struct Aria2DaemonView<P> {
    /// The process handle.
    pub process: ProcessHandleView<P>,
    /// The health monitor.
    pub monitor: HealthMonitorView,
}

/// How bringing the worker up goes on.
pub enum StartupStepView<P> {
    /// The host performs the effect and reports.
    Pending(DaemonStartupView<P>, DaemonEffectView),
    /// The worker answers; its monitor has been started and asks for the
    /// effect.
    Started(Aria2DaemonView<P>, MonitorEffect),
    /// The worker did not come up.
    Failed(Aria2ErrorView),
}

impl<P> DaemonStartupView<P> {
    /// The startup in another phase.
    pub open spec fn in_phase(self, phase: StartupPhase) -> Self {
        DaemonStartupView { phase, ..self }
    }

    /// The startup about to make one more probe.
    pub open spec fn probing_again(self) -> Self {
        DaemonStartupView {
            phase: StartupPhase::Probing,
            attempts: if self.attempts < u32::MAX {
                (self.attempts + 1) as u32
            } else {
                self.attempts
            },
            ..self
        }
    }

    /// The error that says the worker did not answer in time.
    pub open spec fn timed_out(self) -> Aria2ErrorView {
        Aria2ErrorView::DaemonUnavailable(
            "RPC not ready after 30 seconds (port "@ + decimal_digits(
                self.process.config.rpc_port as nat,
            ) + ", "@ + decimal_digits(self.attempts as nat) + " attempts)"@,
        )
    }

    /// The error that says the worker ended before it answered.
    pub open spec fn exited(self) -> Aria2ErrorView {
        Aria2ErrorView::ProcessManagementError(
            "aria2 process exited unexpectedly on port "@ + decimal_digits(
                self.process.config.rpc_port as nat,
            ),
        )
    }

    /// The worker that this startup becomes when the endpoint answers: the
    /// same process handle, and a monitor whose loop has begun.
    pub open spec fn ready(self) -> (Aria2DaemonView<P>, MonitorEffect) {
        let begun = monitoring_begins(
            HealthMonitorView {
                phase: MonitorPhase::Created,
                shutdown_requested: false,
                check_interval_secs: self.health_check_interval_secs,
            },
        );
        (Aria2DaemonView { process: self.process, monitor: begun.0 }, begun.1)
    }
}

/// The error reported when the host answers with something that the step
/// under way does not wait for.
pub open spec fn startup_protocol_failure() -> Aria2ErrorView {
    Aria2ErrorView::General("event does not answer the step under way"@)
}

/// Bringing the worker up begins with a look for the worker binary.
pub open spec fn startup_begins<P>(config: DaemonConfigView, binary_path: Seq<char>) -> (
    DaemonStartupView<P>,
    DaemonEffectView,
) {
    (
        DaemonStartupView {
            phase: StartupPhase::CheckingBinary,
            process: ProcessHandleView::created(binary_path, config.process_config()),
            binary_path,
            health_check_interval_secs: config.health_check_interval_secs,
            attempts: 0,
        },
        DaemonEffectView::CheckBinary(binary_path),
    )
}

/// What follows when the host reports `event` in state `pre`.
///
/// A missing binary is fetched; then the download directory is made and the
/// worker launched. Each failure so far ends the startup with its error.
/// After the launch the control endpoint is probed. An answer makes the
/// worker ready. Without an answer the startup fails if the deadline has
/// passed, and fails if the process has ended, telling the two apart;
/// otherwise it pauses and probes again, unless the deadline has passed
/// when the pause is over. An event that answers nothing the startup waits
/// for ends it with an error.
pub open spec fn startup_applies<P>(pre: DaemonStartupView<P>, event: DaemonEventView) -> StartupStepView<
    P,
> {
    match (pre.phase, event) {
        (StartupPhase::CheckingBinary, DaemonEventView::BinaryPresent(present)) => if present {
            StartupStepView::Pending(
                pre.in_phase(StartupPhase::EnsuringDownloadDir),
                DaemonEffectView::EnsureDirectory(pre.process.config.download_dir),
            )
        } else {
            StartupStepView::Pending(
                pre.in_phase(StartupPhase::AcquiringBinary),
                DaemonEffectView::AcquireBinary(pre.binary_path),
            )
        },
        (StartupPhase::AcquiringBinary, DaemonEventView::BinaryAcquired(Ok(_))) => {
            StartupStepView::Pending(
                pre.in_phase(StartupPhase::EnsuringDownloadDir),
                DaemonEffectView::EnsureDirectory(pre.process.config.download_dir),
            )
        },
        (StartupPhase::AcquiringBinary, DaemonEventView::BinaryAcquired(Err(error))) => {
            StartupStepView::Failed(error)
        },
        (StartupPhase::EnsuringDownloadDir, DaemonEventView::DirectoryEnsured(Ok(_))) => {
            StartupStepView::Pending(
                pre.in_phase(StartupPhase::StartingProcess),
                DaemonEffectView::StartProcess,
            )
        },
        (StartupPhase::EnsuringDownloadDir, DaemonEventView::DirectoryEnsured(Err(reason))) => {
            StartupStepView::Failed(Aria2ErrorView::IoError(reason))
        },
        (StartupPhase::StartingProcess, DaemonEventView::ProcessStarted(Ok(_))) => {
            StartupStepView::Pending(pre.probing_again(), DaemonEffectView::ProbeEndpoint)
        },
        (StartupPhase::StartingProcess, DaemonEventView::ProcessStarted(Err(error))) => {
            StartupStepView::Failed(error)
        },
        (StartupPhase::Probing, DaemonEventView::Probed { answered, elapsed_millis }) => {
            if answered {
                StartupStepView::Started(pre.ready().0, pre.ready().1)
            } else if elapsed_millis >= READINESS_TIMEOUT_MILLIS {
                StartupStepView::Failed(pre.timed_out())
            } else {
                StartupStepView::Pending(
                    pre.in_phase(StartupPhase::CheckingProcess),
                    DaemonEffectView::CheckLiveness,
                )
            }
        },
        (StartupPhase::CheckingProcess, DaemonEventView::Liveness(probe)) => {
            let (observed, running) = liveness_observed(pre.process, probe);
            if running {
                StartupStepView::Pending(
                    DaemonStartupView {
                        phase: StartupPhase::Sleeping,
                        process: observed,
                        ..pre
                    },
                    DaemonEffectView::Sleep(READINESS_POLL_MILLIS),
                )
            } else {
                StartupStepView::Failed(pre.exited())
            }
        },
        (StartupPhase::Sleeping, DaemonEventView::Slept { elapsed_millis }) => {
            if elapsed_millis >= READINESS_TIMEOUT_MILLIS {
                StartupStepView::Failed(pre.timed_out())
            } else {
                StartupStepView::Pending(pre.probing_again(), DaemonEffectView::ProbeEndpoint)
            }
        },
        _ => StartupStepView::Failed(startup_protocol_failure()),
    }
}

/// The order of a startup on a host where every step works and the worker
/// answers the first probe: the binary is looked for, and fetched if it is
/// missing; the download directory is made; the worker is launched; and
/// the control endpoint is probed.
pub proof fn lemma_startup_order<P>(
    config: DaemonConfigView,
    binary_path: Seq<char>,
    present: bool,
)
    ensures
        ({
            let begun = startup_begins::<P>(config, binary_path);
            let looked = startup_applies(begun.0, DaemonEventView::BinaryPresent(present));
            let acquired = if present {
                looked
            } else {
                startup_applies(looked->Pending_0, DaemonEventView::BinaryAcquired(Ok(())))
            };
            let ensured = startup_applies(
                acquired->Pending_0,
                DaemonEventView::DirectoryEnsured(Ok(())),
            );
            let launched = startup_applies(
                ensured->Pending_0,
                DaemonEventView::ProcessStarted(Ok(())),
            );
            let answered = startup_applies(
                launched->Pending_0,
                DaemonEventView::Probed { answered: true, elapsed_millis: 0 },
            );
            &&& begun.1 == DaemonEffectView::CheckBinary(binary_path)
            &&& !present ==> (looked matches StartupStepView::Pending(_, effect) && effect
                == DaemonEffectView::AcquireBinary(binary_path))
            &&& acquired matches StartupStepView::Pending(_, effect) && effect
                == DaemonEffectView::EnsureDirectory(config.download_dir)
            &&& ensured matches StartupStepView::Pending(_, effect) && effect
                == DaemonEffectView::StartProcess
            &&& launched matches StartupStepView::Pending(startup, effect) && effect
                == DaemonEffectView::ProbeEndpoint && startup.attempts == 1
            &&& answered is Started
        }),
{
}

/// Only an answer of the control endpoint makes the worker count as up,
/// and the worker that is up then has the process handle of the startup,
/// with its monitor waiting for the first tick.
pub proof fn lemma_only_an_answer_starts<P>(pre: DaemonStartupView<P>, event: DaemonEventView)
    ensures
        startup_applies(pre, event) matches StartupStepView::Started(daemon, effect) ==> {
            &&& pre.phase == StartupPhase::Probing
            &&& event matches DaemonEventView::Probed { answered: true, .. }
            &&& daemon.process == pre.process
            &&& daemon.monitor.phase == MonitorPhase::AwaitingTick
            &&& !daemon.monitor.shutdown_requested
            &&& daemon.monitor.check_interval_secs == pre.health_check_interval_secs
            &&& effect == MonitorEffect::AwaitTick
        },
        pre.phase == StartupPhase::Probing ==> startup_applies(
            pre,
            DaemonEventView::Probed { answered: true, elapsed_millis: 0 },
        ) is Started,
{
}

/// The wait for readiness does not outlast its deadline: once the time
/// that the host reports has reached it, a probe without an answer and the
/// end of a pause both end the startup with the error that says so, and
/// nothing more is asked of the host.
pub proof fn lemma_deadline_ends_the_wait<P>(pre: DaemonStartupView<P>, elapsed_millis: u64)
    requires
        elapsed_millis >= READINESS_TIMEOUT_MILLIS,
    ensures
        pre.phase == StartupPhase::Probing ==> startup_applies(
            pre,
            DaemonEventView::Probed { answered: false, elapsed_millis },
        ) == StartupStepView::<P>::Failed(pre.timed_out()),
        pre.phase == StartupPhase::Sleeping ==> startup_applies(
            pre,
            DaemonEventView::Slept { elapsed_millis },
        ) == StartupStepView::<P>::Failed(pre.timed_out()),
{
}

/// A worker whose process has ended fails the startup at the next look,
/// without waiting for the deadline; one whose process runs is probed again
/// after the pause.
pub proof fn lemma_ended_process_fails_fast<P>(pre: DaemonStartupView<P>, probe: ExitProbe)
    requires
        pre.phase == StartupPhase::CheckingProcess,
    ensures
        !liveness_observed(pre.process, probe).1 ==> startup_applies(
            pre,
            DaemonEventView::Liveness(probe),
        ) == StartupStepView::<P>::Failed(pre.exited()),
        liveness_observed(pre.process, probe).1 ==> startup_applies(
            pre,
            DaemonEventView::Liveness(probe),
        ) == StartupStepView::Pending(
            pre.in_phase(StartupPhase::Sleeping),
            DaemonEffectView::Sleep(READINESS_POLL_MILLIS),
        ),
{
}

/// A worker that is coming up.
#[derive(Debug)]
pub struct DaemonStartup<P> {
    phase: StartupPhase,
    process: ProcessHandle<P>,
    binary_path: String,
    health_check_interval_secs: u64,
    attempts: u32,
}

impl<P> View for DaemonStartup<P> {
    type V = DaemonStartupView<P>;

    closed spec fn view(&self) -> DaemonStartupView<P> {
        DaemonStartupView {
            phase: self.phase,
            process: self.process@,
            binary_path: self.binary_path@,
            health_check_interval_secs: self.health_check_interval_secs,
            attempts: self.attempts,
        }
    }
}

/// The worker, up and supervised: the process handle and the health monitor
/// that watches it.
#[derive(Debug)]
pub struct Aria2Daemon<P> {
    process: ProcessHandle<P>,
    monitor: HealthMonitor,
}

impl<P> View for Aria2Daemon<P> {
    type V = Aria2DaemonView<P>;

    closed spec fn view(&self) -> Aria2DaemonView<P> {
        Aria2DaemonView { process: self.process@, monitor: self.monitor@ }
    }
}

/// How bringing the worker up goes on.
#[derive(Debug)]
pub enum StartupStep<P> {
    /// The host performs the effect and reports to the startup.
    Pending(DaemonStartup<P>, DaemonEffect),
    /// The worker answers; its monitor has been started and asks for the
    /// effect.
    Started(Aria2Daemon<P>, MonitorEffect),
    /// The worker did not come up.
    Failed(Aria2Error),
}

impl<P> View for StartupStep<P> {
    type V = StartupStepView<P>;

    open spec fn view(&self) -> StartupStepView<P> {
        match *self {
            StartupStep::Pending(startup, effect) => StartupStepView::Pending(startup@, effect@),
            StartupStep::Started(daemon, effect) => StartupStepView::Started(daemon@, effect),
            StartupStep::Failed(error) => StartupStepView::Failed(error@),
        }
    }
}

impl<P> DaemonStartup<P> {
    /// The process handle, for the host to launch the worker and to look at
    /// the process.
    pub fn process_mut(&mut self) -> (process: &mut ProcessHandle<P>)
        ensures
            process@ == old(self)@.process,
            final(self)@ == (DaemonStartupView { process: final(process)@, ..old(self)@ }),
    {
        &mut self.process
    }

    fn timed_out(&self) -> (error: Aria2Error)
        ensures
            error@ == self@.timed_out(),
    {
        let mut text = String::from_str("RPC not ready after 30 seconds (port ");
        push_decimal(&mut text, self.process.rpc_port() as u64);
        text.append(", ");
        push_decimal(&mut text, self.attempts as u64);
        text.append(" attempts)");
        Aria2Error::DaemonUnavailable(text)
    }

    fn exited(&self) -> (error: Aria2Error)
        ensures
            error@ == self@.exited(),
    {
        let mut text = String::from_str("aria2 process exited unexpectedly on port ");
        push_decimal(&mut text, self.process.rpc_port() as u64);
        Aria2Error::ProcessManagementError(text)
    }

    fn probe_again(self) -> (step: StartupStep<P>)
        ensures
            step@ == StartupStepView::Pending(self@.probing_again(), DaemonEffectView::ProbeEndpoint),
    {
        let attempts = if self.attempts < u32::MAX {
            self.attempts + 1
        } else {
            self.attempts
        };
        StartupStep::Pending(
            DaemonStartup { phase: StartupPhase::Probing, attempts, ..self },
            DaemonEffect::ProbeEndpoint,
        )
    }

    fn ensure_download_dir(self) -> (step: StartupStep<P>)
        ensures
            step@ == StartupStepView::Pending(
                self@.in_phase(StartupPhase::EnsuringDownloadDir),
                DaemonEffectView::EnsureDirectory(self@.process.config.download_dir),
            ),
    {
        let dir = self.process.download_dir();
        StartupStep::Pending(
            DaemonStartup { phase: StartupPhase::EnsuringDownloadDir, ..self },
            DaemonEffect::EnsureDirectory(dir),
        )
    }

    /// Takes what the host reports and says how the startup goes on.
    pub fn resume(self, event: DaemonEvent) -> (step: StartupStep<P>)
        ensures
            step@ == startup_applies(self@, event@),
    {
        match (self.phase, event) {
            (StartupPhase::CheckingBinary, DaemonEvent::BinaryPresent(present)) => {
                if present {
                    self.ensure_download_dir()
                } else {
                    let path = self.binary_path.clone();
                    StartupStep::Pending(
                        DaemonStartup { phase: StartupPhase::AcquiringBinary, ..self },
                        DaemonEffect::AcquireBinary(path),
                    )
                }
            },
            (StartupPhase::AcquiringBinary, DaemonEvent::BinaryAcquired(Ok(_))) => {
                self.ensure_download_dir()
            },
            (StartupPhase::AcquiringBinary, DaemonEvent::BinaryAcquired(Err(error))) => {
                StartupStep::Failed(error)
            },
            (StartupPhase::EnsuringDownloadDir, DaemonEvent::DirectoryEnsured(Ok(_))) => {
                StartupStep::Pending(
                    DaemonStartup { phase: StartupPhase::StartingProcess, ..self },
                    DaemonEffect::StartProcess,
                )
            },
            (StartupPhase::EnsuringDownloadDir, DaemonEvent::DirectoryEnsured(Err(reason))) => {
                StartupStep::Failed(Aria2Error::IoError(reason))
            },
            (StartupPhase::StartingProcess, DaemonEvent::ProcessStarted(Ok(_))) => {
                self.probe_again()
            },
            (StartupPhase::StartingProcess, DaemonEvent::ProcessStarted(Err(error))) => {
                StartupStep::Failed(error)
            },
            (StartupPhase::Probing, DaemonEvent::Probed { answered, elapsed_millis }) => {
                if answered {
                    let mut monitor = HealthMonitor::new(self.health_check_interval_secs);
                    let effect = monitor.start();
                    StartupStep::Started(Aria2Daemon { process: self.process, monitor }, effect)
                } else if elapsed_millis >= READINESS_TIMEOUT_MILLIS {
                    StartupStep::Failed(self.timed_out())
                } else {
                    StartupStep::Pending(
                        DaemonStartup { phase: StartupPhase::CheckingProcess, ..self },
                        DaemonEffect::CheckLiveness,
                    )
                }
            },
            (StartupPhase::CheckingProcess, DaemonEvent::Liveness(probe)) => {
                let mut startup = self;
                let error = startup.exited();
                if startup.process.is_running(probe) {
                    StartupStep::Pending(
                        DaemonStartup { phase: StartupPhase::Sleeping, ..startup },
                        DaemonEffect::Sleep(READINESS_POLL_MILLIS),
                    )
                } else {
                    StartupStep::Failed(error)
                }
            },
            (StartupPhase::Sleeping, DaemonEvent::Slept { elapsed_millis }) => {
                if elapsed_millis >= READINESS_TIMEOUT_MILLIS {
                    StartupStep::Failed(self.timed_out())
                } else {
                    self.probe_again()
                }
            },
            _ => StartupStep::Failed(
                Aria2Error::General(String::from_str("event does not answer the step under way")),
            ),
        }
    }
}

impl<P> Aria2Daemon<P> {
    /// Begins to bring the worker up with the binary in its place on this
    /// machine, and says what the host does first.
    pub fn start(config: DaemonConfig) -> (begun: (DaemonStartup<P>, DaemonEffect))
        ensures
            exists|platform: Platform, dirs: HostDirsView|
                (begun.0@, begun.1@) == startup_begins::<P>(
                    config@,
                    #[trigger] binary_path_spec(platform, dirs),
                ),
    {
        Self::start_with(config, get_binary_path())
    }

    /// Begins to bring the worker up with the binary at `binary_path`, and
    /// says what the host does first.
    pub fn start_with(config: DaemonConfig, binary_path: String) -> (begun: (
        DaemonStartup<P>,
        DaemonEffect,
    ))
        ensures
            (begun.0@, begun.1@) == startup_begins::<P>(config@, binary_path@),
    {
        let effect = DaemonEffect::CheckBinary(binary_path.clone());
        let process = ProcessHandle::new(binary_path.clone(), config.process_config());
        (
            DaemonStartup {
                phase: StartupPhase::CheckingBinary,
                process,
                binary_path,
                health_check_interval_secs: config.health_check_interval_secs,
                attempts: 0,
            },
            effect,
        )
    }

    /// Begins to tear the worker down: the monitor is asked to end, and
    /// the stop of the process begins, whose first effect is returned. The
    /// host goes on with the process handle.
    pub fn stop(&mut self) -> (effect: ProcessEffect<P>)
        ensures
            final(self)@.monitor == old(self)@.monitor.shutting_down(),
            (final(self)@.process, effect@) == stop_begins(old(self)@.process),
    {
        self.monitor.shutdown();
        self.process.stop_process()
    }

    /// Says whether the worker process runs, given what a non-blocking look
    /// at it showed. That the control endpoint answers is not claimed: the
    /// monitor looks after that at its own pace.
    pub fn is_healthy(&mut self, probe: ExitProbe) -> (healthy: bool)
        ensures
            (final(self)@.process, healthy) == liveness_observed(old(self)@.process, probe),
            final(self)@.monitor == old(self)@.monitor,
    {
        self.process.is_running(probe)
    }

    /// Hands an event of the supervision loop to the monitor and says what
    /// the host does next.
    pub fn supervise(&mut self, event: MonitorEvent) -> (effect: MonitorEffect)
        ensures
            (final(self)@.monitor, final(self)@.process, effect) == event_applies(
                old(self)@.monitor,
                old(self)@.process,
                event,
            ),
    {
        self.monitor.resume(&mut self.process, event)
    }

    /// The process handle, for the host to start and stop the worker and to
    /// look at the process.
    pub fn process_mut(&mut self) -> (process: &mut ProcessHandle<P>)
        ensures
            process@ == old(self)@.process,
            final(self)@ == (Aria2DaemonView { process: final(process)@, ..old(self)@ }),
    {
        &mut self.process
    }

    /// The health monitor.
    pub fn monitor(&self) -> (monitor: &HealthMonitor)
        ensures
            monitor@ == self@.monitor,
    {
        &self.monitor
    }
}

} // verus!
