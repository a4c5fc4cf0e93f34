//! Launching the worker as a daemon and watching over it.

use crate::daemon::platform::Platform;
use crate::daemon::process::ExitProbe;
use crate::simple::rpc::{endpoint_url, Aria2RpcClient, Aria2RpcClientView};
use crate::simple::{
    unit_result, Aria2Config, Aria2ConfigView, Aria2Error, Aria2ErrorView, Aria2Result,
    DEFAULT_PORT, MAX_PORT_RANGE, READINESS_ATTEMPTS, READINESS_PAUSE_SECS,
};
use crate::text::{clone_text, decimal_digits, joined, push_decimal, push_text, text_of, views};
use vstd::prelude::*;
use vstd::string::StringExecFns;

verus! {

/// The command line of the worker when it is run as a daemon on `port`.
pub open spec fn rpc_arguments_spec(config: Aria2ConfigView, port: u16) -> Seq<Seq<char>> {
    seq![
        "--enable-rpc"@,
        "--rpc-listen-all"@,
        "--rpc-listen-port="@ + decimal_digits(port as nat),
        "--dir="@ + config.download_dir,
        "--max-connection-per-server="@ + decimal_digits(config.max_connections as nat),
        "--split="@ + decimal_digits(config.max_connections as nat),
        "--min-split-size="@ + config.split_size,
        "--continue=true"@,
        "--max-tries=0"@,
        "--retry-wait=3"@,
        "--daemon=true"@,
    ] + (match config.secret {
        Some(secret) => seq!["--rpc-secret="@ + secret],
        None => seq![],
    })
}

fn push_number_option(args: &mut Vec<String>, option: &str, number: u64)
    ensures
        views(final(args)@) == views(old(args)@).push(option@ + decimal_digits(number as nat)),
{
    let mut text = String::from_str(option);
    push_decimal(&mut text, number);
    push_text(args, text.as_str());
}

fn push_text_option(args: &mut Vec<String>, option: &str, value: &str)
    ensures
        views(final(args)@) == views(old(args)@).push(option@ + value@),
{
    let text = joined(option, value);
    push_text(args, text.as_str());
}

/// Builds the command line of the worker for `port`.
pub fn rpc_arguments(config: &Aria2Config, port: u16) -> (args: Vec<String>)
    ensures
        views(args@) == rpc_arguments_spec(config@, port),
{
    let mut args: Vec<String> = Vec::new();
    assert(views(args@) =~= Seq::<Seq<char>>::empty());
    push_text(&mut args, "--enable-rpc");
    push_text(&mut args, "--rpc-listen-all");
    push_number_option(&mut args, "--rpc-listen-port=", port as u64);
    push_text_option(&mut args, "--dir=", config.download_dir.as_str());
    push_number_option(&mut args, "--max-connection-per-server=", config.max_connections as u64);
    push_number_option(&mut args, "--split=", config.max_connections as u64);
    push_text_option(&mut args, "--min-split-size=", config.split_size.as_str());
    push_text(&mut args, "--continue=true");
    push_text(&mut args, "--max-tries=0");
    push_text(&mut args, "--retry-wait=3");
    push_text(&mut args, "--daemon=true");
    match &config.secret {
        Some(secret) => {
            push_text_option(&mut args, "--rpc-secret=", secret.as_str());
        },
        None => {},
    }
    assert(views(args@) =~= rpc_arguments_spec(config@, port));
    args
}

/// Finds the first port of the range that `probe` reports as free, asking
/// about each candidate once and in ascending order. The range begins at
/// [`DEFAULT_PORT`] and has [`MAX_PORT_RANGE`] ports above it.
pub fn find_available_port<F: Fn(u16) -> bool>(probe: F) -> (found: Aria2Result<u16>)
    requires
        forall|port: u16|
            DEFAULT_PORT <= port <= DEFAULT_PORT + MAX_PORT_RANGE ==> #[trigger] probe.requires(
                (port,),
            ),
    ensures
        match found {
            Ok(port) => DEFAULT_PORT <= port <= DEFAULT_PORT + MAX_PORT_RANGE && probe.ensures(
                (port,),
                true,
            ) && forall|earlier: u16|
                DEFAULT_PORT <= earlier < port ==> probe.ensures((earlier,), false),
            Err(error) => error@ == Aria2ErrorView::PortError("未找到可用端口"@) && forall|port: u16|
                DEFAULT_PORT <= port <= DEFAULT_PORT + MAX_PORT_RANGE ==> probe.ensures(
                    (port,),
                    false,
                ),
        },
{
    let mut port: u16 = DEFAULT_PORT;
    while port <= DEFAULT_PORT + MAX_PORT_RANGE
        invariant
            DEFAULT_PORT <= port <= DEFAULT_PORT + MAX_PORT_RANGE + 1,
            forall|port: u16|
            DEFAULT_PORT <= port <= DEFAULT_PORT + MAX_PORT_RANGE ==> #[trigger] probe.requires(
                (port,),
            ),
            forall|earlier: u16| DEFAULT_PORT <= earlier < port ==> probe.ensures((earlier,), false),
        decreases DEFAULT_PORT + MAX_PORT_RANGE + 1 - port,
    {
        if probe(port) {
            return Ok(port);
        }
        port = port + 1;
    }
    Err(Aria2Error::PortError(String::from_str("未找到可用端口")))
}

/// How the wait for the control endpoint goes on after a probe.
#[derive(Debug, PartialEq, Eq)]
pub enum ReadinessStep {
    /// The endpoint answers.
    Ready,
    /// The host pauses for so many seconds and probes again.
    RetryAfter(u64),
    /// The host pauses for so many seconds and gives up with the error.
    GiveUpAfter(u64, Aria2Error),
}

/// The error that says the control endpoint did not answer in time.
pub open spec fn readiness_timeout() -> Aria2ErrorView {
    Aria2ErrorView::RpcError("RPC 服务启动超时"@)
}

/// Says how the wait for the control endpoint goes on after probe number
/// `attempt`, counted from one: an answer ends it; without one the host
/// pauses and probes again, and after the last probe it pauses and gives
/// up.
pub fn wait_for_rpc_ready(attempt: u32, answered: bool) -> (step: ReadinessStep)
    ensures
        answered ==> step == ReadinessStep::Ready,
        !answered && attempt < READINESS_ATTEMPTS ==> step == ReadinessStep::RetryAfter(
            READINESS_PAUSE_SECS,
        ),
        !answered && attempt >= READINESS_ATTEMPTS ==> (step matches ReadinessStep::GiveUpAfter(
            secs,
            error,
        ) && secs == READINESS_PAUSE_SECS && error@ == readiness_timeout()),
{
    if answered {
        ReadinessStep::Ready
    } else if attempt < READINESS_ATTEMPTS {
        ReadinessStep::RetryAfter(READINESS_PAUSE_SECS)
    } else {
        ReadinessStep::GiveUpAfter(
            READINESS_PAUSE_SECS,
            Aria2Error::RpcError(String::from_str("RPC 服务启动超时")),
        )
    }
}

/// A running worker: its process, its port and how it was configured. `P`
/// is the host's own type for a spawned process.
#[derive(Debug, PartialEq, Eq)]
pub struct Aria2Instance<P> {
    /// The process.
    pub process: P,
    /// Port of the control endpoint.
    pub port: u16,
    /// The configuration that the worker was launched with.
    pub config: Aria2Config,
}

impl<P> Aria2Instance<P> {
    /// Says whether the worker runs, given what a non-blocking look at its
    /// process showed.
    pub fn is_running(&self, probe: ExitProbe) -> (running: bool)
        ensures
            running == (probe == ExitProbe::StillRunning),
    {
        match probe {
            ExitProbe::StillRunning => true,
            _ => false,
        }
    }

    /// Says what came of terminating the worker, given the failure of the
    /// termination signal and the failure of the wait for the process,
    /// where there was one: the first failure is the error.
    pub fn kill(signal_failure: Option<String>, wait_failure: Option<String>) -> (outcome:
        Aria2Result<()>)
        ensures
            unit_result(outcome) == (match (text_of(signal_failure), text_of(wait_failure)) {
                (Some(reason), _) => Err(Aria2ErrorView::ProcessError(reason)),
                (None, Some(reason)) => Err(Aria2ErrorView::ProcessError(reason)),
                (None, None) => Ok(()),
            }),
    {
        match signal_failure {
            Some(reason) => Err(Aria2Error::ProcessError(reason)),
            None => match wait_failure {
                Some(reason) => Err(Aria2Error::ProcessError(reason)),
                None => Ok(()),
            },
        }
    }
}

/// What a launch of the worker needs: the port, and the command line.
#[derive(Debug, PartialEq, Eq)]
pub struct LaunchPlan {
    /// Port of the control endpoint.
    pub port: u16,
    /// Path of the worker binary.
    pub binary: String,
    /// The command line.
    pub args: Vec<String>,
}

/// Plans a launch of the worker: the first free port of the range is
/// taken, and the command line is built for it. Without a free port there
/// is no launch.
pub fn start_aria2_rpc<F: Fn(u16) -> bool>(config: &Aria2Config, probe: F) -> (plan: Aria2Result<
    LaunchPlan,
>)
    requires
        forall|port: u16|
            DEFAULT_PORT <= port <= DEFAULT_PORT + MAX_PORT_RANGE ==> #[trigger] probe.requires(
                (port,),
            ),
    ensures
        match plan {
            Ok(plan) => DEFAULT_PORT <= plan.port <= DEFAULT_PORT + MAX_PORT_RANGE
                && probe.ensures((plan.port,), true) && (forall|earlier: u16|
                DEFAULT_PORT <= earlier < plan.port ==> probe.ensures((earlier,), false))
                && plan.binary@ == config@.aria2_path && views(plan.args@) == rpc_arguments_spec(
                config@,
                plan.port,
            ),
            Err(error) => error@ == Aria2ErrorView::PortError("未找到可用端口"@) && forall|port: u16|
                DEFAULT_PORT <= port <= DEFAULT_PORT + MAX_PORT_RANGE ==> probe.ensures(
                    (port,),
                    false,
                ),
        },
{
    match find_available_port(probe) {
        Ok(port) => Ok(
            LaunchPlan { port, binary: config.aria2_path.clone(), args: rpc_arguments(config, port) },
        ),
        Err(error) => Err(error),
    }
}

/// What the watch over the worker asks its host to do.
#[derive(Debug, Clone, Copy, PartialEq, Eq)]
pub enum WatchStep {
    /// Leave the loop: the daemon has been stopped.
    Exit,
    /// Look again after the interval.
    Wait,
    /// Launch the worker again, then look again after the interval.
    Restart,
}

/// The state of a daemon.
pub struct Aria2DaemonView<P> {
    /// The running worker, if there is one.
    pub instance: Option<Aria2Instance<P>>,
    /// How the worker is run.
    pub config: Aria2ConfigView,
    /// Whether the daemon has been started and not stopped.
    pub is_running: bool,
}

/// The error that says the daemon runs already.
pub open spec fn already_running() -> Aria2ErrorView {
    Aria2ErrorView::DaemonError("守护进程已在运行"@)
}

/// The error that says the manager has a daemon already.
pub open spec fn already_exists() -> Aria2ErrorView {
    Aria2ErrorView::DaemonError("守护进程已存在"@)
}

/// What the watch does on a look at the worker: a stopped daemon leaves
/// the loop; a worker that is gone, or has ended, is launched again; one
/// that runs is left alone.
pub open spec fn watch_of<P>(daemon: Aria2DaemonView<P>, probe: ExitProbe) -> WatchStep {
    if !daemon.is_running {
        WatchStep::Exit
    } else if daemon.instance is None || probe != ExitProbe::StillRunning {
        WatchStep::Restart
    } else {
        WatchStep::Wait
    }
}

/// The worker run as a daemon: launched once, and launched again whenever
/// it is found to have ended.
#[derive(Debug, PartialEq, Eq)]
pub struct Aria2Daemon<P> {
    instance: Option<Aria2Instance<P>>,
    config: Aria2Config,
    is_running: bool,
}

impl<P> View for Aria2Daemon<P> {
    type V = Aria2DaemonView<P>;

    closed spec fn view(&self) -> Aria2DaemonView<P> {
        Aria2DaemonView {
            instance: self.instance,
            config: self.config@,
            is_running: self.is_running,
        }
    }
}

impl<P> Aria2Daemon<P> {
    /// A daemon that has not been started.
    pub fn new(config: Aria2Config) -> (daemon: Self)
        ensures
            daemon@ == (Aria2DaemonView::<P> {
                instance: None,
                config: config@,
                is_running: false,
            }),
    {
        Aria2Daemon { instance: None, config, is_running: false }
    }

    /// How the worker is run.
    pub fn config(&self) -> (config: &Aria2Config)
        ensures
            config@ == self@.config,
    {
        &self.config
    }

    /// Says whether the daemon may be started: one that runs may not.
    pub fn start(&self) -> (allowed: Aria2Result<()>)
        ensures
            unit_result(allowed) == (if self@.is_running {
                Err(already_running())
            } else {
                Ok(())
            }),
    {
        if self.is_running {
            Err(Aria2Error::DaemonError(String::from_str("守护进程已在运行")))
        } else {
            Ok(())
        }
    }

    /// Takes the worker that was launched: the daemon runs from now on.
    pub fn started(&mut self, instance: Aria2Instance<P>)
        ensures
            final(self)@ == (Aria2DaemonView {
                instance: Some(instance),
                is_running: true,
                ..old(self)@
            }),
    {
        self.instance = Some(instance);
        self.is_running = true;
    }

    /// The running worker, for the host to look at its process.
    pub fn instance_mut(&mut self) -> (instance: Option<&mut Aria2Instance<P>>)
        ensures
            match instance {
                Some(borrowed) => old(self)@.instance == Some(*borrowed) && final(self)@ == (
                Aria2DaemonView { instance: Some(*final(borrowed)), ..old(self)@ }),
                None => old(self)@.instance is None && final(self)@ == old(self)@,
            },
    {
        self.instance.as_mut()
    }

    /// Says what the watch does, given what a non-blocking look at the
    /// process of the worker showed. Where there is no worker the value
    /// does not matter.
    pub fn watch(&self, probe: ExitProbe) -> (step: WatchStep)
        ensures
            step == watch_of(self@, probe),
    {
        if !self.is_running {
            WatchStep::Exit
        } else {
            match (&self.instance, probe) {
                (Some(_), ExitProbe::StillRunning) => WatchStep::Wait,
                _ => WatchStep::Restart,
            }
        }
    }

    /// Takes what came of launching the worker again: a new worker takes
    /// the place of the old, a failure leaves everything as it is.
    pub fn restarted(&mut self, launched: Aria2Result<Aria2Instance<P>>)
        ensures
            final(self)@ == (match launched {
                Ok(instance) => Aria2DaemonView { instance: Some(instance), ..old(self)@ },
                Err(_) => old(self)@,
            }),
    {
        match launched {
            Ok(instance) => {
                self.instance = Some(instance);
            },
            Err(_) => {},
        }
    }

    /// Stops the daemon and hands out the worker, for the host to
    /// terminate it.
    pub fn stop(&mut self) -> (instance: Option<Aria2Instance<P>>)
        ensures
            instance == old(self)@.instance,
            final(self)@ == (Aria2DaemonView {
                instance: None,
                is_running: false,
                ..old(self)@
            }),
    {
        self.is_running = false;
        self.instance.take()
    }

    /// A client for the control endpoint of the running worker.
    pub fn get_rpc_client(&self) -> (client: Option<Aria2RpcClient>)
        ensures
            match self@.instance {
                Some(instance) => client matches Some(client) && client@ == (Aria2RpcClientView {
                    base_url: endpoint_url(instance.port),
                    secret: self@.config.secret,
                    request_id: 1,
                }),
                None => client is None,
            },
    {
        match &self.instance {
            Some(instance) => Some(Aria2RpcClient::new(instance.port, clone_text(&self.config.secret))),
            None => None,
        }
    }

    /// Whether the daemon has been started and not stopped.
    pub fn is_running(&self) -> (running: bool)
        ensures
            running == self@.is_running,
    {
        self.is_running
    }
}

/// The state of a manager.
pub struct Aria2ManagerView<P> {
    /// The daemon, once it has been started.
    pub daemon: Option<Aria2DaemonView<P>>,
    /// How the worker is run.
    pub config: Aria2ConfigView,
}

/// The one entry point: configuration, binary and daemon in one place.
#[derive(Debug, PartialEq, Eq)]
pub struct Aria2Manager<P> {
    daemon: Option<Aria2Daemon<P>>,
    config: Aria2Config,
}

impl<P> View for Aria2Manager<P> {
    type V = Aria2ManagerView<P>;

    closed spec fn view(&self) -> Aria2ManagerView<P> {
        Aria2ManagerView {
            daemon: match self.daemon {
                Some(daemon) => Some(daemon@),
                None => None,
            },
            config: self.config@,
        }
    }
}

impl<P> Aria2Manager<P> {
    /// A manager with the default configuration for the given host.
    pub fn new(platform: Platform, current_dir: &Option<String>, user_profile: &Option<String>) -> (manager:
        Self)
        ensures
            manager@ == (Aria2ManagerView::<P> {
                daemon: None,
                config: Aria2ConfigView::default_for(
                    platform,
                    text_of(*current_dir),
                    text_of(*user_profile),
                ),
            }),
    {
        Aria2Manager { daemon: None, config: Aria2Config::for_host(platform, current_dir, user_profile) }
    }

    /// A manager with the given configuration.
    pub fn with_config(config: Aria2Config) -> (manager: Self)
        ensures
            manager@ == (Aria2ManagerView::<P> { daemon: None, config: config@ }),
    {
        Aria2Manager { daemon: None, config }
    }

    /// How the worker is run.
    pub fn config(&self) -> (config: &Aria2Config)
        ensures
            config@ == self@.config,
    {
        &self.config
    }

    /// Takes what came of getting the worker binary: its path becomes part
    /// of the configuration, a failure is handed on.
    pub fn download_and_setup(&mut self, downloaded: Aria2Result<String>) -> (outcome: Aria2Result<
        (),
    >)
        ensures
            match downloaded {
                Ok(path) => outcome is Ok && final(self)@ == (Aria2ManagerView {
                    config: Aria2ConfigView { aria2_path: path@, ..old(self)@.config },
                    ..old(self)@
                }),
                Err(error) => outcome == Err::<(), Aria2Error>(error) && final(self)@ == old(
                    self,
                )@,
            },
    {
        match downloaded {
            Ok(path) => {
                self.config.aria2_path = path;
                Ok(())
            },
            Err(error) => Err(error),
        }
    }

    /// Makes the daemon of this manager, which has yet to be launched and
    /// adopted. A manager that has a daemon makes no second.
    pub fn start_daemon(&self) -> (daemon: Aria2Result<Aria2Daemon<P>>)
        ensures
            match self@.daemon {
                Some(_) => daemon matches Err(error) && error@ == already_exists(),
                None => daemon matches Ok(daemon) && daemon@ == (Aria2DaemonView::<P> {
                    instance: None,
                    config: self@.config,
                    is_running: false,
                }),
            },
    {
        match &self.daemon {
            Some(_) => Err(Aria2Error::DaemonError(String::from_str("守护进程已存在"))),
            None => Ok(Aria2Daemon::new(self.config.clone())),
        }
    }

    /// Takes the daemon once it has been launched.
    pub fn adopt(&mut self, daemon: Aria2Daemon<P>)
        ensures
            final(self)@ == (Aria2ManagerView { daemon: Some(daemon@), ..old(self)@ }),
    {
        self.daemon = Some(daemon);
    }

    /// The daemon, for the host to watch over the worker.
    pub fn daemon_mut(&mut self) -> (daemon: Option<&mut Aria2Daemon<P>>)
        ensures
            match daemon {
                Some(borrowed) => old(self)@.daemon == Some(borrowed@) && final(self)@ == (
                Aria2ManagerView { daemon: Some(final(borrowed)@), ..old(self)@ }),
                None => old(self)@.daemon is None && final(self)@ == old(self)@,
            },
    {
        self.daemon.as_mut()
    }

    /// A client that the manager keeps. It keeps none.
    pub fn get_rpc_client(&self) -> (client: Option<&Aria2RpcClient>)
        ensures
            client is None,
    {
        None
    }

    /// A new client for the control endpoint of the running worker.
    pub fn create_rpc_client(&self) -> (client: Option<Aria2RpcClient>)
        ensures
            match self@.daemon {
                Some(daemon) => match daemon.instance {
                    Some(instance) => client matches Some(client) && client@ == (
                    Aria2RpcClientView {
                        base_url: endpoint_url(instance.port),
                        secret: daemon.config.secret,
                        request_id: 1,
                    }),
                    None => client is None,
                },
                None => client is None,
            },
    {
        match &self.daemon {
            Some(daemon) => daemon.get_rpc_client(),
            None => None,
        }
    }

    /// Shuts the manager down: the daemon is stopped and let go, and the
    /// worker is handed out for the host to terminate it.
    pub fn shutdown(&mut self) -> (instance: Option<Aria2Instance<P>>)
        ensures
            instance == (match old(self)@.daemon {
                Some(daemon) => daemon.instance,
                None => None,
            }),
            final(self)@ == (Aria2ManagerView { daemon: None, ..old(self)@ }),
    {
        match self.daemon.take() {
            Some(daemon) => {
                let mut daemon = daemon;
                daemon.stop()
            },
            None => None,
        }
    }

    /// Whether the manager has a daemon that has been started and not
    /// stopped.
    pub fn is_running(&self) -> (running: bool)
        ensures
            running == (match self@.daemon {
                Some(daemon) => daemon.is_running,
                None => false,
            }),
    {
        match &self.daemon {
            Some(daemon) => daemon.is_running(),
            None => false,
        }
    }
}

} // verus!
