//! The self-contained way to run the worker: one manager that fetches the
//! binary, picks a port from a short range, launches the worker as a
//! daemon, waits until it answers, and restarts it whenever it has ended.
//!
//! As everywhere in this library the decisions are made here and the host
//! acts on them.

pub mod daemon;
pub mod rpc;
pub mod setup;

pub use daemon::{
    find_available_port, rpc_arguments, start_aria2_rpc, wait_for_rpc_ready, Aria2Daemon,
    Aria2Instance, Aria2Manager, LaunchPlan, ReadinessStep, WatchStep,
};
pub use rpc::{is_same_task, Aria2RpcClient, Candidate};
pub use setup::{
    download_aria2, download_file, extract_aria2, extract_aria2_from, is_binary_entry,
    locate_aria2, Setup,
    SetupEffect, SetupEvent, SetupPhase, ARIA2_BACKUP_URL, ARIA2_MAIN_URL,
};

use crate::daemon::platform::{join, join_spec, Platform};
use crate::text::{clone_text, joined, text_of};
use vstd::prelude::*;
use vstd::string::StringExecFns;

verus! {

/// The port that is tried first.
pub const DEFAULT_PORT: u16 = 6800;

/// How many ports above the first are tried.
pub const MAX_PORT_RANGE: u16 = 100;

/// How often the control endpoint is probed after a launch.
pub const READINESS_ATTEMPTS: u32 = 30;

/// Seconds between two probes of the control endpoint after a launch.
pub const READINESS_PAUSE_SECS: u64 = 1;

/// Milliseconds between two looks at the worker process.
pub const WATCH_INTERVAL_MILLIS: u64 = 1000;

/// What can go wrong; each kind carries its text.
#[derive(Debug, PartialEq, Eq)]
pub enum Aria2Error {
    /// The binary could not be fetched or unpacked.
    DownloadError(String),
    /// No port could be had.
    PortError(String),
    /// A call to the control endpoint failed.
    RpcError(String),
    /// The daemon is in the wrong state for what was asked.
    DaemonError(String),
    /// The worker process could not be handled.
    ProcessError(String),
    /// The configuration cannot be used.
    ConfigError(String),
}

/// An [`Aria2Error`] with its text as a sequence of characters.
pub enum Aria2ErrorView {
    DownloadError(Seq<char>),
    PortError(Seq<char>),
    RpcError(Seq<char>),
    DaemonError(Seq<char>),
    ProcessError(Seq<char>),
    ConfigError(Seq<char>),
}

impl View for Aria2Error {
    type V = Aria2ErrorView;

    open spec fn view(&self) -> Aria2ErrorView {
        match *self {
            Aria2Error::DownloadError(text) => Aria2ErrorView::DownloadError(text@),
            Aria2Error::PortError(text) => Aria2ErrorView::PortError(text@),
            Aria2Error::RpcError(text) => Aria2ErrorView::RpcError(text@),
            Aria2Error::DaemonError(text) => Aria2ErrorView::DaemonError(text@),
            Aria2Error::ProcessError(text) => Aria2ErrorView::ProcessError(text@),
            Aria2Error::ConfigError(text) => Aria2ErrorView::ConfigError(text@),
        }
    }
}

impl Aria2ErrorView {
    /// The text shown for the error.
    pub open spec fn message(self) -> Seq<char> {
        match self {
            Aria2ErrorView::DownloadError(text) => "下载错误: "@ + text,
            Aria2ErrorView::PortError(text) => "端口错误: "@ + text,
            Aria2ErrorView::RpcError(text) => "RPC错误: "@ + text,
            Aria2ErrorView::DaemonError(text) => "守护进程错误: "@ + text,
            Aria2ErrorView::ProcessError(text) => "进程错误: "@ + text,
            Aria2ErrorView::ConfigError(text) => "配置错误: "@ + text,
        }
    }
}

impl Aria2Error {
    /// Renders the error as text.
    pub fn message(&self) -> (text: String)
        ensures
            text@ == self@.message(),
    {
        match self {
            Aria2Error::DownloadError(text) => joined("下载错误: ", text.as_str()),
            Aria2Error::PortError(text) => joined("端口错误: ", text.as_str()),
            Aria2Error::RpcError(text) => joined("RPC错误: ", text.as_str()),
            Aria2Error::DaemonError(text) => joined("守护进程错误: ", text.as_str()),
            Aria2Error::ProcessError(text) => joined("进程错误: ", text.as_str()),
            Aria2Error::ConfigError(text) => joined("配置错误: ", text.as_str()),
        }
    }
}

/// The result of an operation of this module.
pub type Aria2Result<T> = Result<T, Aria2Error>;

/// The view of a result that carries no value on success.
pub open spec fn unit_result(outcome: Aria2Result<()>) -> Result<(), Aria2ErrorView> {
    match outcome {
        Ok(_) => Ok(()),
        Err(error) => Err(error@),
    }
}

/// How the worker is run.
#[derive(Debug, PartialEq, Eq)]
pub struct Aria2Config {
    /// Port of the control endpoint.
    pub port: u16,
    /// Secret that guards the control endpoint, if one does.
    pub secret: Option<String>,
    /// Directory the worker downloads into.
    pub download_dir: String,
    /// Connections per server, and pieces a download is split into.
    pub max_connections: u8,
    /// Smallest piece that a download is split into.
    pub split_size: String,
    /// Path of the worker binary.
    pub aria2_path: String,
}

/// An [`Aria2Config`] with its texts as sequences of characters.
pub struct Aria2ConfigView {
    pub port: u16,
    pub secret: Option<Seq<char>>,
    pub download_dir: Seq<char>,
    pub max_connections: u8,
    pub split_size: Seq<char>,
    pub aria2_path: Seq<char>,
}

impl View for Aria2Config {
    type V = Aria2ConfigView;

    open spec fn view(&self) -> Aria2ConfigView {
        Aria2ConfigView {
            port: self.port,
            secret: text_of(self.secret),
            download_dir: self.download_dir@,
            max_connections: self.max_connections,
            split_size: self.split_size@,
            aria2_path: self.aria2_path@,
        }
    }
}

impl Clone for Aria2Config {
    fn clone(&self) -> (copy: Self)
        ensures
            copy@ == self@,
    {
        Aria2Config {
            port: self.port,
            secret: clone_text(&self.secret),
            download_dir: self.download_dir.clone(),
            max_connections: self.max_connections,
            split_size: self.split_size.clone(),
            aria2_path: self.aria2_path.clone(),
        }
    }
}

/// The options of a download.
#[derive(Debug, PartialEq, Eq)]
pub struct DownloadOptions {
    /// Directory to download into.
    pub dir: Option<String>,
    /// File name to download to.
    pub out: Option<String>,
    /// Pieces the download is split into.
    pub split: Option<u8>,
    /// Connections per server.
    pub max_connection_per_server: Option<u8>,
    /// Whether a partial file is continued.
    pub continue_download: Option<bool>,
}

/// [`DownloadOptions`] with its texts as sequences of characters.
pub struct DownloadOptionsView {
    pub dir: Option<Seq<char>>,
    pub out: Option<Seq<char>>,
    pub split: Option<u8>,
    pub max_connection_per_server: Option<u8>,
    pub continue_download: Option<bool>,
}

impl View for DownloadOptions {
    type V = DownloadOptionsView;

    open spec fn view(&self) -> DownloadOptionsView {
        DownloadOptionsView {
            dir: text_of(self.dir),
            out: text_of(self.out),
            split: self.split,
            max_connection_per_server: self.max_connection_per_server,
            continue_download: self.continue_download,
        }
    }
}

impl Clone for DownloadOptions {
    fn clone(&self) -> (copy: Self)
        ensures
            copy@ == self@,
    {
        DownloadOptions {
            dir: clone_text(&self.dir),
            out: clone_text(&self.out),
            split: self.split,
            max_connection_per_server: self.max_connection_per_server,
            continue_download: self.continue_download,
        }
    }
}

/// The state of a job as the worker reports it.
#[derive(Debug, PartialEq, Eq)]
pub struct DownloadStatus {
    /// The worker's identifier of the job.
    pub gid: String,
    /// The worker's word for the state of the job.
    pub status: String,
    /// Size of the job in bytes, in decimal.
    pub total_length: String,
    /// Bytes that have arrived, in decimal.
    pub completed_length: String,
    /// Bytes per second at which the job arrives, in decimal.
    pub download_speed: String,
}

impl Clone for DownloadStatus {
    fn clone(&self) -> (copy: Self)
        ensures
            copy.gid@ == self.gid@,
            copy.status@ == self.status@,
            copy.total_length@ == self.total_length@,
            copy.completed_length@ == self.completed_length@,
            copy.download_speed@ == self.download_speed@,
    {
        DownloadStatus {
            gid: self.gid.clone(),
            status: self.status.clone(),
            total_length: self.total_length.clone(),
            completed_length: self.completed_length.clone(),
            download_speed: self.download_speed.clone(),
        }
    }
}

/// The overall figures of the worker.
#[derive(Debug, PartialEq, Eq)]
pub struct GlobalStat {
    /// Bytes per second at which all jobs arrive, in decimal.
    pub download_speed: String,
    /// Number of jobs that are being downloaded, in decimal.
    pub num_active: String,
    /// Number of jobs that wait, in decimal.
    pub num_waiting: String,
}

impl Clone for GlobalStat {
    fn clone(&self) -> (copy: Self)
        ensures
            copy.download_speed@ == self.download_speed@,
            copy.num_active@ == self.num_active@,
            copy.num_waiting@ == self.num_waiting@,
    {
        GlobalStat {
            download_speed: self.download_speed.clone(),
            num_active: self.num_active.clone(),
            num_waiting: self.num_waiting.clone(),
        }
    }
}

/// One address that a file is fetched from.
#[derive(Debug, PartialEq, Eq)]
pub struct UriInfo {
    /// The address.
    pub uri: String,
    /// The worker's word for the state of the address.
    pub status: String,
}

/// A [`UriInfo`] with its texts as sequences of characters.
pub struct UriInfoView {
    pub uri: Seq<char>,
    pub status: Seq<char>,
}

impl View for UriInfo {
    type V = UriInfoView;

    open spec fn view(&self) -> UriInfoView {
        UriInfoView { uri: self.uri@, status: self.status@ }
    }
}

impl Clone for UriInfo {
    fn clone(&self) -> (copy: Self)
        ensures
            copy@ == self@,
    {
        UriInfo { uri: self.uri.clone(), status: self.status.clone() }
    }
}

/// The views of a list of addresses.
pub open spec fn uri_views(uris: Seq<UriInfo>) -> Seq<UriInfoView> {
    uris.map_values(|uri: UriInfo| uri@)
}

/// One file of a job.
#[derive(Debug, PartialEq, Eq)]
pub struct FileInfo {
    /// Path of the file on disk.
    pub path: String,
    /// The addresses that the file is fetched from.
    pub uris: Vec<UriInfo>,
}

/// A [`FileInfo`] with its texts as sequences of characters.
pub struct FileInfoView {
    pub path: Seq<char>,
    pub uris: Seq<UriInfoView>,
}

impl View for FileInfo {
    type V = FileInfoView;

    open spec fn view(&self) -> FileInfoView {
        FileInfoView { path: self.path@, uris: uri_views(self.uris@) }
    }
}

/// The views of a list of files.
pub open spec fn file_info_views(files: Seq<FileInfo>) -> Seq<FileInfoView> {
    files.map_values(|file: FileInfo| file@)
}

/// The directory in which this way of running the worker keeps the
/// binary: below the user profile where the environment names one, and in
/// a fixed place otherwise.
pub open spec fn burncloud_dir_spec(platform: Platform, user_profile: Option<Seq<char>>) -> Seq<
    char,
> {
    match user_profile {
        Some(profile) => join_spec(
            platform,
            join_spec(platform, join_spec(platform, profile, "AppData"@), "Local"@),
            "BurnCloud"@,
        ),
        None => "C:\\Users\\Default\\AppData\\Local\\BurnCloud"@,
    }
}

/// The directory in which the binary is kept.
pub fn get_burncloud_dir(platform: Platform, user_profile: &Option<String>) -> (dir: String)
    ensures
        dir@ == burncloud_dir_spec(platform, text_of(*user_profile)),
{
    match user_profile {
        Some(profile) => {
            let app_data = join(platform, profile.as_str(), "AppData");
            let local = join(platform, app_data.as_str(), "Local");
            join(platform, local.as_str(), "BurnCloud")
        },
        None => String::from_str("C:\\Users\\Default\\AppData\\Local\\BurnCloud"),
    }
}

impl Aria2ConfigView {
    /// The configuration that is used where the host names none: the first
    /// port, no secret, downloads below the current directory, sixteen
    /// connections, pieces of a megabyte, and the binary in its usual
    /// place.
    pub open spec fn default_for(
        platform: Platform,
        current_dir: Option<Seq<char>>,
        user_profile: Option<Seq<char>>,
    ) -> Aria2ConfigView {
        Aria2ConfigView {
            port: DEFAULT_PORT,
            secret: None,
            download_dir: join_spec(
                platform,
                match current_dir {
                    Some(dir) => dir,
                    None => Seq::empty(),
                },
                "downloads"@,
            ),
            max_connections: 16,
            split_size: "1M"@,
            aria2_path: join_spec(
                platform,
                burncloud_dir_spec(platform, user_profile),
                "aria2c.exe"@,
            ),
        }
    }
}

impl Aria2Config {
    /// The default configuration for a host with the given platform,
    /// current directory and user profile.
    pub fn for_host(
        platform: Platform,
        current_dir: &Option<String>,
        user_profile: &Option<String>,
    ) -> (config: Self)
        ensures
            config@ == Aria2ConfigView::default_for(
                platform,
                text_of(*current_dir),
                text_of(*user_profile),
            ),
    {
        let download_dir = match current_dir {
            Some(dir) => join(platform, dir.as_str(), "downloads"),
            None => {
                proof {
                    reveal_strlit("");
                }
                assert(""@ =~= Seq::<char>::empty());
                join(platform, "", "downloads")
            },
        };
        let dir = get_burncloud_dir(platform, user_profile);
        Aria2Config {
            port: DEFAULT_PORT,
            secret: None,
            download_dir,
            max_connections: 16,
            split_size: String::from_str("1M"),
            aria2_path: join(platform, dir.as_str(), "aria2c.exe"),
        }
    }
}

} // verus!
