//! Jobs as the host application sees them, on top of the calls to the
//! worker: which kind of download an address asks for, whether a download
//! is under way already, which call starts it, and what the worker's
//! report of a job means. Talking to the worker is left to the host.

pub mod mapper;
pub mod registry;
pub mod state;

use crate::client::types::{
    file_views, random_id, Aria2Options, Aria2OptionsView, JsonRpcRequest, RpcParamView,
    StatusReport, StatusReportView,
};
use crate::client::{base64_standard, is_call, Aria2Client, Aria2ClientView};
use crate::daemon::orchestrator::{DaemonConfig, DaemonConfigView, DEFAULT_RPC_PORT};
use crate::error::{Aria2Error, Aria2ErrorView};
use crate::manager::registry::{
    entered, gid_of, has_owner, owns, struck, Entries, TaskId, TaskRegistry,
};
use crate::poller::aggregator::byte_count;
use crate::text::{
    chars_of, ends_with, joined, lemma_split_is_not_empty, parse_unsigned, parse_unsigned_chars,
    parsed_unsigned, same_text, split, split_chars, starts_with, text_of, views,
};
use vstd::prelude::*;
use vstd::string::StringExecFns;

verus! {

/// The kinds of download that the worker is asked for in different ways.
#[derive(Debug, Clone, Copy, PartialEq, Eq)]
pub enum DownloadType {
    /// A file behind an HTTP, HTTPS or FTP address.
    Http,
    /// What a torrent file describes.
    Torrent,
    /// What a metalink file describes.
    Metalink,
    /// What a magnet link names.
    Magnet,
}

/// How far a job has come.
#[derive(Debug, Clone, Copy, PartialEq, Eq)]
pub struct DownloadProgress {
    /// Bytes that have arrived.
    pub downloaded_bytes: u64,
    /// Size of the job in bytes, once the worker knows it.
    pub total_bytes: Option<u64>,
    /// Bytes per second at which the job arrives.
    pub speed_bps: u64,
    /// Seconds that the rest takes at this speed.
    pub eta_seconds: Option<u64>,
}

/// A job of the host.
#[derive(Debug, PartialEq, Eq)]
pub struct DownloadTask {
    /// The host's identifier of the job.
    pub id: TaskId,
    /// The address that is downloaded.
    pub url: String,
    /// The file that is downloaded to.
    pub target_path: String,
    /// When the job was last looked at, in milliseconds of the host's clock.
    pub updated_at: u64,
}

/// A [`DownloadTask`] with its texts as sequences of characters.
pub struct DownloadTaskView {
    pub id: TaskId,
    pub url: Seq<char>,
    pub target_path: Seq<char>,
    pub updated_at: u64,
}

impl View for DownloadTask {
    type V = DownloadTaskView;

    open spec fn view(&self) -> DownloadTaskView {
        DownloadTaskView {
            id: self.id,
            url: self.url@,
            target_path: self.target_path@,
            updated_at: self.updated_at,
        }
    }
}

impl Clone for DownloadTask {
    fn clone(&self) -> (copy: Self)
        ensures
            copy@ == self@,
    {
        DownloadTask {
            id: self.id,
            url: self.url.clone(),
            target_path: self.target_path.clone(),
            updated_at: self.updated_at,
        }
    }
}

/// The views of a list of tasks.
pub open spec fn task_views(tasks: Seq<DownloadTask>) -> Seq<DownloadTaskView> {
    tasks.map_values(|task: DownloadTask| task@)
}

/// The views of a list of job reports.
pub open spec fn report_views(reports: Seq<StatusReport>) -> Seq<StatusReportView> {
    reports.map_values(|report: StatusReport| report@)
}

/// The kind of download that `url` asks for, if it asks for one the worker
/// can do: a magnet link is told by how it begins, torrent and metalink
/// files by how the address ends, and what is left must be an HTTP, HTTPS
/// or FTP address.
pub open spec fn download_type_of(url: Seq<char>) -> Option<DownloadType> {
    if "magnet:"@.is_prefix_of(url) {
        Some(DownloadType::Magnet)
    } else if ".torrent"@.is_suffix_of(url) {
        Some(DownloadType::Torrent)
    } else if ".metalink"@.is_suffix_of(url) || ".meta4"@.is_suffix_of(url) {
        Some(DownloadType::Metalink)
    } else if "http://"@.is_prefix_of(url) || "https://"@.is_prefix_of(url) || "ftp://"@.is_prefix_of(
        url,
    ) {
        Some(DownloadType::Http)
    } else {
        None
    }
}

/// The port in the address of a control endpoint: what stands after the
/// second colon, up to the next slash, read as a number of 16 bits.
pub open spec fn port_in_url(url: Seq<char>) -> Option<u16> {
    let fields = split(url, ':');
    if fields.len() > 2 {
        match parsed_unsigned(split(fields[2], '/')[0], u16::MAX as nat) {
            Some(port) => Some(port as u16),
            None => None,
        }
    } else {
        None
    }
}

/// What the worker's report of a job says of its progress. A number that
/// is missing or cannot be read counts as zero. The size is known once it
/// is above zero, and the time left is told while the job moves and is not
/// complete.
pub open spec fn progress_of(status: StatusReportView) -> DownloadProgress {
    let total = byte_count(status.total_length);
    let downloaded = byte_count(status.completed_length);
    let speed = byte_count(status.download_speed);
    DownloadProgress {
        downloaded_bytes: downloaded as u64,
        total_bytes: if total > 0 {
            Some(total as u64)
        } else {
            None
        },
        speed_bps: speed as u64,
        eta_seconds: if speed > 0 && total > downloaded {
            Some(((total - downloaded) / speed as int) as u64)
        } else {
            None
        },
    }
}

/// The file that a reported job is downloaded to: the path of its first
/// file, where the report names one.
pub open spec fn target_path_of(status: StatusReportView) -> Seq<char> {
    match status.files {
        Some(files) => if files.len() > 0 && files[0].path is Some {
            files[0].path->0
        } else {
            "unknown"@
        },
        None => "unknown"@,
    }
}

/// The worker's identifier in a report; a report without one has the empty
/// identifier.
pub open spec fn reported_gid(status: StatusReportView) -> Seq<char> {
    match status.gid {
        Some(gid) => gid,
        None => Seq::empty(),
    }
}

/// Whether one of the files of the reported job is fetched from `url`.
pub open spec fn fetches(status: StatusReportView, url: Seq<char>) -> bool {
    match status.files {
        Some(files) => exists|i: int, j: int|
            0 <= i < files.len() && 0 <= j < files[i].uris.len() && #[trigger] files[i].uris[j]
                == url,
        None => false,
    }
}

/// Whether the reported job is fetched from `url` and belongs to a task
/// of the registry.
pub open spec fn claims(entries: Entries, status: StatusReportView, url: Seq<char>) -> bool {
    fetches(status, url) && has_owner(entries, reported_gid(status))
}

/// The place of the first among the reported jobs that is fetched from
/// `url` and belongs to a task of the registry.
pub open spec fn duplicate_at(
    entries: Entries,
    reports: Seq<StatusReportView>,
    url: Seq<char>,
) -> Option<int>
    decreases reports.len(),
{
    if reports.len() == 0 {
        None
    } else {
        match duplicate_at(entries, reports.drop_last(), url) {
            Some(place) => Some(place),
            None => if claims(entries, reports.last(), url) {
                Some(reports.len() - 1)
            } else {
                None
            },
        }
    }
}

/// Whether `duplicate` answers the question for a download from `url`
/// that is already known: a task that owns the first reported job that is
/// fetched from `url` and belongs to a task of the registry, and nothing
/// where there is no such job.
pub open spec fn names_duplicate(
    entries: Entries,
    reports: Seq<StatusReportView>,
    url: Seq<char>,
    duplicate: Option<TaskId>,
) -> bool {
    match (duplicate, duplicate_at(entries, reports, url)) {
        (Some(id), Some(place)) => 0 <= place < reports.len() && owns(
            entries,
            id,
            reported_gid(reports[place]),
        ),
        (None, None) => true,
        _ => false,
    }
}

/// The task that a report stands for, as far as the report tells.
pub open spec fn task_of(id: TaskId, status: StatusReportView, now: u64) -> DownloadTaskView {
    DownloadTaskView { id, url: Seq::empty(), target_path: target_path_of(status), updated_at: now }
}

/// The reported jobs that belong to a task of the registry, in the order
/// of the reports.
pub open spec fn owned(entries: Entries, reports: Seq<StatusReportView>) -> Seq<StatusReportView>
    decreases reports.len(),
{
    if reports.len() == 0 {
        Seq::empty()
    } else {
        let before = owned(entries, reports.drop_last());
        if has_owner(entries, reported_gid(reports.last())) {
            before.push(reports.last())
        } else {
            before
        }
    }
}

/// Whether `task` is what the report tells of a task of the registry that
/// owns the reported job.
pub open spec fn tells(
    entries: Entries,
    status: StatusReportView,
    now: u64,
    task: DownloadTaskView,
) -> bool {
    owns(entries, task.id, reported_gid(status)) && task == task_of(task.id, status, now)
}

/// Whether `tasks` are the tasks of the registry among the reported jobs:
/// one for each reported job that belongs to a task, in the order of the
/// reports, each of a task that owns the job.
pub open spec fn lists_tasks(
    entries: Entries,
    reports: Seq<StatusReportView>,
    now: u64,
    tasks: Seq<DownloadTaskView>,
) -> bool {
    let jobs = owned(entries, reports);
    tasks.len() == jobs.len() && forall|i: int|
        0 <= i < tasks.len() ==> tells(entries, jobs[i], now, #[trigger] tasks[i])
}

/// What is to be done about a download that the host asks for.
#[derive(Debug, PartialEq, Eq)]
pub enum DownloadPlan {
    /// The address names the download itself: the worker is asked with it.
    Direct(DownloadType, Aria2Options),
    /// The address names a file that describes the download: the host
    /// fetches the file, and the worker is asked with what it holds.
    Described(DownloadType, Aria2Options),
}

/// A [`DownloadPlan`] with its texts as sequences of characters.
pub enum DownloadPlanView {
    Direct(DownloadType, Aria2OptionsView),
    Described(DownloadType, Aria2OptionsView),
}

impl View for DownloadPlan {
    type V = DownloadPlanView;

    open spec fn view(&self) -> DownloadPlanView {
        match *self {
            DownloadPlan::Direct(kind, options) => DownloadPlanView::Direct(kind, options@),
            DownloadPlan::Described(kind, options) => DownloadPlanView::Described(kind, options@),
        }
    }
}

/// The view of a result that carries a plan.
pub open spec fn plan_result(outcome: Result<DownloadPlan, Aria2Error>) -> Result<
    DownloadPlanView,
    Aria2ErrorView,
> {
    match outcome {
        Ok(plan) => Ok(plan@),
        Err(error) => Err(error@),
    }
}

/// The plan for a download of `url` to the file `file_name` in
/// `target_dir`. An address of no known kind is refused first; then a
/// target without a directory.
pub open spec fn plan_of(
    url: Seq<char>,
    target_dir: Option<Seq<char>>,
    file_name: Option<Seq<char>>,
) -> Result<DownloadPlanView, Aria2ErrorView> {
    match download_type_of(url) {
        None => Err(Aria2ErrorView::InvalidUrl("Unsupported URL scheme: "@ + url)),
        Some(kind) => match target_dir {
            None => Err(Aria2ErrorView::InvalidPath("Invalid target path"@)),
            Some(dir) => {
                let options = Aria2OptionsView { dir, out: file_name };
                match kind {
                    DownloadType::Http | DownloadType::Magnet => Ok(
                        DownloadPlanView::Direct(kind, options),
                    ),
                    _ => Ok(DownloadPlanView::Described(kind, options)),
                }
            },
        },
    }
}

/// The configuration of the worker for the endpoint at `rpc_url`: the port
/// that the address names, or the usual one; the secret, or the usual one;
/// and everything else as `defaults` has it.
pub open spec fn daemon_config_of(
    rpc_url: Seq<char>,
    secret: Option<Seq<char>>,
    defaults: DaemonConfigView,
) -> DaemonConfigView {
    DaemonConfigView {
        rpc_port: match port_in_url(rpc_url) {
            Some(port) => port,
            None => DEFAULT_RPC_PORT,
        },
        rpc_secret: match secret {
            Some(secret) => secret,
            None => "burncloud"@,
        },
        ..defaults
    }
}

impl DownloadTask {
    /// A new job under a fresh random identifier.
    pub fn new(url: String, target_path: String, now: u64) -> (task: Self)
        ensures
            task@ == (DownloadTaskView {
                id: task.id,
                url: url@,
                target_path: target_path@,
                updated_at: now,
            }),
    {
        DownloadTask { id: TaskId(random_id().0), url, target_path, updated_at: now }
    }
}

fn read_count(text: &Option<String>) -> (count: u64)
    ensures
        count == byte_count(text_of(*text)),
{
    match text {
        Some(text) => match parse_unsigned(text.as_str(), u64::MAX) {
            Some(count) => count,
            None => 0,
        },
        None => 0,
    }
}

fn report_fetches(status: &StatusReport, url: &str) -> (yes: bool)
    ensures
        yes == fetches(status@, url@),
{
    match &status.files {
        None => false,
        Some(files) => {
            let mut i: usize = 0;
            while i < files.len()
                invariant
                    i <= files.len(),
                    status@.files == Some(file_views(files@)),
                    forall|a: int, b: int|
                        0 <= a < i && 0 <= b < file_views(files@)[a].uris.len()
                            ==> #[trigger] file_views(files@)[a].uris[b] != url@,
                decreases files.len() - i,
            {
                let uris = &files[i].uris;
                let mut j: usize = 0;
                while j < uris.len()
                    invariant
                        i < files.len(),
                        j <= uris.len(),
                        status@.files == Some(file_views(files@)),
                        uris == files@[i as int].uris,
                        file_views(files@)[i as int].uris == views(uris@),
                        forall|b: int| 0 <= b < j ==> #[trigger] views(uris@)[b] != url@,
                    decreases uris.len() - j,
                {
                    if same_text(uris[j].as_str(), url) {
                        assert(file_views(files@)[i as int].uris[j as int] == url@);
                        assert(fetches(status@, url@));
                        return true;
                    }
                    j += 1;
                }
                i += 1;
            }
            false
        },
    }
}

fn report_gid(status: &StatusReport) -> (gid: String)
    ensures
        gid@ == reported_gid(status@),
{
    match &status.gid {
        Some(gid) => gid.clone(),
        None => String::new(),
    }
}

/// The jobs of the host, and the endpoint of the worker that does them.
#[derive(Debug, PartialEq, Eq)]
pub struct Aria2DownloadManager {
    client: Aria2Client,
    tasks: TaskRegistry,
}

/// The state of an [`Aria2DownloadManager`].
pub struct Aria2DownloadManagerView {
    /// The endpoint.
    pub client: Aria2ClientView,
    /// The registry of jobs.
    pub tasks: Entries,
}

impl View for Aria2DownloadManager {
    type V = Aria2DownloadManagerView;

    closed spec fn view(&self) -> Aria2DownloadManagerView {
        Aria2DownloadManagerView { client: self.client@, tasks: self.tasks@ }
    }
}

impl Aria2DownloadManager {
    /// A manager without jobs for the endpoint at `rpc_url`.
    pub fn new(rpc_url: String, secret: Option<String>) -> (manager: Self)
        ensures
            manager@ == (Aria2DownloadManagerView {
                client: Aria2ClientView { rpc_url: rpc_url@, secret: text_of(secret) },
                tasks: Map::empty(),
            }),
    {
        Aria2DownloadManager { client: Aria2Client::new(rpc_url, secret), tasks: TaskRegistry::new() }
    }

    /// The endpoint.
    pub fn client(&self) -> (client: &Aria2Client)
        ensures
            client@ == self@.client,
    {
        &self.client
    }

    /// The configuration of the worker for the endpoint at `rpc_url`.
    pub fn daemon_config(rpc_url: &str, secret: &Option<String>, defaults: DaemonConfig) -> (config:
        DaemonConfig)
        ensures
            config@ == daemon_config_of(rpc_url@, text_of(*secret), defaults@),
    {
        let rpc_port = match Self::extract_port_from_url(rpc_url) {
            Some(port) => port,
            None => DEFAULT_RPC_PORT,
        };
        let rpc_secret = match secret {
            Some(secret) => secret.clone(),
            None => String::from_str("burncloud"),
        };
        DaemonConfig { rpc_port, rpc_secret, ..defaults }
    }

    /// Reads the port from the address of a control endpoint.
    pub fn extract_port_from_url(url: &str) -> (port: Option<u16>)
        ensures
            port == port_in_url(url@),
    {
        let chars = chars_of(url);
        let fields = split_chars(&chars, ':');
        if fields.len() > 2 {
            let host_part = split_chars(&fields[2], '/');
            proof {
                lemma_split_is_not_empty(fields@[2]@, '/');
                assert(fields@.map_values(|piece: Vec<char>| piece@)[2] == fields@[2]@);
                assert(host_part@.map_values(|piece: Vec<char>| piece@)[0] == host_part@[0]@);
            }
            match parse_unsigned_chars(&host_part[0], 65535) {
                Some(port) => Some(port as u16),
                None => None,
            }
        } else {
            None
        }
    }

    /// Tells the kind of download that `url` asks for.
    pub fn detect_download_type(url: &str) -> (kind: Result<DownloadType, Aria2Error>)
        ensures
            match download_type_of(url@) {
                Some(expected) => kind == Ok::<DownloadType, Aria2Error>(expected),
                None => kind matches Err(error) && error@ == Aria2ErrorView::InvalidUrl(
                    "Unsupported URL scheme: "@ + url@,
                ),
            },
    {
        if starts_with(url, "magnet:") {
            Ok(DownloadType::Magnet)
        } else if ends_with(url, ".torrent") {
            Ok(DownloadType::Torrent)
        } else if ends_with(url, ".metalink") || ends_with(url, ".meta4") {
            Ok(DownloadType::Metalink)
        } else if starts_with(url, "http://") || starts_with(url, "https://") || starts_with(
            url,
            "ftp://",
        ) {
            Ok(DownloadType::Http)
        } else {
            Err(Aria2Error::InvalidUrl(joined("Unsupported URL scheme: ", url)))
        }
    }

    /// Puts together the jobs that the worker reports as active, waiting
    /// and stopped, in this order. A list that could not be had counts as
    /// empty.
    pub fn get_all_aria2_tasks(
        active: Option<Vec<StatusReport>>,
        waiting: Option<Vec<StatusReport>>,
        stopped: Option<Vec<StatusReport>>,
    ) -> (all: Vec<StatusReport>)
        ensures
            all@ == (match active {
                Some(list) => list@,
                None => Seq::empty(),
            }) + (match waiting {
                Some(list) => list@,
                None => Seq::empty(),
            }) + (match stopped {
                Some(list) => list@,
                None => Seq::empty(),
            }),
    {
        let mut all: Vec<StatusReport> = Vec::new();
        match active {
            Some(list) => {
                let mut list = list;
                all.append(&mut list);
            },
            None => {},
        }
        match waiting {
            Some(list) => {
                let mut list = list;
                all.append(&mut list);
            },
            None => {},
        }
        match stopped {
            Some(list) => {
                let mut list = list;
                all.append(&mut list);
            },
            None => {},
        }
        all
    }

    /// Looks among the jobs that the worker reports for one that is
    /// fetched from `url` and belongs to a task of this manager: a download
    /// that is asked for again is not started again. Where several tasks
    /// own that job, one of them is named.
    pub fn add_download(&self, existing: &Vec<StatusReport>, url: &str) -> (duplicate: Option<
        TaskId,
    >)
        ensures
            names_duplicate(self@.tasks, report_views(existing@), url@, duplicate),
    {
        let mut i: usize = 0;
        while i < existing.len()
            invariant
                i <= existing.len(),
                duplicate_at(self@.tasks, report_views(existing@).take(i as int), url@) is None,
            decreases existing.len() - i,
        {
            let ghost seen = report_views(existing@).take(i + 1);
            assert(seen.drop_last() =~= report_views(existing@).take(i as int));
            assert(seen.last() == existing@[i as int]@);
            if report_fetches(&existing[i], url) {
                let gid = report_gid(&existing[i]);
                match self.tasks.owner(gid.as_str()) {
                    Some(id) => {
                        proof {
                            assert(duplicate_at(self@.tasks, seen, url@) == Some(i as int));
                            lemma_duplicate_stays(
                                self@.tasks,
                                report_views(existing@),
                                url@,
                                i + 1,
                            );
                        }
                        return Some(id);
                    },
                    None => {},
                }
            }
            i += 1;
        }
        assert(report_views(existing@).take(existing@.len() as int) =~= report_views(existing@));
        None
    }

    /// Plans a download of `url` to the file `file_name` in `target_dir`.
    pub fn plan_download(url: &str, target_dir: Option<String>, file_name: Option<String>) -> (plan:
        Result<DownloadPlan, Aria2Error>)
        ensures
            plan_result(plan) == plan_of(url@, text_of(target_dir), text_of(file_name)),
    {
        match Self::detect_download_type(url) {
            Err(error) => Err(error),
            Ok(kind) => match target_dir {
                None => Err(Aria2Error::InvalidPath(String::from_str("Invalid target path"))),
                Some(dir) => {
                    let options = Aria2Options { dir, out: file_name };
                    match kind {
                        DownloadType::Http => Ok(DownloadPlan::Direct(kind, options)),
                        DownloadType::Magnet => Ok(DownloadPlan::Direct(kind, options)),
                        DownloadType::Torrent => Ok(DownloadPlan::Described(kind, options)),
                        DownloadType::Metalink => Ok(DownloadPlan::Described(kind, options)),
                    }
                },
            },
        }
    }

    /// The call that starts a download which the address itself names.
    pub fn start_direct(&self, url: &str, options: Aria2Options) -> (request: JsonRpcRequest)
        ensures
            is_call(
                    self@.client.secret,
                    request@,
                "aria2.addUri"@,
                seq![RpcParamView::TextList(seq![url@]), RpcParamView::Options(options@)],
            ),
    {
        let mut uris: Vec<String> = Vec::new();
        uris.push(String::from_str(url));
        assert(views(uris@) =~= seq![url@]);
        self.client.add_uri(uris, options)
    }

    /// The call that starts a download which the fetched file `payload`
    /// describes. A kind that needs no such file is asked for as a torrent
    /// is.
    pub fn start_described(&self, kind: DownloadType, payload: Vec<u8>, options: Aria2Options) -> (request:
        JsonRpcRequest)
        requires
            payload@.len() <= usize::MAX / 2,
        ensures
            match kind {
                DownloadType::Metalink => is_call(
                    self@.client.secret,
                    request@,
                    "aria2.addMetalink"@,
                    seq![
                        RpcParamView::Text(base64_standard(payload@)),
                        RpcParamView::Options(options@),
                    ],
                ),
                _ => is_call(
                    self@.client.secret,
                    request@,
                    "aria2.addTorrent"@,
                    seq![
                        RpcParamView::Text(base64_standard(payload@)),
                        RpcParamView::TextList(Seq::empty()),
                        RpcParamView::Options(options@),
                    ],
                ),
            },
    {
        match kind {
            DownloadType::Metalink => self.client.add_metalink(payload, options),
            _ => self.client.add_torrent(payload, options),
        }
    }

    /// Enters a started download: task `id` is the worker's job `gid`.
    pub fn record(&mut self, id: TaskId, gid: String)
        ensures
            final(self)@ == (Aria2DownloadManagerView {
                tasks: entered(old(self)@.tasks, id, gid@),
                ..old(self)@
            }),
    {
        self.tasks.insert(id, gid);
    }

    /// The worker's identifier of the job of task `id`.
    pub fn gid(&self, id: TaskId) -> (gid: Option<String>)
        ensures
            text_of(gid) == gid_of(self@.tasks, id),
    {
        self.tasks.get(id)
    }

    /// The call that pauses task `id`, where the task is known.
    pub fn pause_download(&self, id: TaskId) -> (request: Option<JsonRpcRequest>)
        ensures
            match gid_of(self@.tasks, id) {
                Some(gid) => request matches Some(request) && is_call(
                    self@.client.secret,
                    request@,
                    "aria2.pause"@,
                    seq![RpcParamView::Text(gid)],
                ),
                None => request is None,
            },
    {
        match self.tasks.get(id) {
            Some(gid) => Some(self.client.pause(gid.as_str())),
            None => None,
        }
    }

    /// The call that resumes task `id`, where the task is known.
    pub fn resume_download(&self, id: TaskId) -> (request: Option<JsonRpcRequest>)
        ensures
            match gid_of(self@.tasks, id) {
                Some(gid) => request matches Some(request) && is_call(
                    self@.client.secret,
                    request@,
                    "aria2.unpause"@,
                    seq![RpcParamView::Text(gid)],
                ),
                None => request is None,
            },
    {
        match self.tasks.get(id) {
            Some(gid) => Some(self.client.unpause(gid.as_str())),
            None => None,
        }
    }

    /// Strikes task `id` out and hands out the call that removes its job
    /// from the worker, where the task was known. The task is forgotten
    /// whatever comes of the call.
    pub fn cancel_download(&mut self, id: TaskId) -> (request: Option<JsonRpcRequest>)
        ensures
            final(self)@ == (Aria2DownloadManagerView {
                tasks: struck(old(self)@.tasks, id),
                ..old(self)@
            }),
            match gid_of(old(self)@.tasks, id) {
                Some(gid) => request matches Some(request) && is_call(
                    old(self)@.client.secret,
                    request@,
                    "aria2.remove"@,
                    seq![RpcParamView::Text(gid)],
                ),
                None => request is None,
            },
    {
        match self.tasks.remove(id) {
            Some(gid) => Some(self.client.remove(gid.as_str())),
            None => None,
        }
    }

    /// The call that asks the worker about task `id`, where the task is
    /// known.
    pub fn status_request(&self, id: TaskId) -> (request: Option<JsonRpcRequest>)
        ensures
            match gid_of(self@.tasks, id) {
                Some(gid) => request matches Some(request) && is_call(
                    self@.client.secret,
                    request@,
                    "aria2.tellStatus"@,
                    seq![RpcParamView::Text(gid)],
                ),
                None => request is None,
            },
    {
        match self.tasks.get(id) {
            Some(gid) => Some(self.client.tell_status(gid.as_str())),
            None => None,
        }
    }

    /// Reads the progress of a job from the worker's report of it.
    pub fn get_progress(status: &StatusReport) -> (progress: DownloadProgress)
        ensures
            progress == progress_of(status@),
    {
        let total_bytes = read_count(&status.total_length);
        let downloaded_bytes = read_count(&status.completed_length);
        let speed_bps = read_count(&status.download_speed);
        let eta_seconds = if speed_bps > 0 && total_bytes > downloaded_bytes {
            Some((total_bytes - downloaded_bytes) / speed_bps)
        } else {
            None
        };
        DownloadProgress {
            downloaded_bytes,
            total_bytes: if total_bytes > 0 {
                Some(total_bytes)
            } else {
                None
            },
            speed_bps,
            eta_seconds,
        }
    }

    /// Tells what the worker's report says of task `id`, looked at `now`.
    pub fn get_task(id: TaskId, status: &StatusReport, now: u64) -> (task: DownloadTask)
        ensures
            task@ == task_of(id, status@, now),
    {
        let target_path = match &status.files {
            Some(files) => if files.len() > 0 {
                assert(file_views(files@)[0] == files@[0]@);
                match &files[0].path {
                    Some(path) => path.clone(),
                    None => String::from_str("unknown"),
                }
            } else {
                String::from_str("unknown")
            },
            None => String::from_str("unknown"),
        };
        DownloadTask { id, url: String::new(), target_path, updated_at: now }
    }

    /// Tells the tasks of this manager among the jobs that the worker
    /// reports, looked at `now`. Where several tasks own a job, the job is
    /// told of one of them.
    pub fn list_tasks(&self, reports: &Vec<StatusReport>, now: u64) -> (tasks: Vec<DownloadTask>)
        ensures
            lists_tasks(self@.tasks, report_views(reports@), now, task_views(tasks@)),
    {
        let mut tasks: Vec<DownloadTask> = Vec::new();
        let mut i: usize = 0;
        assert(task_views(tasks@) =~= Seq::<DownloadTaskView>::empty());
        while i < reports.len()
            invariant
                i <= reports.len(),
                lists_tasks(
                    self@.tasks,
                    report_views(reports@).take(i as int),
                    now,
                    task_views(tasks@),
                ),
            decreases reports.len() - i,
        {
            let ghost seen = report_views(reports@).take(i + 1);
            let ghost before = task_views(tasks@);
            assert(seen.drop_last() =~= report_views(reports@).take(i as int));
            assert(seen.last() == reports@[i as int]@);
            let gid = report_gid(&reports[i]);
            match self.tasks.owner(gid.as_str()) {
                Some(id) => {
                    let task = Self::get_task(id, &reports[i], now);
                    tasks.push(task);
                    assert(task_views(tasks@) =~= before.push(task@));
                    assert(has_owner(self@.tasks, reported_gid(seen.last())));
                },
                None => {},
            }
            i += 1;
        }
        assert(report_views(reports@).take(reports@.len() as int) =~= report_views(reports@));
        tasks
    }

    /// How many jobs are being downloaded, given the list that the worker
    /// reports as active; without a list, none.
    pub fn active_download_count(active: &Option<Vec<StatusReport>>) -> (count: usize)
        ensures
            count == (match *active {
                Some(list) => list@.len(),
                None => 0,
            }),
    {
        match active {
            Some(list) => list.len(),
            None => 0,
        }
    }
}

/// A duplicate found among the first reports is the duplicate among all.
pub proof fn lemma_duplicate_stays(
    entries: Entries,
    reports: Seq<StatusReportView>,
    url: Seq<char>,
    seen: int,
)
    requires
        0 <= seen <= reports.len(),
        duplicate_at(entries, reports.take(seen), url) is Some,
    ensures
        duplicate_at(entries, reports, url) == duplicate_at(entries, reports.take(seen), url),
    decreases reports.len() - seen,
{
    if seen < reports.len() {
        assert(reports.take(seen + 1).drop_last() =~= reports.take(seen));
        lemma_duplicate_stays(entries, reports, url, seen + 1);
    } else {
        assert(reports.take(seen) =~= reports);
    }
}

} // verus!
