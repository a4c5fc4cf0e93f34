use burncloud_download_aria2::client::types::{
    Aria2Options, FileReport, JsonRpcRequest, RpcParam, StatusReport,
};
use burncloud_download_aria2::manager::registry::TaskId;
use burncloud_download_aria2::manager::{
    Aria2DownloadManager, DownloadPlan, DownloadProgress, DownloadTask,
};
use burncloud_download_aria2::Aria2Error;

/// A job as the played worker keeps it.
struct Job {
    gid: String,
    url: String,
    options: Aria2Options,
    paused: bool,
    done: u64,
}

/// A worker played for the manager: it takes the calls that the manager
/// puts together and keeps the jobs.
struct Worker {
    jobs: Vec<Job>,
    next: u32,
}

impl Worker {
    fn new() -> Worker {
        Worker { jobs: Vec::new(), next: 1 }
    }

    fn gid_in(request: &JsonRpcRequest) -> String {
        match request.params.first() {
            Some(RpcParam::Text(gid)) => gid.clone(),
            other => panic!("the call names no job: {:?}", other),
        }
    }

    /// Takes a call and answers with the identifier of the job it is about.
    fn take(&mut self, request: JsonRpcRequest) -> String {
        match request.method.as_str() {
            "aria2.addUri" => {
                let url = match &request.params[0] {
                    RpcParam::TextList(uris) => uris[0].clone(),
                    other => panic!("no addresses: {:?}", other),
                };
                let options = match &request.params[1] {
                    RpcParam::Options(options) => options.clone(),
                    other => panic!("no options: {:?}", other),
                };
                let gid = format!("gid{:04}", self.next);
                self.next += 1;
                self.jobs.push(Job { gid: gid.clone(), url, options, paused: false, done: 0 });
                gid
            }
            "aria2.pause" | "aria2.unpause" => {
                let gid = Self::gid_in(&request);
                let job = self.jobs.iter_mut().find(|job| job.gid == gid).unwrap();
                job.paused = request.method == "aria2.pause";
                gid
            }
            "aria2.remove" => {
                let gid = Self::gid_in(&request);
                self.jobs.retain(|job| job.gid != gid);
                gid
            }
            "aria2.tellStatus" => Self::gid_in(&request),
            other => panic!("the played worker does not know {}", other),
        }
    }

    fn report_of(job: &Job) -> StatusReport {
        let path = match &job.options.out {
            Some(out) => format!("{}/{}", job.options.dir, out),
            None => job.options.dir.clone(),
        };
        StatusReport {
            gid: Some(job.gid.clone()),
            total_length: Some("1048576".to_string()),
            completed_length: Some(job.done.to_string()),
            download_speed: Some(if job.paused { "0" } else { "65536" }.to_string()),
            files: Some(vec![FileReport {
                path: Some(path),
                length: Some("1048576".to_string()),
                completed_length: Some(job.done.to_string()),
                uris: vec![job.url.clone()],
            }]),
        }
    }

    fn reports(&self) -> Vec<StatusReport> {
        self.jobs.iter().map(Self::report_of).collect()
    }

    fn report(&self, gid: &str) -> StatusReport {
        Self::report_of(self.jobs.iter().find(|job| job.gid == gid).unwrap())
    }

    /// Lets a second pass.
    fn run(&mut self) {
        for job in self.jobs.iter_mut().filter(|job| !job.paused) {
            job.done = (job.done + 65536).min(1048576);
        }
    }
}

/// The manager with the worker it talks to.
struct Host {
    manager: Aria2DownloadManager,
    worker: Worker,
}

impl Host {
    fn new(rpc_url: &str, secret: Option<String>) -> Host {
        Host {
            manager: Aria2DownloadManager::new(rpc_url.to_string(), secret),
            worker: Worker::new(),
        }
    }

    /// Splits a path at its last slash or backslash.
    fn split(target_path: &str) -> (Option<String>, Option<String>) {
        match target_path.rfind(|c| c == '/' || c == '\\') {
            Some(at) => (
                Some(target_path[..at].to_string()),
                Some(target_path[at + 1..].to_string()),
            ),
            None => (Some(String::new()), Some(target_path.to_string())),
        }
    }

    fn add_download(&mut self, url: &str, target_path: &str) -> Result<TaskId, Aria2Error> {
        let existing = Aria2DownloadManager::get_all_aria2_tasks(
            Some(self.worker.reports()),
            Some(Vec::new()),
            Some(Vec::new()),
        );
        if let Some(task_id) = self.manager.add_download(&existing, url) {
            return Ok(task_id);
        }
        let task = DownloadTask::new(url.to_string(), target_path.to_string(), 0);
        let (dir, name) = Self::split(target_path);
        let gid = match Aria2DownloadManager::plan_download(url, dir, name)? {
            DownloadPlan::Direct(_, options) => {
                self.worker.take(self.manager.start_direct(url, options))
            }
            DownloadPlan::Described(..) => panic!("the played worker fetches no files"),
        };
        self.manager.record(task.id, gid);
        Ok(task.id)
    }

    fn status(&mut self, task_id: TaskId) -> Result<StatusReport, String> {
        let request = self.manager.status_request(task_id).ok_or("Task not found")?;
        let gid = self.worker.take(request);
        Ok(self.worker.report(&gid))
    }

    fn get_task(&mut self, task_id: TaskId) -> Result<DownloadTask, String> {
        let status = self.status(task_id)?;
        Ok(Aria2DownloadManager::get_task(task_id, &status, 1))
    }

    fn get_progress(&mut self, task_id: TaskId) -> Result<DownloadProgress, String> {
        let status = self.status(task_id)?;
        Ok(Aria2DownloadManager::get_progress(&status))
    }

    fn pause_download(&mut self, task_id: TaskId) -> Result<(), String> {
        let request = self.manager.pause_download(task_id).ok_or("Task not found")?;
        self.worker.take(request);
        Ok(())
    }

    fn resume_download(&mut self, task_id: TaskId) -> Result<(), String> {
        let request = self.manager.resume_download(task_id).ok_or("Task not found")?;
        self.worker.take(request);
        Ok(())
    }

    fn cancel_download(&mut self, task_id: TaskId) -> Result<(), String> {
        let request = self.manager.cancel_download(task_id).ok_or("Task not found")?;
        self.worker.take(request);
        Ok(())
    }

    fn list_tasks(&self) -> Vec<DownloadTask> {
        self.manager.list_tasks(&self.worker.reports(), 1)
    }

    fn active_download_count(&self) -> usize {
        Aria2DownloadManager::active_download_count(&Some(self.worker.reports()))
    }
}

#[test]
fn test_http_download_lifecycle() {
    let mut host = Host::new("http://localhost:6800/jsonrpc", None);

    // Add download
    let task_id = host
        .add_download(
            "https://speed.hetzner.de/1MB.bin",
            "C:\\Users\\huang\\Work\\burncloud\\test_downloads\\test_file.bin",
        )
        .expect("Failed to add download");

    // Verify task created
    let task = host.get_task(task_id).expect("Failed to get task");
    assert_eq!(task.id, task_id);
    assert_eq!(
        task.target_path,
        "C:\\Users\\huang\\Work\\burncloud\\test_downloads/test_file.bin"
    );

    // Monitor progress
    for _ in 0..5 {
        host.worker.run();
    }
    let progress = host.get_progress(task_id).expect("Failed to get progress");
    assert_eq!(
        progress,
        DownloadProgress {
            downloaded_bytes: 327680,
            total_bytes: Some(1048576),
            speed_bps: 65536,
            eta_seconds: Some(11),
        }
    );

    // Cancel download
    host.cancel_download(task_id).expect("Failed to cancel download");
    assert!(host.worker.jobs.is_empty());
    assert_eq!(host.get_task(task_id), Err("Task not found".to_string()));
}

#[test]
fn test_pause_resume() {
    let mut host = Host::new("http://localhost:6800/jsonrpc", None);

    let task_id = host
        .add_download(
            "https://speed.hetzner.de/10MB.bin",
            "C:\\Users\\huang\\Work\\burncloud\\test_downloads\\test_pause.bin",
        )
        .expect("Failed to add download");
    host.worker.run();
    host.worker.run();

    // Pause
    host.pause_download(task_id).expect("Failed to pause");
    host.worker.run();
    host.worker.run();
    let task = host.get_task(task_id).expect("Failed to get task");
    assert_eq!(task.id, task_id);
    let paused = host.get_progress(task_id).unwrap();
    assert_eq!((paused.downloaded_bytes, paused.speed_bps, paused.eta_seconds), (131072, 0, None));

    // Resume
    host.resume_download(task_id).expect("Failed to resume");
    host.worker.run();
    host.worker.run();
    let task = host.get_task(task_id).expect("Failed to get task");
    assert_eq!(task.id, task_id);
    assert_eq!(host.get_progress(task_id).unwrap().downloaded_bytes, 262144);

    // Cleanup
    host.cancel_download(task_id).expect("Failed to cancel");
}

#[test]
fn test_invalid_url() {
    let mut host = Host::new("http://localhost:6800/jsonrpc", None);

    let result = host.add_download(
        "invalid://url",
        "C:\\Users\\huang\\Work\\burncloud\\test_downloads\\test.bin",
    );

    assert!(result.is_err());
    assert_eq!(
        result,
        Err(Aria2Error::InvalidUrl("Unsupported URL scheme: invalid://url".to_string()))
    );
    assert!(host.worker.jobs.is_empty());
    assert!(host.list_tasks().is_empty());
}

#[test]
fn test_list_tasks() {
    let mut host = Host::new("http://localhost:6800/jsonrpc", None);

    // Add multiple downloads
    let task_id1 = host
        .add_download(
            "https://speed.hetzner.de/1MB.bin",
            "C:\\Users\\huang\\Work\\burncloud\\test_downloads\\file1.bin",
        )
        .expect("Failed to add download 1");
    let task_id2 = host
        .add_download(
            "https://speed.hetzner.de/5MB.bin",
            "C:\\Users\\huang\\Work\\burncloud\\test_downloads\\file2.bin",
        )
        .expect("Failed to add download 2");

    // List tasks
    let tasks = host.list_tasks();
    assert!(tasks.len() >= 2);
    assert_eq!(tasks.iter().map(|task| task.id).collect::<Vec<_>>(), vec![task_id1, task_id2]);

    // Verify active count
    assert_eq!(host.active_download_count(), 2);

    // Cleanup
    host.cancel_download(task_id1).ok();
    host.cancel_download(task_id2).ok();
    assert!(host.list_tasks().is_empty());
    assert_eq!(host.active_download_count(), 0);
}

#[test]
fn test_url_deduplication() {
    let mut host = Host::new("http://localhost:6800/jsonrpc", None);

    // Add first download
    let task_id1 = host
        .add_download(
            "https://speed.hetzner.de/1MB.bin",
            "C:\\Users\\huang\\Work\\burncloud\\test_downloads\\dedup_test1.bin",
        )
        .expect("Failed to add first download");

    // Add same URL again - should return the same TaskId due to deduplication
    let task_id2 = host
        .add_download(
            "https://speed.hetzner.de/1MB.bin",
            "C:\\Users\\huang\\Work\\burncloud\\test_downloads\\dedup_test2.bin",
        )
        .expect("Failed to add duplicate download");

    // Both task IDs should be the same
    assert_eq!(task_id1, task_id2, "Duplicate URL should return the same TaskId");
    assert_eq!(host.worker.jobs.len(), 1);

    // Add different URL - should create new task
    let task_id3 = host
        .add_download(
            "https://speed.hetzner.de/5MB.bin",
            "C:\\Users\\huang\\Work\\burncloud\\test_downloads\\dedup_test3.bin",
        )
        .expect("Failed to add different download");

    // Third task ID should be different
    assert_ne!(task_id1, task_id3, "Different URL should create new TaskId");
    assert_eq!(host.worker.jobs.len(), 2);

    // Cleanup
    host.cancel_download(task_id1).ok();
    host.cancel_download(task_id3).ok();
}

#[test]
fn secret_travels_with_every_call_of_the_manager() {
    let mut host = Host::new("http://localhost:6800/jsonrpc", Some("s3cret".to_string()));
    host.manager.record(TaskId(1), "gid0001".to_string());
    for request in [
        host.manager.status_request(TaskId(1)).unwrap(),
        host.manager.pause_download(TaskId(1)).unwrap(),
        host.manager.resume_download(TaskId(1)).unwrap(),
        host.manager.cancel_download(TaskId(1)).unwrap(),
    ] {
        assert_eq!(
            request.params,
            vec![RpcParam::Text("token:s3cret".to_string()), RpcParam::Text("gid0001".to_string())]
        );
    }
}
