use burncloud_download_aria2::client::types::{Aria2Options, FileReport, RpcParam, StatusReport};
use burncloud_download_aria2::manager::mapper::{map_aria2_status, Aria2Status, DownloadStatus};
use burncloud_download_aria2::manager::registry::{TaskId, TaskRegistry};
use burncloud_download_aria2::manager::state::{StateManager, TaskState};
use burncloud_download_aria2::manager::{
    Aria2DownloadManager, DownloadPlan, DownloadProgress, DownloadTask, DownloadType,
};
use burncloud_download_aria2::{Aria2Error, DaemonConfig};

fn create_test_status(status: &str) -> Aria2Status {
    Aria2Status {
        gid: "test123".to_string(),
        status: status.to_string(),
        total_length: "1000".to_string(),
        completed_length: "500".to_string(),
        download_speed: "100".to_string(),
        upload_speed: "0".to_string(),
        files: vec![],
        error_code: None,
        error_message: None,
    }
}

fn report(gid: &str, path: &str, uris: &[&str]) -> StatusReport {
    StatusReport {
        gid: Some(gid.to_string()),
        total_length: Some("1000".to_string()),
        completed_length: Some("250".to_string()),
        download_speed: Some("50".to_string()),
        files: Some(vec![FileReport {
            path: Some(path.to_string()),
            length: Some("1000".to_string()),
            completed_length: Some("250".to_string()),
            uris: uris.iter().map(|uri| uri.to_string()).collect(),
        }]),
    }
}

fn task(id: u128, url: &str) -> DownloadTask {
    DownloadTask {
        id: TaskId(id),
        url: url.to_string(),
        target_path: "/tmp/file".to_string(),
        updated_at: 1,
    }
}

#[test]
fn test_map_active_status() {
    let status = create_test_status("active");
    assert_eq!(map_aria2_status(&status), DownloadStatus::Downloading);
}

#[test]
fn test_map_waiting_status() {
    let status = create_test_status("waiting");
    assert_eq!(map_aria2_status(&status), DownloadStatus::Waiting);
}

#[test]
fn test_map_paused_status() {
    let status = create_test_status("paused");
    assert_eq!(map_aria2_status(&status), DownloadStatus::Paused);
}

#[test]
fn test_map_complete_status() {
    let status = create_test_status("complete");
    assert_eq!(map_aria2_status(&status), DownloadStatus::Completed);
}

#[test]
fn test_map_error_status() {
    let mut status = create_test_status("error");
    status.error_message = Some("Connection failed".to_string());
    match map_aria2_status(&status) {
        DownloadStatus::Failed(msg) => assert_eq!(msg, "Connection failed"),
        _ => panic!("Expected Failed status"),
    }
}

#[test]
fn error_without_text_is_shown_by_its_number() {
    let mut status = create_test_status("error");
    status.error_code = Some("3".to_string());
    assert_eq!(map_aria2_status(&status), DownloadStatus::Failed("Error code: 3".to_string()));
    status.error_code = None;
    assert_eq!(
        map_aria2_status(&status),
        DownloadStatus::Failed("Error code: unknown".to_string())
    );
}

#[test]
fn removed_and_unknown_states_are_failures() {
    assert_eq!(
        map_aria2_status(&create_test_status("removed")),
        DownloadStatus::Failed("Download cancelled".to_string())
    );
    assert_eq!(
        map_aria2_status(&create_test_status("sleeping")),
        DownloadStatus::Failed("Unknown status: sleeping".to_string())
    );
    assert_eq!(
        map_aria2_status(&create_test_status("Active")),
        DownloadStatus::Failed("Unknown status: Active".to_string())
    );
}

#[test]
fn download_type_follows_the_address() {
    let kind = Aria2DownloadManager::detect_download_type;
    assert_eq!(kind("magnet:?xt=urn:btih:abc"), Ok(DownloadType::Magnet));
    assert_eq!(kind("http://example.com/a.torrent"), Ok(DownloadType::Torrent));
    assert_eq!(kind("/local/a.torrent"), Ok(DownloadType::Torrent));
    assert_eq!(kind("http://example.com/a.metalink"), Ok(DownloadType::Metalink));
    assert_eq!(kind("http://example.com/a.meta4"), Ok(DownloadType::Metalink));
    assert_eq!(kind("http://example.com/file.bin"), Ok(DownloadType::Http));
    assert_eq!(kind("https://example.com/file.bin"), Ok(DownloadType::Http));
    assert_eq!(kind("ftp://example.com/file.bin"), Ok(DownloadType::Http));
    assert_eq!(kind("magnet:x.torrent"), Ok(DownloadType::Magnet));
}

#[test]
fn unknown_scheme_is_refused() {
    assert_eq!(
        Aria2DownloadManager::detect_download_type("invalid://not-a-real-url"),
        Err(Aria2Error::InvalidUrl("Unsupported URL scheme: invalid://not-a-real-url".to_string()))
    );
    assert_eq!(
        Aria2DownloadManager::detect_download_type(""),
        Err(Aria2Error::InvalidUrl("Unsupported URL scheme: ".to_string()))
    );
    assert_eq!(
        Aria2DownloadManager::detect_download_type("HTTP://example.com"),
        Err(Aria2Error::InvalidUrl("Unsupported URL scheme: HTTP://example.com".to_string()))
    );
}

#[test]
fn port_is_read_from_the_address() {
    let port = Aria2DownloadManager::extract_port_from_url;
    assert_eq!(port("http://localhost:6800/jsonrpc"), Some(6800));
    assert_eq!(port("http://localhost:6801"), Some(6801));
    assert_eq!(port("http://localhost:+80/x"), Some(80));
    assert_eq!(port("http://localhost:65535/"), Some(65535));
    assert_eq!(port("http://localhost:65536/"), None);
    assert_eq!(port("http://localhost/jsonrpc"), None);
    assert_eq!(port("http://localhost:/jsonrpc"), None);
    assert_eq!(port("http://localhost:abc/jsonrpc"), None);
    assert_eq!(port("localhost:6800"), None);
    assert_eq!(port("a:b:1:2"), Some(1));
    assert_eq!(port(""), None);
}

#[test]
fn daemon_config_takes_port_and_secret() {
    let defaults = DaemonConfig {
        rpc_port: 1,
        rpc_secret: "x".to_string(),
        download_dir: "/d".to_string(),
        session_file: "/d/s".to_string(),
        max_restart_attempts: 10,
        health_check_interval_secs: 10,
    };
    let config = Aria2DownloadManager::daemon_config(
        "http://localhost:6900/jsonrpc",
        &Some("mine".to_string()),
        defaults.clone(),
    );
    assert_eq!(config.rpc_port, 6900);
    assert_eq!(config.rpc_secret, "mine");
    assert_eq!(config.download_dir, "/d");
    assert_eq!(config.session_file, "/d/s");
    let config = Aria2DownloadManager::daemon_config("http://localhost/jsonrpc", &None, defaults);
    assert_eq!(config.rpc_port, 6800);
    assert_eq!(config.rpc_secret, "burncloud");
    assert_eq!(config.max_restart_attempts, 10);
}

#[test]
fn progress_is_read_from_the_report() {
    let progress = Aria2DownloadManager::get_progress(&report("g", "/f", &[]));
    assert_eq!(
        progress,
        DownloadProgress {
            downloaded_bytes: 250,
            total_bytes: Some(1000),
            speed_bps: 50,
            eta_seconds: Some(15),
        }
    );
}

#[test]
fn progress_of_an_empty_report_is_zero() {
    let status = StatusReport {
        gid: None,
        total_length: None,
        completed_length: Some("oops".to_string()),
        download_speed: None,
        files: None,
    };
    assert_eq!(
        Aria2DownloadManager::get_progress(&status),
        DownloadProgress { downloaded_bytes: 0, total_bytes: None, speed_bps: 0, eta_seconds: None }
    );
}

#[test]
fn no_time_left_for_a_job_that_stands_or_is_complete() {
    let mut status = report("g", "/f", &[]);
    status.download_speed = Some("0".to_string());
    assert_eq!(Aria2DownloadManager::get_progress(&status).eta_seconds, None);
    status.download_speed = Some("10".to_string());
    status.completed_length = Some("1000".to_string());
    assert_eq!(Aria2DownloadManager::get_progress(&status).eta_seconds, None);
    status.completed_length = Some("999".to_string());
    assert_eq!(Aria2DownloadManager::get_progress(&status).eta_seconds, Some(0));
    status.completed_length = Some("0".to_string());
    status.download_speed = Some("3".to_string());
    assert_eq!(Aria2DownloadManager::get_progress(&status).eta_seconds, Some(333));
}

#[test]
fn task_is_told_from_the_report() {
    let task = Aria2DownloadManager::get_task(TaskId(7), &report("g", "/tmp/file.bin", &[]), 99);
    assert_eq!(
        task,
        DownloadTask {
            id: TaskId(7),
            url: String::new(),
            target_path: "/tmp/file.bin".to_string(),
            updated_at: 99,
        }
    );
    let mut bare = report("g", "/x", &[]);
    bare.files = Some(vec![]);
    assert_eq!(Aria2DownloadManager::get_task(TaskId(7), &bare, 1).target_path, "unknown");
    bare.files = None;
    assert_eq!(Aria2DownloadManager::get_task(TaskId(7), &bare, 1).target_path, "unknown");
    bare.files = Some(vec![FileReport { path: None, length: None, completed_length: None, uris: vec![] }]);
    assert_eq!(Aria2DownloadManager::get_task(TaskId(7), &bare, 1).target_path, "unknown");
}

#[test]
fn new_tasks_get_identifiers_of_their_own() {
    let first = DownloadTask::new("http://a".to_string(), "/a".to_string(), 5);
    let second = DownloadTask::new("http://a".to_string(), "/a".to_string(), 5);
    assert_ne!(first.id, second.id);
    assert_eq!(first.url, "http://a");
    assert_eq!(first.target_path, "/a");
    assert_eq!(first.updated_at, 5);
    assert_eq!(first.clone(), first);
}

#[test]
fn all_tasks_are_the_three_lists_in_order() {
    let all = Aria2DownloadManager::get_all_aria2_tasks(
        Some(vec![report("a", "/a", &[])]),
        None,
        Some(vec![report("s1", "/s1", &[]), report("s2", "/s2", &[])]),
    );
    let gids: Vec<_> = all.iter().map(|task| task.gid.clone().unwrap()).collect();
    assert_eq!(gids, vec!["a", "s1", "s2"]);
    assert_eq!(Aria2DownloadManager::get_all_aria2_tasks(None, None, None), vec![]);
    let all = Aria2DownloadManager::get_all_aria2_tasks(
        Some(vec![report("a", "/a", &[])]),
        Some(vec![report("w", "/w", &[])]),
        Some(vec![report("s", "/s", &[])]),
    );
    let gids: Vec<_> = all.iter().map(|task| task.gid.clone().unwrap()).collect();
    assert_eq!(gids, vec!["a", "w", "s"]);
}

#[test]
fn download_that_runs_already_is_not_started_again() {
    let mut manager = Aria2DownloadManager::new("http://localhost:6800/jsonrpc".to_string(), None);
    manager.record(TaskId(1), "g1".to_string());
    manager.record(TaskId(2), "g2".to_string());
    let existing = vec![
        report("g0", "/a", &["http://example.com/x"]),
        report("g2", "/b", &["http://example.com/y", "http://example.com/x"]),
        report("g1", "/c", &["http://example.com/x"]),
    ];
    // The job g0 fetches the address but belongs to no task of ours.
    assert_eq!(manager.add_download(&existing, "http://example.com/x"), Some(TaskId(2)));
    assert_eq!(manager.add_download(&existing, "http://example.com/y"), Some(TaskId(2)));
    assert_eq!(manager.add_download(&existing, "http://example.com/z"), None);
    assert_eq!(manager.add_download(&vec![], "http://example.com/x"), None);
}

#[test]
fn plan_tells_how_the_worker_is_asked() {
    let options = Aria2Options { dir: "/tmp".to_string(), out: Some("f".to_string()) };
    assert_eq!(
        Aria2DownloadManager::plan_download(
            "http://example.com/f",
            Some("/tmp".to_string()),
            Some("f".to_string())
        ),
        Ok(DownloadPlan::Direct(DownloadType::Http, options.clone()))
    );
    assert_eq!(
        Aria2DownloadManager::plan_download(
            "magnet:?xt=1",
            Some("/tmp".to_string()),
            Some("f".to_string())
        ),
        Ok(DownloadPlan::Direct(DownloadType::Magnet, options.clone()))
    );
    assert_eq!(
        Aria2DownloadManager::plan_download(
            "http://example.com/f.torrent",
            Some("/tmp".to_string()),
            Some("f".to_string())
        ),
        Ok(DownloadPlan::Described(DownloadType::Torrent, options.clone()))
    );
    assert_eq!(
        Aria2DownloadManager::plan_download(
            "http://example.com/f.meta4",
            Some("/tmp".to_string()),
            None
        ),
        Ok(DownloadPlan::Described(
            DownloadType::Metalink,
            Aria2Options { dir: "/tmp".to_string(), out: None }
        ))
    );
}

#[test]
fn plan_refuses_bad_address_before_bad_target() {
    assert_eq!(
        Aria2DownloadManager::plan_download("invalid://x", None, None),
        Err(Aria2Error::InvalidUrl("Unsupported URL scheme: invalid://x".to_string()))
    );
    assert_eq!(
        Aria2DownloadManager::plan_download("http://x", None, Some("f".to_string())),
        Err(Aria2Error::InvalidPath("Invalid target path".to_string()))
    );
}

#[test]
fn start_requests_ask_the_worker() {
    let manager = Aria2DownloadManager::new("u".to_string(), Some("k".to_string()));
    let options = Aria2Options { dir: "/tmp".to_string(), out: None };
    let direct = manager.start_direct("http://example.com/f", options.clone());
    assert_eq!(direct.method, "aria2.addUri");
    assert_eq!(
        direct.params,
        vec![
            RpcParam::Text("token:k".to_string()),
            RpcParam::TextList(vec!["http://example.com/f".to_string()]),
            RpcParam::Options(options.clone()),
        ]
    );
    let torrent = manager.start_described(DownloadType::Torrent, b"abc".to_vec(), options.clone());
    assert_eq!(torrent.method, "aria2.addTorrent");
    assert_eq!(torrent.params[1], RpcParam::Text("YWJj".to_string()));
    let metalink = manager.start_described(DownloadType::Metalink, b"abc".to_vec(), options);
    assert_eq!(metalink.method, "aria2.addMetalink");
    assert_eq!(metalink.params[1], RpcParam::Text("YWJj".to_string()));
}

#[test]
fn known_tasks_can_be_paused_resumed_and_asked_about() {
    let mut manager = Aria2DownloadManager::new("u".to_string(), None);
    manager.record(TaskId(1), "g1".to_string());
    assert_eq!(manager.gid(TaskId(1)), Some("g1".to_string()));
    let pause = manager.pause_download(TaskId(1)).unwrap();
    assert_eq!(pause.method, "aria2.pause");
    assert_eq!(pause.params, vec![RpcParam::Text("g1".to_string())]);
    let resume = manager.resume_download(TaskId(1)).unwrap();
    assert_eq!(resume.method, "aria2.unpause");
    let status = manager.status_request(TaskId(1)).unwrap();
    assert_eq!(status.method, "aria2.tellStatus");
    assert_eq!(status.params, vec![RpcParam::Text("g1".to_string())]);
    assert_eq!(manager.pause_download(TaskId(2)), None);
    assert_eq!(manager.resume_download(TaskId(2)), None);
    assert_eq!(manager.status_request(TaskId(2)), None);
}

#[test]
fn cancelled_task_is_forgotten() {
    let mut manager = Aria2DownloadManager::new("u".to_string(), None);
    manager.record(TaskId(1), "g1".to_string());
    let remove = manager.cancel_download(TaskId(1)).unwrap();
    assert_eq!(remove.method, "aria2.remove");
    assert_eq!(remove.params, vec![RpcParam::Text("g1".to_string())]);
    assert_eq!(manager.gid(TaskId(1)), None);
    assert_eq!(manager.cancel_download(TaskId(1)), None);
    assert_eq!(manager.pause_download(TaskId(1)), None);
}

#[test]
fn listed_tasks_are_those_of_the_manager() {
    let mut manager = Aria2DownloadManager::new("u".to_string(), None);
    manager.record(TaskId(1), "g1".to_string());
    manager.record(TaskId(2), "g2".to_string());
    let reports = vec![report("g2", "/two", &[]), report("gx", "/x", &[]), report("g1", "/one", &[])];
    let tasks = manager.list_tasks(&reports, 77);
    assert_eq!(
        tasks,
        vec![
            DownloadTask {
                id: TaskId(2),
                url: String::new(),
                target_path: "/two".to_string(),
                updated_at: 77
            },
            DownloadTask {
                id: TaskId(1),
                url: String::new(),
                target_path: "/one".to_string(),
                updated_at: 77
            },
        ]
    );
    assert_eq!(manager.list_tasks(&vec![], 77), vec![]);
}

#[test]
fn active_downloads_are_counted() {
    assert_eq!(Aria2DownloadManager::active_download_count(&None), 0);
    assert_eq!(Aria2DownloadManager::active_download_count(&Some(vec![])), 0);
    assert_eq!(
        Aria2DownloadManager::active_download_count(&Some(vec![
            report("a", "/a", &[]),
            report("b", "/b", &[])
        ])),
        2
    );
}

#[test]
fn registry_behaves_as_a_map() {
    let mut registry = TaskRegistry::new();
    assert_eq!(registry.len(), 0);
    assert_eq!(registry.get(TaskId(1)), None);
    registry.insert(TaskId(1), "a".to_string());
    registry.insert(TaskId(2), "b".to_string());
    registry.insert(TaskId(1), "c".to_string());
    assert_eq!(registry.len(), 2);
    assert_eq!(registry.get(TaskId(1)), Some("c".to_string()));
    assert_eq!(registry.get(TaskId(2)), Some("b".to_string()));
    assert_eq!(registry.owner("c"), Some(TaskId(1)));
    assert_eq!(registry.owner("a"), None);
    assert_eq!(registry.remove(TaskId(1)), Some("c".to_string()));
    assert_eq!(registry.remove(TaskId(1)), None);
    assert_eq!(registry.get(TaskId(1)), None);
    assert_eq!(registry.get(TaskId(2)), Some("b".to_string()));
    assert_eq!(registry.len(), 1);
}

#[test]
fn registry_names_an_owner_of_a_shared_job() {
    let mut registry = TaskRegistry::new();
    registry.insert(TaskId(5), "g".to_string());
    registry.insert(TaskId(3), "g".to_string());
    registry.insert(TaskId(9), "h".to_string());
    let owner = registry.owner("g");
    assert!(owner == Some(TaskId(5)) || owner == Some(TaskId(3)));
    registry.remove(TaskId(5));
    assert_eq!(registry.owner("g"), Some(TaskId(3)));
    registry.remove(TaskId(3));
    assert_eq!(registry.owner("g"), None);
    assert_eq!(registry.owner("h"), Some(TaskId(9)));
}

#[test]
fn state_manager_remembers_tasks() {
    let mut manager = StateManager::new();
    assert_eq!(manager.get_gid(TaskId(1)), None);
    assert_eq!(manager.list_all_states(), vec![]);
    manager.add_task(task(1, "http://a"), "g1".to_string());
    manager.add_task(task(2, "http://b"), "g2".to_string());
    assert_eq!(manager.get_gid(TaskId(1)), Some("g1".to_string()));
    assert_eq!(
        manager.get_state("g2"),
        Some(TaskState { task: task(2, "http://b"), aria2_gid: "g2".to_string() })
    );
    assert_eq!(manager.get_state("g3"), None);
    assert_eq!(manager.list_all_states().len(), 2);
}

#[test]
fn state_manager_updates_and_removes() {
    let mut manager = StateManager::new();
    manager.add_task(task(1, "http://a"), "g1".to_string());
    manager.update_task("g1", task(1, "http://changed"));
    assert_eq!(manager.get_state("g1").unwrap().task.url, "http://changed");
    manager.update_task("nope", task(9, "http://x"));
    assert_eq!(manager.list_all_states().len(), 1);
    assert_eq!(manager.remove_task(TaskId(1)), Some("g1".to_string()));
    assert_eq!(manager.remove_task(TaskId(1)), None);
    assert_eq!(manager.get_gid(TaskId(1)), None);
    assert_eq!(manager.get_state("g1"), None);
    assert_eq!(manager.list_all_states(), vec![]);
}

#[test]
fn task_entered_again_leaves_the_old_state() {
    let mut manager = StateManager::new();
    manager.add_task(task(1, "http://a"), "g1".to_string());
    manager.add_task(task(1, "http://a"), "g2".to_string());
    assert_eq!(manager.get_gid(TaskId(1)), Some("g2".to_string()));
    assert!(manager.get_state("g1").is_some());
    assert!(manager.get_state("g2").is_some());
    assert_eq!(manager.remove_task(TaskId(1)), Some("g2".to_string()));
    assert!(manager.get_state("g1").is_some());
    assert_eq!(manager.get_state("g2"), None);
}
