use burncloud_download_aria2::client::types::RpcParam;
use burncloud_download_aria2::daemon::platform::Platform;
use burncloud_download_aria2::daemon::process::ExitProbe;
use burncloud_download_aria2::simple::{
    download_aria2, download_file, find_available_port, get_burncloud_dir, is_binary_entry,
    is_same_task, rpc_arguments, start_aria2_rpc, wait_for_rpc_ready, Aria2Config, Aria2Daemon,
    Aria2Error, Aria2Instance, Aria2Manager, Aria2RpcClient, Candidate, DownloadOptions,
    DownloadStatus, FileInfo, GlobalStat, ReadinessStep, SetupEffect, SetupEvent, UriInfo,
    WatchStep, ARIA2_BACKUP_URL, ARIA2_MAIN_URL, DEFAULT_PORT, MAX_PORT_RANGE,
};

fn config() -> Aria2Config {
    Aria2Config {
        port: 6800,
        secret: Some("s3cret".to_string()),
        download_dir: "C:\\dl".to_string(),
        max_connections: 16,
        split_size: "1M".to_string(),
        aria2_path: "C:\\bc\\aria2c.exe".to_string(),
    }
}

fn options(dir: Option<&str>) -> DownloadOptions {
    DownloadOptions {
        dir: dir.map(|dir| dir.to_string()),
        out: None,
        split: None,
        max_connection_per_server: None,
        continue_download: None,
    }
}

fn file(path: &str, uris: &[&str]) -> FileInfo {
    FileInfo {
        path: path.to_string(),
        uris: uris
            .iter()
            .map(|uri| UriInfo { uri: uri.to_string(), status: "used".to_string() })
            .collect(),
    }
}

fn instance(pid: u32, port: u16) -> Aria2Instance<u32> {
    Aria2Instance { process: pid, port, config: config() }
}

fn strings(items: &[&str]) -> Vec<String> {
    items.iter().map(|item| item.to_string()).collect()
}

#[test]
fn errors_have_their_texts() {
    assert_eq!(Aria2Error::DownloadError("x".to_string()).message(), "下载错误: x");
    assert_eq!(Aria2Error::PortError("x".to_string()).message(), "端口错误: x");
    assert_eq!(Aria2Error::RpcError("x".to_string()).message(), "RPC错误: x");
    assert_eq!(Aria2Error::DaemonError("x".to_string()).message(), "守护进程错误: x");
    assert_eq!(Aria2Error::ProcessError("x".to_string()).message(), "进程错误: x");
    assert_eq!(Aria2Error::ConfigError("x".to_string()).message(), "配置错误: x");
}

#[test]
fn default_config_for_a_windows_host() {
    let config = Aria2Config::for_host(
        Platform::Windows,
        &Some("C:\\work".to_string()),
        &Some("C:\\Users\\Alice".to_string()),
    );
    assert_eq!(
        config,
        Aria2Config {
            port: 6800,
            secret: None,
            download_dir: "C:\\work\\downloads".to_string(),
            max_connections: 16,
            split_size: "1M".to_string(),
            aria2_path: "C:\\Users\\Alice\\AppData\\Local\\BurnCloud\\aria2c.exe".to_string(),
        }
    );
    assert_eq!(config.clone(), config);
}

#[test]
fn default_config_without_environment() {
    let config = Aria2Config::for_host(Platform::Windows, &None, &None);
    assert_eq!(config.download_dir, "downloads");
    assert_eq!(config.aria2_path, "C:\\Users\\Default\\AppData\\Local\\BurnCloud\\aria2c.exe");
    assert_eq!(
        get_burncloud_dir(Platform::Unix, &Some("/home/a".to_string())),
        "/home/a/AppData/Local/BurnCloud"
    );
}

#[test]
fn plain_records_can_be_copied() {
    let status = DownloadStatus {
        gid: "g".to_string(),
        status: "active".to_string(),
        total_length: "10".to_string(),
        completed_length: "5".to_string(),
        download_speed: "1".to_string(),
    };
    assert_eq!(status.clone(), status);
    let stat = GlobalStat {
        download_speed: "1".to_string(),
        num_active: "2".to_string(),
        num_waiting: "3".to_string(),
    };
    assert_eq!(stat.clone(), stat);
    let uri = UriInfo { uri: "http://a".to_string(), status: "used".to_string() };
    assert_eq!(uri.clone(), uri);
    let options = DownloadOptions {
        dir: Some("/d".to_string()),
        out: Some("o".to_string()),
        split: Some(4),
        max_connection_per_server: Some(8),
        continue_download: Some(true),
    };
    assert_eq!(options.clone(), options);
}

#[test]
fn command_line_with_secret() {
    assert_eq!(
        rpc_arguments(&config(), 6805),
        strings(&[
            "--enable-rpc",
            "--rpc-listen-all",
            "--rpc-listen-port=6805",
            "--dir=C:\\dl",
            "--max-connection-per-server=16",
            "--split=16",
            "--min-split-size=1M",
            "--continue=true",
            "--max-tries=0",
            "--retry-wait=3",
            "--daemon=true",
            "--rpc-secret=s3cret",
        ])
    );
}

#[test]
fn command_line_without_secret() {
    let mut config = config();
    config.secret = None;
    config.max_connections = 255;
    let args = rpc_arguments(&config, 0);
    assert_eq!(args.len(), 11);
    assert_eq!(args[2], "--rpc-listen-port=0");
    assert_eq!(args[4], "--max-connection-per-server=255");
    assert_eq!(args[5], "--split=255");
    assert_eq!(args[10], "--daemon=true");
}

#[test]
fn port_is_taken_from_the_short_range() {
    assert_eq!((DEFAULT_PORT, MAX_PORT_RANGE), (6800, 100));
    assert_eq!(find_available_port(|_| true), Ok(6800));
    assert_eq!(find_available_port(|port| port > 6850), Ok(6851));
    assert_eq!(find_available_port(|port| port == 6900), Ok(6900));
    assert_eq!(
        find_available_port(|port| port > 6900),
        Err(Aria2Error::PortError("未找到可用端口".to_string()))
    );
    assert_eq!(
        find_available_port(|port| port < 6800),
        Err(Aria2Error::PortError("未找到可用端口".to_string()))
    );
}

#[test]
fn launch_is_planned_for_the_free_port() {
    let plan = start_aria2_rpc(&config(), |port| port >= 6802).unwrap();
    assert_eq!(plan.port, 6802);
    assert_eq!(plan.binary, "C:\\bc\\aria2c.exe");
    assert_eq!(plan.args, rpc_arguments(&config(), 6802));
    assert_eq!(
        start_aria2_rpc(&config(), |_| false),
        Err(Aria2Error::PortError("未找到可用端口".to_string()))
    );
}

#[test]
fn endpoint_is_probed_thirty_times() {
    assert_eq!(wait_for_rpc_ready(1, true), ReadinessStep::Ready);
    assert_eq!(wait_for_rpc_ready(30, true), ReadinessStep::Ready);
    assert_eq!(wait_for_rpc_ready(1, false), ReadinessStep::RetryAfter(1));
    assert_eq!(wait_for_rpc_ready(29, false), ReadinessStep::RetryAfter(1));
    assert_eq!(
        wait_for_rpc_ready(30, false),
        ReadinessStep::GiveUpAfter(1, Aria2Error::RpcError("RPC 服务启动超时".to_string()))
    );
    let mut probes = 0;
    let mut attempt = 1;
    loop {
        probes += 1;
        match wait_for_rpc_ready(attempt, false) {
            ReadinessStep::RetryAfter(_) => attempt += 1,
            ReadinessStep::GiveUpAfter(..) => break,
            ReadinessStep::Ready => panic!("the endpoint never answered"),
        }
    }
    assert_eq!(probes, 30);
}

#[test]
fn binary_entry_is_told_by_its_ending() {
    assert!(is_binary_entry("aria2c.exe"));
    assert!(is_binary_entry("aria2-1.37.0/aria2c.exe"));
    assert!(is_binary_entry("not-aria2c.exe"));
    assert!(!is_binary_entry("aria2c.exe.sig"));
    assert!(!is_binary_entry("aria2c"));
    assert!(!is_binary_entry(""));
}

#[test]
fn instance_runs_while_its_process_has_not_ended() {
    let instance = instance(1, 6800);
    assert!(instance.is_running(ExitProbe::StillRunning));
    assert!(!instance.is_running(ExitProbe::Exited));
    assert!(!instance.is_running(ExitProbe::ProbeFailed));
}

#[test]
fn first_failure_of_a_kill_is_the_error() {
    assert_eq!(Aria2Instance::<u32>::kill(None, None), Ok(()));
    assert_eq!(
        Aria2Instance::<u32>::kill(Some("k".to_string()), Some("w".to_string())),
        Err(Aria2Error::ProcessError("k".to_string()))
    );
    assert_eq!(
        Aria2Instance::<u32>::kill(None, Some("w".to_string())),
        Err(Aria2Error::ProcessError("w".to_string()))
    );
}

#[test]
fn same_task_needs_address_and_directory() {
    let files = vec![file("/data/a.bin", &["http://m1/a", "http://m2/a"]), file("/other/b", &["http://x/b"])];
    let uris = strings(&["http://zzz", "http://m2/a"]);
    assert!(is_same_task(&files, &uris, &None));
    assert!(is_same_task(&files, &uris, &Some(options(None))));
    assert!(is_same_task(&files, &uris, &Some(options(Some("/data")))));
    assert!(!is_same_task(&files, &uris, &Some(options(Some("/elsewhere")))));
    assert!(!is_same_task(&files, &strings(&["http://zzz"]), &None));
    assert!(!is_same_task(&files, &vec![], &None));
    assert!(!is_same_task(&vec![], &uris, &None));
    assert!(is_same_task(&files, &strings(&["http://x/b"]), &Some(options(Some("/other")))));
    assert!(!is_same_task(&files, &strings(&["http://x/b"]), &Some(options(Some("/data")))));
}

#[test]
fn existing_task_is_the_first_that_matches() {
    let candidates = vec![
        Candidate { gid: "g0".to_string(), files: None },
        Candidate { gid: "g1".to_string(), files: Some(vec![file("/d/a", &["http://b"])]) },
        Candidate { gid: "g2".to_string(), files: Some(vec![file("/d/a", &["http://a"])]) },
        Candidate { gid: "g3".to_string(), files: Some(vec![file("/d/a", &["http://a"])]) },
    ];
    let find = Aria2RpcClient::find_existing_task;
    assert_eq!(find(&candidates, &strings(&["http://a"]), &None), Some("g2".to_string()));
    assert_eq!(find(&candidates, &strings(&["http://b"]), &None), Some("g1".to_string()));
    assert_eq!(find(&candidates, &strings(&["http://c"]), &None), None);
    assert_eq!(find(&candidates, &strings(&["http://a"]), &Some(options(Some("/e")))), None);
    assert_eq!(find(&vec![], &strings(&["http://a"]), &None), None);
}

#[test]
fn calls_are_numbered_from_one() {
    let mut client = Aria2RpcClient::new(6805, Some("k".to_string()));
    assert_eq!(client.base_url(), "http://localhost:6805/jsonrpc");
    let first = client.tell_active();
    assert_eq!(first.jsonrpc, "2.0");
    assert_eq!(first.id, "1");
    assert_eq!(first.method, "aria2.tellActive");
    assert_eq!(first.params, vec![RpcParam::Text("token:k".to_string())]);
    let second = client.tell_status("g");
    assert_eq!(second.id, "2");
    assert_eq!(
        second.params,
        vec![RpcParam::Text("token:k".to_string()), RpcParam::Text("g".to_string())]
    );
    assert_eq!(client.tell_waiting(0, 1000).id, "3");
    let request = client.call_method("aria2.getVersion", vec![]);
    assert_eq!((request.id.as_str(), request.method.as_str()), ("4", "aria2.getVersion"));
}

#[test]
fn every_call_has_its_method() {
    let mut client = Aria2RpcClient::new(6800, None);
    let gid = vec![RpcParam::Text("g".to_string())];
    let range = vec![RpcParam::Integer(5), RpcParam::Integer(4294967295)];
    assert_eq!(client.tell_status("g").method, "aria2.tellStatus");
    assert_eq!(client.tell_active().params, vec![]);
    let waiting = client.tell_waiting(5, u32::MAX);
    assert_eq!((waiting.method.as_str(), &waiting.params), ("aria2.tellWaiting", &range));
    let stopped = client.tell_stopped(5, u32::MAX);
    assert_eq!((stopped.method.as_str(), &stopped.params), ("aria2.tellStopped", &range));
    let files = client.get_files("g");
    assert_eq!((files.method.as_str(), &files.params), ("aria2.getFiles", &gid));
    assert_eq!(client.get_global_stat().method, "aria2.getGlobalStat");
    assert_eq!(client.pause("g").method, "aria2.pause");
    assert_eq!(client.unpause("g").method, "aria2.unpause");
    let remove = client.remove("g");
    assert_eq!((remove.method.as_str(), &remove.params), ("aria2.remove", &gid));
    let shutdown = client.shutdown();
    assert_eq!((shutdown.method.as_str(), shutdown.id.as_str()), ("aria2.shutdown", "10"));
}

#[test]
fn add_uri_with_and_without_options() {
    let mut client = Aria2RpcClient::new(6800, Some("k".to_string()));
    let uris = strings(&["http://a", "http://b"]);
    let with = client.add_uri(uris.clone(), Some(options(Some("/d"))));
    assert_eq!(with.method, "aria2.addUri");
    assert_eq!(
        with.params,
        vec![
            RpcParam::Text("token:k".to_string()),
            RpcParam::TextList(uris.clone()),
            RpcParam::Settings(options(Some("/d"))),
        ]
    );
    let without = client.add_uri(uris, None);
    assert_eq!(
        without.params,
        vec![
            RpcParam::Text("token:k".to_string()),
            RpcParam::Text("http://a".to_string()),
            RpcParam::Text("http://b".to_string()),
        ]
    );
    assert_eq!(without.id, "2");
}

#[test]
fn server_error_has_its_text() {
    assert_eq!(
        Aria2RpcClient::server_error("{\"code\":1}"),
        Aria2Error::RpcError("服务器错误: {\"code\":1}".to_string())
    );
}

#[test]
fn setup_with_the_binary_in_place() {
    let (mut setup, effect) = download_aria2(Platform::Windows, "C:\\bc".to_string());
    assert_eq!(effect, SetupEffect::CreateDirectory("C:\\bc".to_string()));
    assert_eq!(
        setup.resume(SetupEvent::Completed(Ok(()))),
        SetupEffect::CheckFile("C:\\bc\\aria2c.exe".to_string())
    );
    assert_eq!(
        setup.resume(SetupEvent::Exists(true)),
        SetupEffect::Finished(Ok("C:\\bc\\aria2c.exe".to_string()))
    );
}

#[test]
fn setup_fetches_unpacks_and_confirms() {
    let (mut setup, _) = download_aria2(Platform::Windows, "C:\\bc".to_string());
    setup.resume(SetupEvent::Completed(Ok(())));
    assert_eq!(
        setup.resume(SetupEvent::Exists(false)),
        SetupEffect::Download { url: ARIA2_MAIN_URL.to_string(), to: "C:\\bc\\aria2.zip".to_string() }
    );
    assert_eq!(
        setup.resume(SetupEvent::Completed(Err("timeout".to_string()))),
        SetupEffect::Download {
            url: ARIA2_BACKUP_URL.to_string(),
            to: "C:\\bc\\aria2.zip".to_string()
        }
    );
    assert_eq!(
        setup.resume(SetupEvent::Completed(Ok(()))),
        SetupEffect::Extract { archive: "C:\\bc\\aria2.zip".to_string(), into: "C:\\bc".to_string() }
    );
    assert_eq!(
        setup.resume(SetupEvent::Completed(Ok(()))),
        SetupEffect::RemoveFile("C:\\bc\\aria2.zip".to_string())
    );
    assert_eq!(
        setup.resume(SetupEvent::Completed(Err("in use".to_string()))),
        SetupEffect::CheckFile("C:\\bc\\aria2c.exe".to_string())
    );
    assert_eq!(
        setup.resume(SetupEvent::Exists(true)),
        SetupEffect::Finished(Ok("C:\\bc\\aria2c.exe".to_string()))
    );
}

#[test]
fn setup_fails_on_each_failing_step() {
    let begin = || download_aria2(Platform::Windows, "C:\\bc".to_string()).0;

    let mut setup = begin();
    assert_eq!(
        setup.resume(SetupEvent::Completed(Err("denied".to_string()))),
        SetupEffect::Finished(Err(Aria2Error::DownloadError("创建目录失败: denied".to_string())))
    );

    let mut setup = begin();
    setup.resume(SetupEvent::Completed(Ok(())));
    setup.resume(SetupEvent::Exists(false));
    setup.resume(SetupEvent::Completed(Err("main".to_string())));
    assert_eq!(
        setup.resume(SetupEvent::Completed(Err("backup".to_string()))),
        SetupEffect::Finished(Err(Aria2Error::DownloadError(
            "所有下载链接均失败: 下载错误: backup".to_string()
        )))
    );

    let mut setup = begin();
    setup.resume(SetupEvent::Completed(Ok(())));
    setup.resume(SetupEvent::Exists(false));
    setup.resume(SetupEvent::Completed(Ok(())));
    assert_eq!(
        setup.resume(SetupEvent::Completed(Err("corrupt".to_string()))),
        SetupEffect::Finished(Err(Aria2Error::DownloadError("corrupt".to_string())))
    );

    let mut setup = begin();
    setup.resume(SetupEvent::Completed(Ok(())));
    setup.resume(SetupEvent::Exists(false));
    setup.resume(SetupEvent::Completed(Ok(())));
    setup.resume(SetupEvent::Completed(Ok(())));
    setup.resume(SetupEvent::Completed(Ok(())));
    assert_eq!(
        setup.resume(SetupEvent::Exists(false)),
        SetupEffect::Finished(Err(Aria2Error::DownloadError("解压后未找到 aria2c.exe".to_string())))
    );
}

#[test]
fn download_file_tells_the_first_failure() {
    assert_eq!(download_file(None, None, None, None), Ok(()));
    assert_eq!(
        download_file(Some("dns".to_string()), Some("404".to_string()), None, None),
        Err(Aria2Error::DownloadError("dns".to_string()))
    );
    assert_eq!(
        download_file(None, Some("404 Not Found".to_string()), Some("r".to_string()), None),
        Err(Aria2Error::DownloadError("HTTP错误: 404 Not Found".to_string()))
    );
    assert_eq!(
        download_file(None, None, Some("reset".to_string()), Some("w".to_string())),
        Err(Aria2Error::DownloadError("reset".to_string()))
    );
    assert_eq!(
        download_file(None, None, None, Some("disk full".to_string())),
        Err(Aria2Error::DownloadError("disk full".to_string()))
    );
}

#[test]
fn daemon_starts_once_and_restarts_a_worker_that_has_ended() {
    let mut daemon: Aria2Daemon<u32> = Aria2Daemon::new(config());
    assert!(!daemon.is_running());
    assert_eq!(daemon.get_rpc_client(), None);
    assert_eq!(daemon.watch(ExitProbe::StillRunning), WatchStep::Exit);
    assert_eq!(daemon.start(), Ok(()));
    daemon.started(instance(1, 6803));
    assert!(daemon.is_running());
    assert_eq!(daemon.start(), Err(Aria2Error::DaemonError("守护进程已在运行".to_string())));
    assert_eq!(daemon.get_rpc_client().unwrap().base_url(), "http://localhost:6803/jsonrpc");
    assert_eq!(daemon.instance_mut().map(|instance| instance.process), Some(1));

    assert_eq!(daemon.watch(ExitProbe::StillRunning), WatchStep::Wait);
    assert_eq!(daemon.watch(ExitProbe::Exited), WatchStep::Restart);
    assert_eq!(daemon.watch(ExitProbe::ProbeFailed), WatchStep::Restart);
    daemon.restarted(Err(Aria2Error::PortError("未找到可用端口".to_string())));
    assert_eq!(daemon.instance_mut().map(|instance| instance.process), Some(1));
    daemon.restarted(Ok(instance(2, 6804)));
    assert_eq!(daemon.instance_mut().map(|instance| instance.process), Some(2));
    assert_eq!(daemon.get_rpc_client().unwrap().base_url(), "http://localhost:6804/jsonrpc");

    assert_eq!(daemon.stop(), Some(instance(2, 6804)));
    assert!(!daemon.is_running());
    assert_eq!(daemon.stop(), None);
    assert_eq!(daemon.watch(ExitProbe::StillRunning), WatchStep::Exit);
    assert_eq!(daemon.config(), &config());
}

#[test]
fn manager_has_at_most_one_daemon() {
    let mut manager: Aria2Manager<u32> = Aria2Manager::with_config(config());
    assert!(!manager.is_running());
    assert_eq!(manager.create_rpc_client(), None);
    assert_eq!(manager.get_rpc_client(), None);
    assert_eq!(manager.shutdown(), None);

    let mut daemon = manager.start_daemon().unwrap();
    assert_eq!(daemon.config(), &config());
    daemon.started(instance(1, 6801));
    manager.adopt(daemon);
    assert!(manager.is_running());
    assert_eq!(
        manager.start_daemon(),
        Err(Aria2Error::DaemonError("守护进程已存在".to_string()))
    );
    assert_eq!(manager.create_rpc_client().unwrap().base_url(), "http://localhost:6801/jsonrpc");
    assert_eq!(manager.get_rpc_client(), None);
    assert!(manager.daemon_mut().is_some());

    assert_eq!(manager.shutdown(), Some(instance(1, 6801)));
    assert!(!manager.is_running());
    assert_eq!(manager.shutdown(), None);
    assert!(manager.start_daemon().is_ok());
}

#[test]
fn manager_takes_the_path_of_the_binary() {
    let mut manager: Aria2Manager<u32> =
        Aria2Manager::new(Platform::Windows, &None, &Some("C:\\Users\\A".to_string()));
    assert_eq!(manager.config().aria2_path, "C:\\Users\\A\\AppData\\Local\\BurnCloud\\aria2c.exe");
    assert_eq!(
        manager.download_and_setup(Err(Aria2Error::DownloadError("x".to_string()))),
        Err(Aria2Error::DownloadError("x".to_string()))
    );
    assert_eq!(manager.config().aria2_path, "C:\\Users\\A\\AppData\\Local\\BurnCloud\\aria2c.exe");
    assert_eq!(manager.download_and_setup(Ok("D:\\aria2c.exe".to_string())), Ok(()));
    assert_eq!(manager.config().aria2_path, "D:\\aria2c.exe");
    assert_eq!(manager.config().port, 6800);
}
