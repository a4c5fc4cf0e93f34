use burncloud_download_aria2::daemon::process::{
    launch_arguments, ExitProbe, Goal, KillOutcome, Phase, ProcessConfig, ProcessEffect,
    ProcessHandle, ProcessOutcome,
};
use burncloud_download_aria2::Aria2Error;

fn config(max_restart_attempts: u32) -> ProcessConfig {
    ProcessConfig {
        rpc_port: 6800,
        rpc_secret: "test".to_string(),
        download_dir: "/tmp".to_string(),
        session_file: "/tmp/aria2.session".to_string(),
        max_restart_attempts,
    }
}

fn handle(max_restart_attempts: u32) -> ProcessHandle<u32> {
    ProcessHandle::new("test_binary".to_string(), config(max_restart_attempts))
}

fn strings(items: &[&str]) -> Vec<String> {
    items.iter().map(|item| item.to_string()).collect()
}

/// Carries a start to its end for a host on which every step works.
fn launch(handle: &mut ProcessHandle<u32>, session_exists: bool, pid: u32) -> Result<(), Aria2Error> {
    let mut effect = handle.start_process();
    loop {
        let outcome = match effect {
            ProcessEffect::Kill(process) => ProcessOutcome::Killed(process, KillOutcome::Killed),
            ProcessEffect::Reap(_) => ProcessOutcome::Reaped,
            ProcessEffect::EnsureDirectory(_) => ProcessOutcome::Directory(Ok(())),
            ProcessEffect::EnsureParentDirectory(_) => ProcessOutcome::Directory(Ok(())),
            ProcessEffect::ProbeFile(_) => ProcessOutcome::FileExists(session_exists),
            ProcessEffect::Spawn { .. } => ProcessOutcome::Spawned(Ok(pid)),
            ProcessEffect::Finished(result) => return result,
        };
        effect = handle.resume(outcome);
    }
}

/// Carries a stop to its end for a host whose termination signal came to
/// `signal`.
fn stop(handle: &mut ProcessHandle<u32>, signal: KillOutcome) -> Result<(), Aria2Error> {
    let mut signal = Some(signal);
    let mut effect = handle.stop_process();
    loop {
        let outcome = match effect {
            ProcessEffect::Kill(process) => {
                ProcessOutcome::Killed(process, signal.take().unwrap())
            }
            ProcessEffect::Reap(_) => ProcessOutcome::Reaped,
            ProcessEffect::Finished(result) => return result,
            other => panic!("a stop does not ask for {:?}", other),
        };
        effect = handle.resume(outcome);
    }
}

#[test]
fn test_process_config_creation() {
    let config = ProcessConfig {
        rpc_port: 6800,
        rpc_secret: "test_secret".to_string(),
        download_dir: "/tmp".to_string(),
        session_file: "/tmp/aria2.session".to_string(),
        max_restart_attempts: 5,
    };

    assert_eq!(config.rpc_port, 6800);
    assert_eq!(config.rpc_secret, "test_secret");
    assert_eq!(config.max_restart_attempts, 5);
}

#[test]
fn test_restart_counter_increment() {
    let mut handle = handle(10);

    assert_eq!(handle.increment_restart_count(), 1);
    assert_eq!(handle.increment_restart_count(), 2);
    assert_eq!(handle.increment_restart_count(), 3);

    handle.reset_restart_count();
    assert_eq!(handle.increment_restart_count(), 1);
}

#[test]
fn test_max_restart_attempts() {
    let handle = handle(5);
    assert_eq!(handle.max_restart_attempts(), 5);
}

#[test]
fn test_process_not_running_initially() {
    let mut handle: ProcessHandle<u32> =
        ProcessHandle::new("nonexistent_binary".to_string(), config(10));
    assert!(!handle.is_running(ExitProbe::StillRunning));
    assert!(!handle.is_running(ExitProbe::Exited));
    assert!(!handle.is_running(ExitProbe::ProbeFailed));
}

#[test]
fn restart_count_is_read_without_counting() {
    let mut handle = handle(10);
    assert_eq!(handle.restart_count(), 0);
    handle.increment_restart_count();
    handle.increment_restart_count();
    assert_eq!(handle.restart_count(), 2);
    assert_eq!(handle.restart_count(), 2);
}

#[test]
fn launch_arguments_without_session() {
    let args = launch_arguments(&config(3), false, false);
    assert_eq!(
        args,
        strings(&[
            "--enable-rpc",
            "--rpc-listen-port",
            "6800",
            "--rpc-secret",
            "test",
            "--dir",
            "/tmp",
            "--continue",
            "--save-session",
            "/tmp/aria2.session",
            "--save-session-interval",
            "60",
        ])
    );
}

#[test]
fn launch_arguments_with_session_and_quiet() {
    let mut config = config(3);
    config.rpc_port = 65535;
    let args = launch_arguments(&config, true, true);
    assert_eq!(
        args,
        strings(&[
            "--enable-rpc",
            "--rpc-listen-port",
            "65535",
            "--rpc-secret",
            "test",
            "--dir",
            "/tmp",
            "--continue",
            "--save-session",
            "/tmp/aria2.session",
            "--save-session-interval",
            "60",
            "--input-file",
            "/tmp/aria2.session",
            "--quiet",
        ])
    );
}

#[test]
fn launch_arguments_write_port_zero() {
    let mut config = config(3);
    config.rpc_port = 0;
    let args = launch_arguments(&config, false, true);
    assert_eq!(args[2], "0");
    assert_eq!(args[args.len() - 1], "--quiet");
    assert_eq!(args.len(), 13);
}

#[test]
fn start_goes_through_every_step_in_order() {
    let mut handle = handle(3);
    assert_eq!(handle.start_process(), ProcessEffect::EnsureDirectory("/tmp".to_string()));
    assert_eq!(handle.phase(), Phase::EnsuringDownloadDir);
    assert_eq!(
        handle.resume(ProcessOutcome::Directory(Ok(()))),
        ProcessEffect::EnsureParentDirectory("/tmp/aria2.session".to_string())
    );
    assert_eq!(
        handle.resume(ProcessOutcome::Directory(Ok(()))),
        ProcessEffect::ProbeFile("/tmp/aria2.session".to_string())
    );
    assert_eq!(
        handle.resume(ProcessOutcome::FileExists(true)),
        ProcessEffect::Spawn {
            binary: "test_binary".to_string(),
            args: launch_arguments(&config(3), true, false),
        }
    );
    assert!(!handle.has_process());
    assert!(!handle.is_running(ExitProbe::StillRunning));
    assert_eq!(handle.phase(), Phase::Spawning);
    assert_eq!(handle.resume(ProcessOutcome::Spawned(Ok(7))), ProcessEffect::Finished(Ok(())));
    assert_eq!(handle.phase(), Phase::Idle);
    assert!(handle.has_process());
    assert_eq!(handle.process_mut(), Some(&mut 7));
    assert!(handle.is_running(ExitProbe::StillRunning));
}

#[test]
fn quiet_handle_launches_a_quiet_worker() {
    let mut handle = handle(3);
    handle.set_quiet(true);
    handle.start_process();
    handle.resume(ProcessOutcome::Directory(Ok(())));
    handle.resume(ProcessOutcome::Directory(Ok(())));
    assert_eq!(
        handle.resume(ProcessOutcome::FileExists(false)),
        ProcessEffect::Spawn {
            binary: "test_binary".to_string(),
            args: launch_arguments(&config(3), false, true),
        }
    );
}

#[test]
fn start_stops_the_old_process_first() {
    let mut handle = handle(3);
    assert_eq!(launch(&mut handle, false, 1), Ok(()));
    assert_eq!(handle.start_process(), ProcessEffect::Kill(1));
    assert_eq!(handle.phase(), Phase::Killing(Goal::Launch));
    assert!(!handle.has_process());
    assert_eq!(
        handle.resume(ProcessOutcome::Killed(1, KillOutcome::AlreadyExited)),
        ProcessEffect::Reap(1)
    );
    assert_eq!(handle.phase(), Phase::Reaping(Goal::Launch));
    assert_eq!(
        handle.resume(ProcessOutcome::Reaped),
        ProcessEffect::EnsureDirectory("/tmp".to_string())
    );
    handle.resume(ProcessOutcome::Directory(Ok(())));
    handle.resume(ProcessOutcome::Directory(Ok(())));
    handle.resume(ProcessOutcome::FileExists(false));
    assert_eq!(handle.resume(ProcessOutcome::Spawned(Ok(2))), ProcessEffect::Finished(Ok(())));
    assert_eq!(handle.process_mut(), Some(&mut 2));
}

#[test]
fn start_fails_when_the_old_process_cannot_be_killed() {
    let mut handle = handle(3);
    launch(&mut handle, false, 1).unwrap();
    handle.start_process();
    assert_eq!(
        handle.resume(ProcessOutcome::Killed(1, KillOutcome::Failed("denied".to_string()))),
        ProcessEffect::Finished(Err(Aria2Error::ProcessManagementError(
            "Failed to kill process: denied".to_string()
        )))
    );
    assert!(!handle.has_process());
    assert_eq!(handle.phase(), Phase::Idle);
}

#[test]
fn start_fails_when_the_download_directory_cannot_be_made() {
    let mut handle = handle(3);
    handle.start_process();
    assert_eq!(
        handle.resume(ProcessOutcome::Directory(Err("\"/tmp\": read-only".to_string()))),
        ProcessEffect::Finished(Err(Aria2Error::ProcessStartFailed(
            "Failed to create download directory \"/tmp\": read-only".to_string()
        )))
    );
    assert_eq!(handle.phase(), Phase::Idle);
}

#[test]
fn start_fails_when_the_session_directory_cannot_be_made() {
    let mut handle = handle(3);
    handle.start_process();
    handle.resume(ProcessOutcome::Directory(Ok(())));
    assert_eq!(
        handle.resume(ProcessOutcome::Directory(Err("\"/tmp\": read-only".to_string()))),
        ProcessEffect::Finished(Err(Aria2Error::ProcessStartFailed(
            "Failed to create session directory \"/tmp\": read-only".to_string()
        )))
    );
}

#[test]
fn start_fails_when_the_worker_cannot_be_spawned() {
    let mut handle = handle(3);
    handle.start_process();
    handle.resume(ProcessOutcome::Directory(Ok(())));
    handle.resume(ProcessOutcome::Directory(Ok(())));
    handle.resume(ProcessOutcome::FileExists(false));
    assert_eq!(
        handle.resume(ProcessOutcome::Spawned(Err("No such file or directory".to_string()))),
        ProcessEffect::Finished(Err(Aria2Error::ProcessStartFailed(
            "Failed to spawn aria2: No such file or directory".to_string()
        )))
    );
    assert!(!handle.has_process());
    assert!(!handle.is_running(ExitProbe::StillRunning));
}

#[test]
fn outcome_that_answers_nothing_ends_the_operation() {
    let mut handle = handle(3);
    assert_eq!(
        handle.resume(ProcessOutcome::Spawned(Ok(9))),
        ProcessEffect::Finished(Err(Aria2Error::General(
            "outcome does not answer the step under way".to_string()
        )))
    );
    assert!(!handle.has_process());
    handle.start_process();
    assert_eq!(
        handle.resume(ProcessOutcome::Reaped),
        ProcessEffect::Finished(Err(Aria2Error::General(
            "outcome does not answer the step under way".to_string()
        )))
    );
    assert_eq!(handle.phase(), Phase::Idle);
}

#[test]
fn stop_kills_and_reaps() {
    let mut handle = handle(3);
    launch(&mut handle, false, 5).unwrap();
    assert_eq!(handle.stop_process(), ProcessEffect::Kill(5));
    assert_eq!(handle.phase(), Phase::Killing(Goal::Stop));
    assert_eq!(
        handle.resume(ProcessOutcome::Killed(5, KillOutcome::Killed)),
        ProcessEffect::Reap(5)
    );
    assert_eq!(handle.resume(ProcessOutcome::Reaped), ProcessEffect::Finished(Ok(())));
    assert!(!handle.has_process());
    assert_eq!(handle.phase(), Phase::Idle);
}

#[test]
fn stop_of_a_process_that_is_gone_succeeds() {
    let mut handle = handle(3);
    launch(&mut handle, false, 5).unwrap();
    assert_eq!(stop(&mut handle, KillOutcome::AlreadyExited), Ok(()));
    assert!(!handle.has_process());
}

#[test]
fn stop_that_cannot_kill_fails_and_still_lets_go() {
    let mut handle = handle(3);
    launch(&mut handle, false, 5).unwrap();
    assert_eq!(
        stop(&mut handle, KillOutcome::Failed("denied".to_string())),
        Err(Aria2Error::ProcessManagementError("Failed to kill process: denied".to_string()))
    );
    assert!(!handle.has_process());
    assert!(!handle.is_running(ExitProbe::StillRunning));
}

#[test]
fn stop_twice_succeeds_both_times() {
    let mut handle = handle(3);
    launch(&mut handle, false, 5).unwrap();
    assert_eq!(stop(&mut handle, KillOutcome::Killed), Ok(()));
    assert_eq!(stop(&mut handle, KillOutcome::Killed), Ok(()));
    assert!(!handle.is_running(ExitProbe::StillRunning));
}

#[test]
fn stop_without_a_process_succeeds() {
    let mut handle = handle(3);
    assert_eq!(handle.stop_process(), ProcessEffect::Finished(Ok(())));
    assert_eq!(handle.stop_process(), ProcessEffect::Finished(Ok(())));
    assert!(!handle.has_process());
}

#[test]
fn never_running_after_a_stop() {
    for probe in [ExitProbe::StillRunning, ExitProbe::Exited, ExitProbe::ProbeFailed] {
        let mut handle = handle(3);
        launch(&mut handle, true, 5).unwrap();
        assert!(handle.is_running(ExitProbe::StillRunning));
        stop(&mut handle, KillOutcome::Killed).unwrap();
        assert!(!handle.is_running(probe));
    }
}

#[test]
fn ended_process_is_forgotten() {
    let mut handle = handle(3);
    launch(&mut handle, false, 5).unwrap();
    assert!(!handle.is_running(ExitProbe::Exited));
    assert!(!handle.has_process());
    assert!(!handle.is_running(ExitProbe::StillRunning));
}

#[test]
fn process_that_cannot_be_probed_is_forgotten() {
    let mut handle = handle(3);
    launch(&mut handle, false, 5).unwrap();
    assert!(!handle.is_running(ExitProbe::ProbeFailed));
    assert!(!handle.has_process());
}

#[test]
fn accessors_tell_the_configuration() {
    let handle = handle(4);
    assert_eq!(handle.rpc_port(), 6800);
    assert_eq!(handle.download_dir(), "/tmp");
    assert_eq!(handle.max_restart_attempts(), 4);
    assert_eq!(handle.phase(), Phase::Idle);
}

#[test]
fn process_config_clone_copies_every_field() {
    let config = config(7);
    assert_eq!(config.clone(), config);
}
