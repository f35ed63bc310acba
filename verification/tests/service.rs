use innoapp_agent::service::{
    agent_environment, credentials_path, data_dir, handle_control, log_file_path, logs_dir,
    now_iso, queue_path, running_report, service_command, stopped_report, uptime_stamp,
    runtime_candidates, ControlReply, ControlRequest, RuntimeBase, ServiceCommand,
};
use innoapp_agent::clock::decimal_string;
use innoapp_agent::supervisor::{
    AgentCheck, Observation, Supervisor, WakeDecision, INITIAL_BACKOFF_SECS, MAX_BACKOFF_SECS,
};

#[test]
fn service_paths() {
    assert_eq!(data_dir(), "C:\\ProgramData\\InnoApp Agent");
    assert_eq!(credentials_path(), "C:\\ProgramData\\InnoApp Agent\\credentials.json");
    assert_eq!(queue_path(), "C:\\ProgramData\\InnoApp Agent\\queue.json");
    assert_eq!(logs_dir(), "C:\\ProgramData\\InnoApp Agent\\logs");
    assert_eq!(log_file_path("service.log"), "C:\\ProgramData\\InnoApp Agent\\logs\\service.log");
}

#[test]
fn log_stamps() {
    assert_eq!(uptime_stamp(Some(1_789_072_998)), "t+1789072998");
    assert_eq!(uptime_stamp(Some(0)), "t+0");
    assert_eq!(uptime_stamp(None), "t+0");
    let stamp = now_iso();
    assert!(stamp.starts_with("t+"));
    assert!(stamp[2..].parse::<u64>().unwrap() > 1_577_836_800);
}

#[test]
fn agent_environment_defaults_capture_on() {
    let env = agent_environment(None);
    assert_eq!(env.len(), 4);
    assert_eq!(
        env[0],
        (
            "CLOUD_UPLOAD_URL".to_string(),
            "https://uqa4ti7fwi.execute-api.us-east-1.amazonaws.com/prod/tickets".to_string()
        )
    );
    assert_eq!(env[1].1, "C:\\ProgramData\\InnoApp Agent\\credentials.json");
    assert_eq!(env[2].1, "C:\\ProgramData\\InnoApp Agent\\queue.json");
    assert_eq!(env[3], ("ENABLE_CAPTURE".to_string(), "true".to_string()));
    let off = agent_environment(Some("false".to_string()));
    assert_eq!(off[3].1, "false");
}

#[test]
fn command_line() {
    assert_eq!(service_command(Some("install")), ServiceCommand::Install);
    assert_eq!(service_command(Some("uninstall")), ServiceCommand::Uninstall);
    assert_eq!(service_command(Some("Install")), ServiceCommand::Dispatch);
    assert_eq!(service_command(None), ServiceCommand::Dispatch);
}

#[test]
fn control_requests() {
    assert_eq!(handle_control(ControlRequest::Stop), (ControlReply::NoError, true));
    assert_eq!(handle_control(ControlRequest::Shutdown), (ControlReply::NoError, true));
    assert_eq!(handle_control(ControlRequest::Interrogate), (ControlReply::NoError, false));
    assert_eq!(handle_control(ControlRequest::Other), (ControlReply::NotImplemented, false));
    assert_eq!(running_report().exit_code, 0);
    assert!(running_report().running && running_report().accepts_stop);
    assert_eq!(stopped_report(false).exit_code, 1);
    assert_eq!(stopped_report(true).exit_code, 0);
    assert!(!stopped_report(true).running);
}

#[test]
fn no_credentials_no_agent() {
    let mut sup = Supervisor::new(None);
    assert_eq!(sup.on_wake(false), WakeDecision::Continue);
    let d = sup.on_credentials(None);
    assert!(!d.changed && !d.kill_agent);
    assert_eq!(sup.next_check(), AgentCheck::CredentialsPresence);
    assert!(!sup.decide_launch(Observation::Credentials { present: false }));
    assert!(!sup.agent_running());
}

#[test]
fn activation_starts_and_reactivation_restarts_the_agent() {
    let mut sup = Supervisor::new(None);
    // Activation writes the credentials: the stamp changes, nothing to kill yet.
    let d = sup.on_credentials(Some(100));
    assert!(d.changed && !d.kill_agent);
    assert_eq!(sup.next_check(), AgentCheck::CredentialsPresence);
    assert!(sup.decide_launch(Observation::Credentials { present: true }));
    assert_eq!(sup.on_launch(true), None);
    assert!(sup.agent_running());

    // Next rounds: same stamp, agent still running.
    let d = sup.on_credentials(Some(100));
    assert!(!d.changed && !d.kill_agent);
    assert_eq!(sup.next_check(), AgentCheck::AgentExit);
    assert!(!sup.decide_launch(Observation::AgentRunning));
    assert!(!sup.decide_launch(Observation::WaitFailed));

    // Reactivation: new stamp, the agent is killed and launched again.
    let d = sup.on_credentials(Some(200));
    assert!(d.changed && d.kill_agent);
    assert!(!sup.agent_running());
    assert!(sup.decide_launch(Observation::Credentials { present: true }));
    assert_eq!(sup.on_launch(true), None);

    // The agent crashes: it is launched again.
    assert!(sup.decide_launch(Observation::AgentExited));
    assert!(!sup.agent_running());
    assert_eq!(sup.on_launch(true), None);

    // Stop: the running agent is killed.
    assert_eq!(sup.on_wake(true), WakeDecision::Stop { kill_agent: true });
    assert!(!sup.agent_running());
}

#[test]
fn failed_launches_back_off() {
    let mut sup = Supervisor::new(Some(1));
    let mut pauses = Vec::new();
    for _ in 0..8 {
        assert!(sup.decide_launch(Observation::Credentials { present: true }));
        pauses.push(sup.on_launch(false).unwrap());
    }
    assert_eq!(pauses, vec![2, 4, 8, 16, 32, 60, 60, 60]);
    assert_eq!(sup.backoff_secs(), MAX_BACKOFF_SECS);
    assert_eq!(sup.on_launch(true), None);
    assert_eq!(sup.backoff_secs(), INITIAL_BACKOFF_SECS);
    assert_eq!(sup.on_wake(true), WakeDecision::Stop { kill_agent: true });
    assert_eq!(sup.on_wake(true), WakeDecision::Stop { kill_agent: false });
}

#[test]
fn runtime_search_order() {
    let c = runtime_candidates();
    assert_eq!(c.len(), 3);
    assert_eq!(c[0].base, RuntimeBase::ExeFolder);
    assert_eq!(c[0].folders, vec!["resources".to_string(), "agent".to_string()]);
    assert_eq!(c[1].base, RuntimeBase::ExeFolder);
    assert_eq!(c[1].folders, vec!["agent".to_string()]);
    assert_eq!(c[2].base, RuntimeBase::ExeParentFolder);
    assert_eq!(c[2].folders, vec!["resources".to_string(), "agent".to_string()]);
}

#[test]
fn decimal_writing_matches_to_string() {
    for n in [0u64, 7, 10, 99, 100, 1_789_072_998, u64::MAX] {
        assert_eq!(decimal_string(n), n.to_string());
    }
}
