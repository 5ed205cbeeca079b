use kiosk_controller::lifecycle::{
    kill_patterns, ProcCommand, ProcessError, SessionConfig, SessionStartup, PROBE_ATTEMPTS,
};
use kiosk_controller::mode::{Mode, ModeController, ModeEvent};

fn config() -> SessionConfig {
    SessionConfig {
        profile_dir: "/home/rctv/.rctv-chrome-profile".to_string(),
        debug_port: 9222,
        bridge_port: 9515,
    }
}

#[test]
fn first_command_is_always_the_defensive_kill() {
    let s = SessionStartup::begin(config());
    assert_eq!(s.next_command(), Some(ProcCommand::KillStaleProcesses));
}

#[test]
fn happy_path_reaches_an_open_bridge() {
    let mut s = SessionStartup::begin(config());
    let mut issued = Vec::new();
    while let Some(c) = s.next_command() {
        issued.push(c);
        s.on_result(true);
    }
    assert_eq!(
        issued,
        vec![
            ProcCommand::KillStaleProcesses,
            ProcCommand::LaunchBrowser,
            ProcCommand::ProbeDebugEndpoint,
            ProcCommand::LaunchBridge,
            ProcCommand::OpenBridgeSession,
        ]
    );
    assert_eq!(s.outcome(), Some(Ok(())));
}

#[test]
fn browser_spawn_failure_is_launch_failed() {
    let mut s = SessionStartup::begin(config());
    s.on_result(true); // kill (outcome ignored)
    assert_eq!(s.next_command(), Some(ProcCommand::LaunchBrowser));
    s.on_result(false);
    assert_eq!(s.outcome(), Some(Err(ProcessError::LaunchFailed)));
    assert_eq!(s.next_command(), None);
}

#[test]
fn port_never_ready_fails_after_ten_probes_and_spawns_no_bridge() {
    let mut s = SessionStartup::begin(config());
    let mut issued = Vec::new();
    let mut probes = 0;
    while let Some(c) = s.next_command() {
        issued.push(c);
        let ok = match c {
            ProcCommand::ProbeDebugEndpoint => {
                probes += 1;
                false // the debug endpoint never responds
            }
            _ => true,
        };
        s.on_result(ok);
    }
    assert_eq!(probes, PROBE_ATTEMPTS);
    assert_eq!(s.outcome(), Some(Err(ProcessError::PortUnavailable)));
    assert!(!issued.contains(&ProcCommand::LaunchBridge));
    assert!(!issued.contains(&ProcCommand::OpenBridgeSession));

    // The controller, told the pipeline failed, reverts to kiosk mode.
    let mut m = ModeController::new();
    m.on_trigger();
    assert_eq!(m.current_mode(), Mode::SessionStarting);
    m.handle_event(ModeEvent::SessionOutcome { usable: false });
    assert_eq!(m.current_mode(), Mode::Kiosk);
}

#[test]
fn one_late_probe_success_still_connects() {
    let mut s = SessionStartup::begin(config());
    s.on_result(true); // kill
    s.on_result(true); // browser launched
    for _ in 0..PROBE_ATTEMPTS - 1 {
        assert_eq!(s.next_command(), Some(ProcCommand::ProbeDebugEndpoint));
        s.on_result(false);
    }
    // The tenth and last probe succeeds.
    assert_eq!(s.next_command(), Some(ProcCommand::ProbeDebugEndpoint));
    s.on_result(true);
    assert_eq!(s.next_command(), Some(ProcCommand::LaunchBridge));
    s.on_result(true);
    assert_eq!(s.next_command(), Some(ProcCommand::OpenBridgeSession));
    s.on_result(false);
    assert_eq!(s.outcome(), Some(Err(ProcessError::BridgeConnectFailed)));
}

#[test]
fn two_session_starts_without_a_stop_never_stack_browsers() {
    // A simulated process table: the kill clears it, successful launches
    // add to it — exactly what the commands mean in the real world.
    let mut browsers: u32 = 1; // a leaked browser from before
    let mut bridges: u32 = 1;
    for _ in 0..2 {
        let mut s = SessionStartup::begin(config());
        while let Some(c) = s.next_command() {
            match c {
                ProcCommand::KillStaleProcesses => {
                    browsers = 0;
                    bridges = 0;
                }
                ProcCommand::LaunchBrowser => browsers += 1,
                ProcCommand::LaunchBridge => bridges += 1,
                ProcCommand::ProbeDebugEndpoint | ProcCommand::OpenBridgeSession => {}
            }
            assert!(browsers <= 1, "a second live browser would have been stacked");
            assert!(bridges <= 1);
            s.on_result(true);
        }
        assert_eq!(s.outcome(), Some(Ok(())));
        // No stopSession in between: the next start must clean up itself.
    }
    assert_eq!(browsers, 1);
    assert_eq!(bridges, 1);
}

#[test]
fn kill_patterns_cover_bridge_and_browser_names() {
    let pats = kill_patterns();
    assert_eq!(
        pats,
        vec!["chromedriver".to_string(), "chromium".to_string(), "chrome".to_string()]
    );
}
