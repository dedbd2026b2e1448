use pushmute::config::Config;
use pushmute::daemon::Lifecycle;
use pushmute::startup::{Action, Event, Phase, Startup};

fn config(set_default: bool, keys: Vec<u16>) -> Config {
    let mut c = Config::default();
    c.set_physical_mic("alsa_input.usb");
    c.set_default_flag(set_default);
    c.hotkey_keys = keys;
    c
}

#[test]
fn no_physical_mic_stops_before_anything() {
    let (run, action) = Startup::new(Config::default());
    assert_eq!(run.phase(), Phase::Stopped);
    match action {
        Action::Abort { message, kill_source } => {
            assert!(message.starts_with("no physical mic set"));
            assert!(!kill_source);
        }
        _ => panic!("expected an abort"),
    }
}

#[test]
fn second_daemon_sees_the_first_and_exits() {
    let (mut run, action) = Startup::new(config(true, vec![58]));
    assert!(matches!(action, Action::ClaimSocket));
    assert!(matches!(
        run.on_event(Event::SocketClaimed { already_running: true }),
        Action::AlreadyRunning
    ));
    assert_eq!(run.phase(), Phase::Stopped);
    assert!(matches!(run.on_event(Event::Stop(Lifecycle::Quit)), Action::Ignore));
}

#[test]
fn full_run_records_sets_and_restores_the_default_source() {
    let (mut run, _) = Startup::new(config(true, vec![58]));
    assert!(matches!(run.on_event(Event::SocketClaimed { already_running: false }), Action::CheckEnvironment));
    assert!(matches!(run.on_event(Event::EnvironmentChecked(Ok(()))), Action::ReadDefaultSource));
    assert!(matches!(
        run.on_event(Event::DefaultSourceRead(Some("alsa_input.pci".to_string()))),
        Action::SaveConfig
    ));
    assert_eq!(run.config().previous_default.as_deref(), Some("alsa_input.pci"));
    assert!(matches!(run.on_event(Event::ConfigSaved(Ok(()))), Action::CreateSource));
    assert_eq!(run.physical(), "alsa_input.usb");
    assert!(matches!(run.on_event(Event::SourceCreated(Ok(()))), Action::WaitForNode));
    assert!(matches!(run.on_event(Event::NodeFound(Ok(102))), Action::SetDefaultSource));
    assert!(matches!(
        run.on_event(Event::DefaultSourceSet(Err("wpctl failed".to_string()))),
        Action::Launch { node_id: 102, arm_hotkey: true }
    ));
    assert_eq!(run.phase(), Phase::Running);
    match run.on_event(Event::Stop(Lifecycle::Restart)) {
        Action::Teardown { restore, then } => {
            assert_eq!(restore.as_deref(), Some("alsa_input.pci"));
            assert_eq!(then, Lifecycle::Restart);
        }
        _ => panic!("expected teardown"),
    }
}

#[test]
fn own_source_as_default_is_not_recorded() {
    let (mut run, _) = Startup::new(config(true, vec![]));
    run.on_event(Event::SocketClaimed { already_running: false });
    run.on_event(Event::EnvironmentChecked(Ok(())));
    assert!(matches!(
        run.on_event(Event::DefaultSourceRead(Some("pushmute".to_string()))),
        Action::CreateSource
    ));
    assert_eq!(run.config().previous_default, None);
}

#[test]
fn without_set_default_the_default_source_is_left_alone() {
    let (mut run, _) = Startup::new(config(false, vec![]));
    run.on_event(Event::SocketClaimed { already_running: false });
    assert!(matches!(run.on_event(Event::EnvironmentChecked(Ok(()))), Action::CreateSource));
    run.on_event(Event::SourceCreated(Ok(())));
    assert!(matches!(
        run.on_event(Event::NodeFound(Ok(7))),
        Action::Launch { node_id: 7, arm_hotkey: false }
    ));
    match run.on_event(Event::Stop(Lifecycle::Quit)) {
        Action::Teardown { restore, then } => {
            assert_eq!(restore, None);
            assert_eq!(then, Lifecycle::Quit);
        }
        _ => panic!("expected teardown"),
    }
}

#[test]
fn failures_abort_and_a_missing_node_kills_the_loopback() {
    let (mut run, _) = Startup::new(config(false, vec![]));
    run.on_event(Event::SocketClaimed { already_running: false });
    match run.on_event(Event::EnvironmentChecked(Err("`input` group membership: no".to_string()))) {
        Action::Abort { message, kill_source } => {
            assert_eq!(message, "`input` group membership: no");
            assert!(!kill_source);
        }
        _ => panic!("expected an abort"),
    }

    let (mut run, _) = Startup::new(config(false, vec![]));
    run.on_event(Event::SocketClaimed { already_running: false });
    run.on_event(Event::EnvironmentChecked(Ok(())));
    run.on_event(Event::SourceCreated(Ok(())));
    match run.on_event(Event::NodeFound(Err("`pushmute` did not appear".to_string()))) {
        Action::Abort { kill_source, .. } => assert!(kill_source),
        _ => panic!("expected an abort"),
    }
}

#[test]
fn events_out_of_order_are_ignored() {
    let (mut run, _) = Startup::new(config(true, vec![]));
    assert!(matches!(run.on_event(Event::NodeFound(Ok(3))), Action::Ignore));
    assert_eq!(run.phase(), Phase::Claiming);
}
