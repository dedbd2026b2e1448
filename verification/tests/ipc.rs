use pushmute::daemon::{Daemon, MuteRequest};
use pushmute::ipc::{complete, dispatch, handle_line, result, socket_path, Reply};

fn daemon() -> Daemon {
    Daemon::new(60, "mic".to_string(), vec![58])
}

fn text(r: Reply) -> String {
    match r {
        Reply::Text(s) => s,
        Reply::Perform(req) => panic!("expected a reply, got request {req:?}"),
    }
}

#[test]
fn status_answers_the_status_line() {
    let d = daemon();
    assert_eq!(
        text(dispatch("status", &d)),
        "state=Routing Active mic=mic virtual=PushMute hotkey_keys=58"
    );
}

#[test]
fn mute_commands_ask_for_requests() {
    let d = daemon();
    assert!(matches!(dispatch("mute", &d), Reply::Perform(MuteRequest { id: 60, mute: true })));
    assert!(matches!(dispatch("unmute", &d), Reply::Perform(MuteRequest { id: 60, mute: false })));
    assert!(matches!(dispatch("toggle", &d), Reply::Perform(MuteRequest { id: 60, mute: true })));
}

#[test]
fn unknown_commands_are_refused_by_name() {
    let d = daemon();
    assert_eq!(text(dispatch("reboot", &d)), "error: unknown command `reboot`");
    assert_eq!(text(dispatch("", &d)), "error: unknown command ``");
    assert_eq!(text(dispatch("Status", &d)), "error: unknown command `Status`");
}

#[test]
fn lines_are_trimmed_before_dispatch() {
    let d = daemon();
    assert!(matches!(handle_line("  mute\n", &d), Reply::Perform(MuteRequest { id: 60, mute: true })));
    assert_eq!(text(handle_line("bogus \r\n", &d)), "error: unknown command `bogus`");
}

#[test]
fn not_ready_is_reported_as_an_error_reply() {
    let d = Daemon::new(0, "mic".to_string(), vec![]);
    assert_eq!(text(dispatch("mute", &d)), "error: virtual source not ready");
}

#[test]
fn completing_a_request_updates_state_and_replies() {
    let mut d = daemon();
    let req = MuteRequest { id: 60, mute: true };
    assert_eq!(complete(&mut d, req, Err("`wpctl set-mute 60 1` failed: x".to_string())), "error: `wpctl set-mute 60 1` failed: x");
    assert!(!d.is_muted());
    assert_eq!(complete(&mut d, req, Ok(())), "ok");
    assert!(d.is_muted());
    assert!(text(dispatch("status", &d)).starts_with("state=Muted "));
}

#[test]
fn result_lines() {
    assert_eq!(result(Ok(())), "ok");
    assert_eq!(result(Err("boom".to_string())), "error: boom");
}

#[test]
fn socket_lives_in_the_runtime_dir() {
    assert_eq!(socket_path(Some("/run/user/1000")), "/run/user/1000/pushmute.sock");
    assert_eq!(socket_path(Some("/run/user/1000/")), "/run/user/1000/pushmute.sock");
    assert_eq!(socket_path(None), "/tmp/pushmute.sock");
    assert_eq!(socket_path(Some("")), "pushmute.sock");
}
