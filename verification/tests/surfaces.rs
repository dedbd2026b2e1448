use pushmute::autostart::{is_enabled_args, reports_enabled, set_enabled_args, set_enabled_failure, verb, UNIT};
use pushmute::daemon::{Daemon, MuteRequest};
use pushmute::notify::{error, info};
use pushmute::tray::{
    default_restored, header_label, hotkey_bound, hotkey_hint, icon_name, mic_choice, mic_switched,
    selected_mic, startup_notice, tool_tip_description, tool_tip_title, ICON_ACTIVE, ICON_MUTED,
};

#[test]
fn notifications_carry_urgency_and_text() {
    let n = info("Microphone", "Switched to x");
    assert_eq!(
        n.args(),
        vec!["-a", "PushMute", "-i", "audio-input-microphone", "-u", "normal", "Microphone", "Switched to x"]
    );
    let e = error("Rebind failed", "boom");
    assert_eq!(e.urgency, "critical");
    assert_eq!(e.args()[5], "critical");
}

#[test]
fn autostart_reads_systemctl() {
    assert_eq!(UNIT, "pushmute.service");
    assert_eq!(is_enabled_args(), vec!["--user", "is-enabled", "pushmute.service"]);
    assert!(reports_enabled(b"enabled\n"));
    assert!(reports_enabled(b"enabled"));
    assert!(!reports_enabled(b"disabled\n"));
    assert!(!reports_enabled(b" enabled\n"));
    assert!(!reports_enabled(b"enabled-runtime\n"));
    assert!(!reports_enabled(b""));
    assert_eq!(verb(true), "enable");
    assert_eq!(set_enabled_args(false), vec!["--user", "disable", "pushmute.service"]);
    assert_eq!(
        set_enabled_failure(true, "Failed to enable unit.\n"),
        "systemctl --user enable failed: Failed to enable unit."
    );
}

#[test]
fn tray_labels_follow_the_daemon() {
    let mut d = Daemon::new(60, "alsa_input.usb".to_string(), vec![183]);
    assert_eq!(icon_name(d.is_muted()), ICON_ACTIVE);
    assert_eq!(tool_tip_title(&d), "PushMute — Routing Active");
    assert_eq!(tool_tip_description(&d), "Mic: alsa_input.usb\nHotkey: 183");
    assert_eq!(header_label(&d), "● Routing Active — alsa_input.usb");
    assert_eq!(hotkey_hint(&d), "Hotkey: 183");
    d.mute_applied(MuteRequest { id: 60, mute: true });
    assert_eq!(icon_name(d.is_muted()), ICON_MUTED);
    assert_eq!(tool_tip_title(&d), "PushMute — Muted");
    assert_eq!(hotkey_bound(&vec![29, 183]), "29+183");
}

#[test]
fn tray_mic_menu_choices() {
    let names = vec!["a".to_string(), "b".to_string(), "b".to_string()];
    assert_eq!(selected_mic(&names, "b"), 1);
    assert_eq!(selected_mic(&names, "c"), usize::MAX);
    assert_eq!(mic_choice(&names, 0).as_deref(), Some("a"));
    assert_eq!(mic_choice(&names, 3), None);
    assert_eq!(startup_notice(true), "Disabled — won't start on login");
    assert_eq!(startup_notice(false), "Enabled — starts on login");
    assert_eq!(mic_switched("b"), "Switched to b");
    assert_eq!(default_restored(Some("alsa_input.pci")), "Restored → alsa_input.pci");
    assert_eq!(default_restored(None), "Restored default source");
}
