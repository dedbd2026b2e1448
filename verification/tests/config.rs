use pushmute::config::{default_true, Config, ConfigError, PUSHMUTE_DESCRIPTION, PUSHMUTE_NODE_NAME};

#[test]
fn default_config_sets_the_default_source_and_nothing_else() {
    let c = Config::default();
    assert_eq!(c.physical_mic, None);
    assert!(c.hotkey_keys.is_empty());
    assert_eq!(c.hotkey_device, None);
    assert!(c.set_default);
    assert_eq!(c.previous_default, None);
    assert!(default_true());
    assert_eq!(PUSHMUTE_NODE_NAME, "pushmute");
    assert_eq!(PUSHMUTE_DESCRIPTION, "PushMute");
}

#[test]
fn config_dir_follows_xdg_then_home() {
    assert_eq!(Config::dir(Some("/home/u/.cfg"), Some("/home/u")), "/home/u/.cfg/pushmute");
    assert_eq!(Config::dir(Some(""), Some("/home/u")), "/home/u/.config/pushmute");
    assert_eq!(Config::dir(None, Some("/home/u/")), "/home/u/.config/pushmute");
    assert_eq!(Config::dir(None, None), "./.config/pushmute");
    assert_eq!(Config::path("/home/u/.config/pushmute"), "/home/u/.config/pushmute/config.toml");
    assert_eq!(Config::dir(Some("relative"), None), "relative/pushmute");
}

#[test]
fn previous_default_is_recorded_unless_it_is_pushmute() {
    let mut c = Config::default();
    assert!(c.record_previous_default(Some("alsa_input.pci".to_string())));
    assert_eq!(c.previous_default.as_deref(), Some("alsa_input.pci"));
    assert!(!c.record_previous_default(Some("pushmute".to_string())));
    assert_eq!(c.previous_default.as_deref(), Some("alsa_input.pci"));
    assert!(!c.record_previous_default(None));
    c.set_default_flag(false);
    assert!(!c.record_previous_default(Some("other".to_string())));
    assert_eq!(c.previous_default.as_deref(), Some("alsa_input.pci"));
}

#[test]
fn edits_touch_only_their_field() {
    let mut c = Config::default();
    assert_eq!(c.require_physical(), Err(ConfigError::NoPhysicalMic));
    assert!(ConfigError::NoPhysicalMic.message().contains("set-mic"));
    c.set_physical_mic("alsa_input.usb");
    assert_eq!(c.require_physical(), Ok("alsa_input.usb".to_string()));
    c.rebind(vec![29, 183], Some("/dev/input/event3".to_string()));
    assert_eq!(c.hotkey_keys, vec![29, 183]);
    assert_eq!(c.hotkey_device.as_deref(), Some("/dev/input/event3"));
    assert_eq!(c.physical_mic.as_deref(), Some("alsa_input.usb"));
    assert!(c.set_default);
}
