use pushmute::doctor::{
    doctor, input_group_check, is_gnome, lists_input_group, lists_sni_watcher, path_check,
    preflight, probe_check, run_checks, search_paths, sni_absent_reason, sni_check, Environment,
    Severity,
};

#[test]
fn gnome_reason_points_at_the_appindicator_extension() {
    assert!(sni_absent_reason(true).contains("AppIndicator"));
    assert!(!sni_absent_reason(false).contains("AppIndicator"));
    // The base message is present either way.
    assert!(sni_absent_reason(false).contains("tray icon"));
}

#[test]
fn probe_check_skips_when_tools_absent() {
    let c = probe_check("x", false, Err("should be ignored".to_string()));
    assert!(
        c.outcome.is_ok(),
        "absent tools skip rather than double-fail"
    );
}

#[test]
fn probe_check_reports_failure_when_tools_present() {
    let c = probe_check("x", true, Err("boom".to_string()));
    assert_eq!(c.outcome.unwrap_err(), "boom");
}

fn healthy() -> Environment {
    Environment {
        pw_dump_on_path: true,
        wpctl_on_path: true,
        pw_loopback_on_path: true,
        pw_dump_probe: Ok(()),
        wpctl_probe: Ok(()),
        in_input_group: true,
        sni_watcher: Some(true),
        is_gnome: false,
    }
}

#[test]
fn healthy_environment_passes_every_check() {
    let checks = run_checks(healthy());
    assert_eq!(checks.len(), 7);
    let report = doctor(&checks);
    assert!(!report.critical_failed);
    assert_eq!(report.lines[0], "  [PASS] `pw-dump` on PATH");
    assert_eq!(report.lines[3], "  [PASS] pw-dump output parses");
    assert_eq!(report.lines[6], "  [PASS] system tray (StatusNotifierWatcher)");
    let verdict = preflight(&checks);
    assert!(verdict.warnings.is_empty());
    assert!(verdict.failure.is_none());
}

#[test]
fn missing_tool_fails_and_skips_the_graph_probes() {
    let mut env = healthy();
    env.wpctl_on_path = false;
    env.wpctl_probe = Err("wpctl is not responding".to_string());
    let checks = run_checks(env);
    let report = doctor(&checks);
    assert!(report.critical_failed);
    assert_eq!(
        report.lines[1],
        "  [FAIL] `wpctl` on PATH — `wpctl` not found in PATH — install pipewire / wireplumber"
    );
    assert_eq!(report.lines[4], "  [PASS] wpctl responds — skipped (tool missing)");
    let verdict = preflight(&checks);
    assert_eq!(
        verdict.failure.as_deref(),
        Some("`wpctl` on PATH: `wpctl` not found in PATH — install pipewire / wireplumber")
    );
}

#[test]
fn tray_warning_does_not_stop_startup() {
    let mut env = healthy();
    env.sni_watcher = Some(false);
    env.is_gnome = true;
    let checks = run_checks(env);
    let report = doctor(&checks);
    assert!(!report.critical_failed);
    assert!(report.lines[6].starts_with("  [WARN] system tray (StatusNotifierWatcher) — no StatusNotifierWatcher"));
    let verdict = preflight(&checks);
    assert!(verdict.failure.is_none());
    assert_eq!(verdict.warnings.len(), 1);
    assert!(verdict.warnings[0].contains("AppIndicator"));
}

#[test]
fn preflight_stops_at_the_first_critical_failure() {
    let checks = vec![
        sni_check(Some(false), false),
        input_group_check(false),
        path_check("pw-dump", false),
        sni_check(Some(false), true),
    ];
    let verdict = preflight(&checks);
    assert_eq!(verdict.warnings.len(), 1);
    assert_eq!(
        verdict.failure.as_deref(),
        Some("`input` group membership: user is not in the `input` group — run `sudo usermod -aG input $USER`, then log out and back in")
    );
    assert!(doctor(&checks).critical_failed);
}

#[test]
fn sni_check_outcomes() {
    assert_eq!(
        sni_check(None, false).outcome.unwrap(),
        Some("skipped (busctl unavailable)".to_string())
    );
    assert_eq!(sni_check(Some(true), false).outcome.unwrap(), None);
    assert!(sni_check(Some(false), false).outcome.is_err());
    assert_eq!(sni_check(None, false).severity, Severity::Warning);
    assert_eq!(path_check("wpctl", true).severity, Severity::Critical);
}

#[test]
fn desktop_and_tool_output_readers() {
    assert!(is_gnome(Some("ubuntu:GNOME")));
    assert!(is_gnome(Some("gnome-classic")));
    assert!(!is_gnome(Some("Hyprland")));
    assert!(!is_gnome(None));
    assert!(lists_input_group("user wheel input audio\n"));
    assert!(lists_input_group("input"));
    assert!(!lists_input_group("user inputs audio"));
    assert!(!lists_input_group("user input-devices"));
    assert!(lists_sni_watcher("NAME PID\norg.kde.StatusNotifierWatcher 1234 waybar\n"));
    assert!(!lists_sni_watcher("NAME PID\norg.freedesktop.Notifications 99\n"));
}

#[test]
fn path_is_searched_directory_by_directory() {
    assert_eq!(
        search_paths("/usr/local/bin:/usr/bin/::bin", "wpctl"),
        vec!["/usr/local/bin/wpctl", "/usr/bin/wpctl", "bin/wpctl"]
    );
    assert!(search_paths("", "sh").is_empty());
    assert!(search_paths(":::", "sh").is_empty());
    assert_eq!(search_paths("/bin", "/abs/tool"), vec!["/abs/tool"]);
}
