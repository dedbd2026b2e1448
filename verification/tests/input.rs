use pushmute::input::{ChordTracker, ComboCapture};

#[test]
fn single_key_chord_follows_press_and_release() {
    let mut t = ChordTracker::new(vec![183]);
    assert!(!t.is_active());
    assert_eq!(t.on_key(183, 1), Some(true));
    assert_eq!(t.on_key(183, 2), None, "autorepeat keeps it held");
    assert_eq!(t.on_key(30, 1), None, "other keys are ignored");
    assert_eq!(t.on_key(183, 0), Some(false));
    assert_eq!(t.on_key(183, 0), None);
}

#[test]
fn chord_is_active_only_while_every_key_is_held() {
    let mut t = ChordTracker::new(vec![29, 183]);
    assert_eq!(t.on_key(29, 1), None);
    assert_eq!(t.on_key(183, 1), Some(true));
    assert!(t.is_active());
    assert_eq!(t.on_key(29, 0), Some(false));
    assert_eq!(t.on_key(183, 0), None);
    assert_eq!(t.on_key(183, 1), None);
    assert_eq!(t.on_key(29, 1), Some(true));
}

#[test]
fn empty_chord_never_fires() {
    let mut t = ChordTracker::new(vec![]);
    assert!(!t.is_active());
    assert_eq!(t.on_key(1, 1), None);
}

#[test]
fn combo_capture_reports_the_largest_chord_after_release() {
    let mut c = ComboCapture::new();
    assert_eq!(c.on_key(183, 1), None);
    assert_eq!(c.on_key(29, 1), None);
    assert_eq!(c.on_key(29, 2), None);
    assert_eq!(c.on_key(183, 0), None);
    assert_eq!(c.on_key(29, 0), Some(vec![29, 183]));
}

#[test]
fn combo_capture_keeps_the_high_water_mark() {
    let mut c = ComboCapture::new();
    assert_eq!(c.on_key(42, 1), None);
    assert_eq!(c.on_key(56, 1), None);
    assert_eq!(c.on_key(20, 1), None);
    assert_eq!(c.on_key(56, 0), None);
    assert_eq!(c.on_key(30, 1), None);
    assert_eq!(c.on_key(20, 0), None);
    assert_eq!(c.on_key(30, 0), None);
    assert_eq!(c.on_key(42, 0), Some(vec![20, 42, 56]));
}

#[test]
fn combo_capture_ignores_stray_releases() {
    let mut c = ComboCapture::new();
    assert_eq!(c.on_key(5, 0), None, "a release before any press is not a chord");
    assert_eq!(c.on_key(7, 1), None);
    assert_eq!(c.on_key(5, 0), None);
    assert_eq!(c.on_key(7, 0), Some(vec![7]));
}
