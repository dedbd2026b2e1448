//! Environment preflight: the checks behind `pushmute doctor` and the
//! critical-check screen that `pushmute run` passes before provisioning anything.
//!
//! Checks split by severity:
//! - **Critical**: `pw-dump`/`wpctl`/`pw-loopback` missing from PATH, an
//!   unparseable graph, or the user not in the `input` group. These abort `run`.
//! - **Warning**: no `StatusNotifierWatcher` on the session bus: the tray won't
//!   appear but routing still works, so startup proceeds with a notice.
//!
//! Probing the machine is the application's; it hands the findings over as an
//! [`Environment`], and this module builds, judges and renders the checks.

use vstd::prelude::*;
use crate::text::{
    chars_of, contains, contains_word, find_from, has_infix, has_word, join_path, opt_chars,
    owned, path_join, push_str, slice_chars, span_until, string_of,
};

verus! {

#[derive(Debug, Clone, Copy, PartialEq, Eq)]
pub enum Severity {
    Critical,
    Warning,
}

/// One environment check. `outcome` is `Ok(note)` on pass (the optional note is
/// shown alongside PASS) or `Err(reason)` on failure.
pub struct Check {
    pub name: String,
    pub severity: Severity,
    pub outcome: Result<Option<String>, String>,
}

pub struct CheckView {
    pub name: Seq<char>,
    pub severity: Severity,
    pub outcome: Result<Option<Seq<char>>, Seq<char>>,
}

impl View for Check {
    type V = CheckView;

    open spec fn view(&self) -> CheckView {
        CheckView {
            name: self.name@,
            severity: self.severity,
            outcome: match self.outcome {
                Ok(note) => Ok(opt_chars(note)),
                Err(reason) => Err(reason@),
            },
        }
    }
}

pub open spec fn check_views(v: Seq<Check>) -> Seq<CheckView> {
    v.map_values(|c: Check| c@)
}

/// What the application found out about the machine.
pub struct Environment {
    pub pw_dump_on_path: bool,
    pub wpctl_on_path: bool,
    pub pw_loopback_on_path: bool,
    /// `pw-dump` ran and its output parsed (the error text otherwise).
    pub pw_dump_probe: Result<(), String>,
    /// `wpctl` responded (the error text otherwise).
    pub wpctl_probe: Result<(), String>,
    pub in_input_group: bool,
    /// Whether a StatusNotifierWatcher is on the session bus; `None` when it
    /// cannot be told (no `busctl`).
    pub sni_watcher: Option<bool>,
    pub is_gnome: bool,
}

pub open spec fn unit_err(r: Result<(), String>) -> Result<(), Seq<char>> {
    match r {
        Ok(()) => Ok(()),
        Err(e) => Err(e@),
    }
}

pub open spec fn path_check_view(bin: Seq<char>, found: bool) -> CheckView {
    CheckView {
        name: "`"@ + bin + "` on PATH"@,
        severity: Severity::Critical,
        outcome: if found {
            Ok(None)
        } else {
            Err("`"@ + bin + "` not found in PATH — install pipewire / wireplumber"@)
        },
    }
}

/// A critical check that `bin` is on `PATH`.
pub fn path_check(bin: &str, found: bool) -> (r: Check)
    ensures
        r@ == path_check_view(bin@, found),
{
    let outcome = if found {
        Ok(None)
    } else {
        let mut m = owned("`");
        push_str(&mut m, bin);
        push_str(&mut m, "` not found in PATH — install pipewire / wireplumber");
        Err(m)
    };
    let mut name = owned("`");
    push_str(&mut name, bin);
    push_str(&mut name, "` on PATH");
    Check { name, severity: Severity::Critical, outcome }
}

pub open spec fn probe_check_view(
    name: Seq<char>,
    tools_present: bool,
    probe: Result<(), Seq<char>>,
) -> CheckView {
    CheckView {
        name: name,
        severity: Severity::Critical,
        outcome: if !tools_present {
            Ok(Some("skipped (tool missing)"@))
        } else {
            match probe {
                Ok(()) => Ok(None),
                Err(e) => Err(e),
            }
        },
    }
}

/// Wraps a graph probe as a critical check, skipped when its underlying tools
/// are absent (already reported by the PATH checks).
pub fn probe_check(name: &str, tools_present: bool, probe: Result<(), String>) -> (r: Check)
    ensures
        r@ == probe_check_view(name@, tools_present, unit_err(probe)),
{
    let outcome = if !tools_present {
        Ok(Some(owned("skipped (tool missing)")))
    } else {
        match probe {
            Ok(()) => Ok(None),
            Err(e) => Err(e),
        }
    };
    Check { name: owned(name), severity: Severity::Critical, outcome }
}

pub open spec fn input_group_check_view(in_group: bool) -> CheckView {
    CheckView {
        name: "`input` group membership"@,
        severity: Severity::Critical,
        outcome: if in_group {
            Ok(None)
        } else {
            Err(
                "user is not in the `input` group — run `sudo usermod -aG input $USER`, then log out and back in"@,
            )
        },
    }
}

/// A critical check that the user can read `/dev/input` (is in the `input` group).
pub fn input_group_check(in_group: bool) -> (r: Check)
    ensures
        r@ == input_group_check_view(in_group),
{
    let outcome = if in_group {
        Ok(None)
    } else {
        Err(
            owned(
                "user is not in the `input` group — run `sudo usermod -aG input $USER`, then log out and back in",
            ),
        )
    };
    Check { name: owned("`input` group membership"), severity: Severity::Critical, outcome }
}

pub open spec fn sni_absent_text(is_gnome: bool) -> Seq<char> {
    let base =
        "no StatusNotifierWatcher on the session bus — the tray icon won't appear (audio routing still works)"@;
    if is_gnome {
        base
            + "; on GNOME, install the AppIndicator support extension (https://extensions.gnome.org/extension/615/appindicator-support/)"@
    } else {
        base
    }
}

/// The warning shown when no tray watcher is on the bus. On GNOME the watcher
/// ships only with the AppIndicator extension, so point there specifically.
pub fn sni_absent_reason(is_gnome: bool) -> (r: String)
    ensures
        r@ == sni_absent_text(is_gnome),
{
    let mut reason = owned(
        "no StatusNotifierWatcher on the session bus — the tray icon won't appear (audio routing still works)",
    );
    if is_gnome {
        push_str(
            &mut reason,
            "; on GNOME, install the AppIndicator support extension (https://extensions.gnome.org/extension/615/appindicator-support/)",
        );
    }
    reason
}

pub open spec fn sni_check_view(present: Option<bool>, is_gnome: bool) -> CheckView {
    CheckView {
        name: "system tray (StatusNotifierWatcher)"@,
        severity: Severity::Warning,
        outcome: match present {
            None => Ok(Some("skipped (busctl unavailable)"@)),
            Some(true) => Ok(None),
            Some(false) => Err(sni_absent_text(is_gnome)),
        },
    }
}

/// A warning-level check that a tray host is reachable.
pub fn sni_check(present: Option<bool>, is_gnome: bool) -> (r: Check)
    ensures
        r@ == sni_check_view(present, is_gnome),
{
    let outcome = match present {
        None => Ok(Some(owned("skipped (busctl unavailable)"))),
        Some(true) => Ok(None),
        Some(false) => Err(sni_absent_reason(is_gnome)),
    };
    Check { name: owned("system tray (StatusNotifierWatcher)"), severity: Severity::Warning, outcome }
}

/// Every check, in report order. The graph probes count only once the tools
/// that drive them are all on `PATH`; otherwise they are reported as skipped.
pub open spec fn checks_of(env: Environment) -> Seq<CheckView> {
    let tools_present = env.pw_dump_on_path && env.wpctl_on_path && env.pw_loopback_on_path;
    seq![
        path_check_view("pw-dump"@, env.pw_dump_on_path),
        path_check_view("wpctl"@, env.wpctl_on_path),
        path_check_view("pw-loopback"@, env.pw_loopback_on_path),
        probe_check_view("pw-dump output parses"@, tools_present, unit_err(env.pw_dump_probe)),
        probe_check_view("wpctl responds"@, tools_present, unit_err(env.wpctl_probe)),
        input_group_check_view(env.in_input_group),
        sni_check_view(env.sni_watcher, env.is_gnome),
    ]
}

/// Builds every check from what the application found.
pub fn run_checks(env: Environment) -> (r: Vec<Check>)
    ensures
        check_views(r@) == checks_of(env),
{
    let ghost e = env;
    let tools_present = env.pw_dump_on_path && env.wpctl_on_path && env.pw_loopback_on_path;
    let mut checks: Vec<Check> = Vec::new();
    checks.push(path_check("pw-dump", env.pw_dump_on_path));
    checks.push(path_check("wpctl", env.wpctl_on_path));
    checks.push(path_check("pw-loopback", env.pw_loopback_on_path));
    checks.push(probe_check("pw-dump output parses", tools_present, env.pw_dump_probe));
    checks.push(probe_check("wpctl responds", tools_present, env.wpctl_probe));
    checks.push(input_group_check(env.in_input_group));
    checks.push(sni_check(env.sni_watcher, env.is_gnome));
    assert(check_views(checks@) =~= checks_of(e));
    checks
}

/// `PASS`, `WARN` or `FAIL`.
pub open spec fn tag_of(c: CheckView) -> Seq<char> {
    match c.outcome {
        Ok(_) => "PASS"@,
        Err(_) => match c.severity {
            Severity::Warning => "WARN"@,
            Severity::Critical => "FAIL"@,
        },
    }
}

/// The note or reason shown after the check's name, if any.
pub open spec fn detail_of(c: CheckView) -> Option<Seq<char>> {
    match c.outcome {
        Ok(note) => note,
        Err(reason) => Some(reason),
    }
}

/// `  [TAG] name — detail`, or `  [TAG] name` without one.
pub open spec fn report_line(c: CheckView) -> Seq<char> {
    let head = "  ["@ + tag_of(c) + "] "@ + c.name;
    match detail_of(c) {
        Some(d) => head + " — "@ + d,
        None => head,
    }
}

/// A critical check that failed.
pub open spec fn fails_critically(c: CheckView) -> bool {
    c.severity == Severity::Critical && c.outcome is Err
}

pub open spec fn any_critical_failure(cs: Seq<CheckView>) -> bool {
    exists|i: int| 0 <= i < cs.len() && fails_critically(#[trigger] cs[i])
}

fn line_for(c: &Check) -> (r: String)
    ensures
        r@ == report_line(c@),
{
    let tag = match &c.outcome {
        Ok(_) => "PASS",
        Err(_) => match c.severity {
            Severity::Warning => "WARN",
            Severity::Critical => "FAIL",
        },
    };
    let mut line = owned("  [");
    push_str(&mut line, tag);
    push_str(&mut line, "] ");
    push_str(&mut line, c.name.as_str());
    let detail: Option<&String> = match &c.outcome {
        Ok(note) => match note {
            Some(n) => Some(n),
            None => None,
        },
        Err(reason) => Some(reason),
    };
    match detail {
        Some(d) => {
            push_str(&mut line, " — ");
            push_str(&mut line, d.as_str());
        },
        None => {},
    }
    line
}

/// What `pushmute doctor` prints for the checks (one line each), and whether
/// any critical check failed, which fails the command.
pub struct DoctorReport {
    pub lines: Vec<String>,
    pub critical_failed: bool,
}

/// Renders every check and judges the whole.
pub fn doctor(checks: &Vec<Check>) -> (r: DoctorReport)
    ensures
        r.lines@.map_values(|l: String| l@) == check_views(checks@).map_values(
            |c: CheckView| report_line(c),
        ),
        r.critical_failed == any_critical_failure(check_views(checks@)),
{
    let ghost cs = check_views(checks@);
    let mut lines: Vec<String> = Vec::new();
    let mut failed = false;
    let mut i: usize = 0;
    while i < checks.len()
        invariant
            i <= checks.len(),
            cs == check_views(checks@),
            lines@.map_values(|l: String| l@) == cs.take(i as int).map_values(
                |c: CheckView| report_line(c),
            ),
            failed == any_critical_failure(cs.take(i as int)),
        decreases checks.len() - i,
    {
        let c = &checks[i];
        let ghost before = lines@.map_values(|l: String| l@);
        let line = line_for(c);
        lines.push(line);
        let critical = match c.severity {
            Severity::Critical => true,
            Severity::Warning => false,
        };
        if critical && c.outcome.is_err() {
            failed = true;
        }
        proof {
            assert(cs[i as int] == c@);
            assert(lines@.map_values(|l: String| l@) =~= before.push(report_line(c@)));
            assert(cs.take(i + 1).map_values(|c: CheckView| report_line(c)) =~= cs.take(
                i as int,
            ).map_values(|c: CheckView| report_line(c)).push(report_line(c@)));
            if failed {
                if fails_critically(cs[i as int]) {
                    assert(cs.take(i + 1)[i as int] == cs[i as int]);
                } else {
                    let k = choose|k: int| 0 <= k < i && fails_critically(#[trigger] cs.take(i as int)[k]);
                    assert(cs.take(i + 1)[k] == cs.take(i as int)[k]);
                }
            } else {
                assert forall|k: int| 0 <= k < i + 1 implies !fails_critically(#[trigger] cs.take(i + 1)[k]) by {
                    if k < i {
                        assert(cs.take(i + 1)[k] == cs.take(i as int)[k]);
                    }
                }
            }
        }
        i = i + 1;
    }
    assert(cs.take(checks.len() as int) =~= cs);
    DoctorReport { lines, critical_failed: failed }
}

/// What the startup screen decides: the warnings to print, in order, up to the
/// first critical failure, and that failure (`<name>: <reason>`) if any.
pub struct Preflight {
    pub warnings: Vec<String>,
    pub failure: Option<String>,
}

/// The warnings and the first critical failure among `cs`.
pub open spec fn screened(cs: Seq<CheckView>) -> (Seq<Seq<char>>, Option<Seq<char>>)
    decreases cs.len(),
{
    if cs.len() == 0 {
        (Seq::empty(), None)
    } else {
        let c = cs[0];
        match c.outcome {
            Err(reason) => match c.severity {
                Severity::Critical => (Seq::empty(), Some(c.name + ": "@ + reason)),
                Severity::Warning => {
                    let (w, f) = screened(cs.drop_first());
                    (seq![reason] + w, f)
                },
            },
            Ok(_) => screened(cs.drop_first()),
        }
    }
}

/// The startup screen for `pushmute run`: stops at the first critical failure;
/// warnings before it are to be printed and startup proceeds past them.
pub fn preflight(checks: &Vec<Check>) -> (r: Preflight)
    ensures
        (r.warnings@.map_values(|w: String| w@), opt_chars(r.failure)) == screened(check_views(checks@)),
{
    let ghost cs = check_views(checks@);
    let mut warnings: Vec<String> = Vec::new();
    let mut i: usize = 0;
    assert(cs.skip(0) =~= cs);
    while i < checks.len()
        invariant
            i <= checks.len(),
            cs == check_views(checks@),
            ({
                let (w, f) = screened(cs.skip(i as int));
                screened(cs) == (warnings@.map_values(|x: String| x@) + w, f)
            }),
        decreases checks.len() - i,
    {
        let c = &checks[i];
        assert(cs.skip(i as int)[0] == c@);
        assert(cs.skip(i as int).drop_first() =~= cs.skip(i + 1));
        match &c.outcome {
            Err(reason) => match c.severity {
                Severity::Critical => {
                    let mut m = c.name.clone();
                    push_str(&mut m, ": ");
                    push_str(&mut m, reason.as_str());
                    assert(warnings@.map_values(|x: String| x@) + Seq::<Seq<char>>::empty()
                        =~= warnings@.map_values(|x: String| x@));
                    return Preflight { warnings, failure: Some(m) };
                },
                Severity::Warning => {
                    let ghost before = warnings@.map_values(|x: String| x@);
                    warnings.push(reason.clone());
                    proof {
                        let (w, f) = screened(cs.skip(i + 1));
                        assert(warnings@.map_values(|x: String| x@) =~= before.push(reason@));
                        assert(before + (seq![reason@] + w) =~= before.push(reason@) + w);
                    }
                },
            },
            Ok(_) => {},
        }
        i = i + 1;
    }
    assert(warnings@.map_values(|x: String| x@) + Seq::<Seq<char>>::empty() =~= warnings@.map_values(
        |x: String| x@,
    ));
    Preflight { warnings, failure: None }
}

/// The startup screen refuses exactly when `doctor` reports a critical failure.
pub proof fn law_startup_screen_agrees_with_doctor(cs: Seq<CheckView>)
    ensures
        screened(cs).1 is Some <==> any_critical_failure(cs),
    decreases cs.len(),
{
    if cs.len() > 0 {
        law_startup_screen_agrees_with_doctor(cs.drop_first());
        if any_critical_failure(cs.drop_first()) {
            let k = choose|k: int| 0 <= k < cs.drop_first().len() && fails_critically(
                #[trigger] cs.drop_first()[k],
            );
            assert(cs[k + 1] == cs.drop_first()[k]);
        }
        if any_critical_failure(cs) {
            let k = choose|k: int| 0 <= k < cs.len() && fails_critically(#[trigger] cs[k]);
            if k > 0 {
                assert(cs.drop_first()[k - 1] == cs[k]);
            }
        }
    }
}

/// The `input` group check passes exactly when the user is in the group; not
/// being in it is a critical failure that fails `doctor` and stops startup.
pub proof fn law_input_group_is_critical(env: Environment)
    ensures
        checks_of(env)[5].name == "`input` group membership"@,
        checks_of(env)[5].severity == Severity::Critical,
        checks_of(env)[5].outcome is Ok <==> env.in_input_group,
        !env.in_input_group ==> any_critical_failure(checks_of(env)),
        !env.in_input_group ==> screened(checks_of(env)).1 is Some,
{
    let cs = checks_of(env);
    assert(cs.len() == 7);
    if !env.in_input_group {
        assert(fails_critically(cs[5]));
        law_startup_screen_agrees_with_doctor(cs);
    }
}

/// The uppercase of `s` as `str::to_uppercase` gives it (full Unicode case mapping).
pub uninterp spec fn uppercase(s: Seq<char>) -> Seq<char>;

/// `str::to_uppercase`. Claimed: the result is the named uppercase of the argument.
#[verifier::external_body]
fn to_upper(s: &str) -> (r: String)
    ensures
        r@ == uppercase(s@),
{
    s.to_uppercase()
}

/// Whether `XDG_CURRENT_DESKTOP` (its value, `None` when unset) names GNOME.
pub fn is_gnome(desktop: Option<&str>) -> (r: bool)
    ensures
        r == match desktop {
            Some(d) => contains(uppercase(d@), "GNOME"@),
            None => false,
        },
{
    match desktop {
        Some(d) => {
            let up = to_upper(d);
            let cs = chars_of(up.as_str());
            let pat = chars_of("GNOME");
            has_infix(&cs, &pat)
        },
        None => false,
    }
}

/// Whether `id -nG` output lists the `input` group.
pub fn lists_input_group(groups: &str) -> (r: bool)
    ensures
        r == has_word(groups@, "input"@),
{
    let cs = chars_of(groups);
    let w = chars_of("input");
    contains_word(&cs, &w)
}

/// Whether `busctl --user list` output mentions `org.kde.StatusNotifierWatcher`.
pub fn lists_sni_watcher(names: &str) -> (r: bool)
    ensures
        r == contains(names@, "org.kde.StatusNotifierWatcher"@),
{
    let cs = chars_of(names);
    let pat = chars_of("org.kde.StatusNotifierWatcher");
    has_infix(&cs, &pat)
}


/// The directories of a `PATH` value: its `:`-separated parts, empty ones dropped.
pub open spec fn path_dirs(path: Seq<char>) -> Seq<Seq<char>>
    decreases path.len(),
{
    let end = span_until(path, ':');
    let head = path.take(end as int);
    let rest = if end < path.len() {
        path_dirs(path.skip(end + 1 as int))
    } else {
        Seq::empty()
    };
    if head.len() > 0 {
        seq![head] + rest
    } else {
        rest
    }
}

/// Where `bin` is looked for along `PATH` (its value `path`), in order: each
/// directory joined with `bin`. The application tests each for an executable file.
pub fn search_paths(path: &str, bin: &str) -> (r: Vec<String>)
    ensures
        r@.map_values(|p: String| p@) == path_dirs(path@).map_values(
            |d: Seq<char>| path_join(d, bin@),
        ),
{
    let text = chars_of(path);
    let n = text.len();
    let mut out: Vec<String> = Vec::new();
    let mut start: usize = 0;
    assert(text@.skip(0) =~= text@);
    loop
        invariant
            start <= n,
            n == text.len(),
            text@ == path@,
            path_dirs(path@).map_values(|d: Seq<char>| path_join(d, bin@)) == out@.map_values(
                |p: String| p@,
            ) + path_dirs(text@.skip(start as int)).map_values(|d: Seq<char>| path_join(d, bin@)),
        decreases n - start,
    {
        let ghost rest = text@.skip(start as int);
        let ghost before = out@.map_values(|p: String| p@);
        let k = find_from(&text, start, ':');
        let dir = slice_chars(&text, start, k);
        assert(dir@ =~= rest.take((k - start) as int));
        let ghost tail = if k < n {
            path_dirs(rest.skip((k - start) + 1))
        } else {
            Seq::empty()
        };
        proof {
            if k < n {
                assert(rest.skip((k - start) + 1) =~= text@.skip(k + 1));
            }
        }
        if dir.len() > 0 {
            let d = string_of(&dir);
            let joined = join_path(d.as_str(), bin);
            out.push(joined);
            assert(out@.map_values(|p: String| p@) =~= before.push(path_join(dir@, bin@)));
            assert((seq![dir@] + tail).map_values(|x: Seq<char>| path_join(x, bin@)) =~= seq![
                path_join(dir@, bin@),
            ] + tail.map_values(|x: Seq<char>| path_join(x, bin@)));
            assert(before + (seq![path_join(dir@, bin@)] + tail.map_values(
                |x: Seq<char>| path_join(x, bin@),
            )) =~= before.push(path_join(dir@, bin@)) + tail.map_values(
                |x: Seq<char>| path_join(x, bin@),
            ));
        }
        if k == n {
            assert(out@.map_values(|p: String| p@) + Seq::<Seq<char>>::empty() =~= out@.map_values(
                |p: String| p@,
            ));
            return out;
        }
        start = k + 1;
    }
}

} // verus!
