//! Run-on-startup, expressed as the enabled state of the `pushmute` systemd user
//! unit. The application runs `systemctl`; this module says what to run and
//! how to read its answer.

use vstd::prelude::*;
use crate::text::{chars_of, owned, push_str, string_of, trim, trimmed, CharClass};

verus! {

/// The systemd user unit.
pub const UNIT: &'static str = "pushmute.service";

/// `u8::is_ascii_whitespace`: space, tab, line feed, form feed, carriage return.
pub open spec fn is_ascii_space(b: u8) -> bool {
    b == 0x20 || b == 0x09 || b == 0x0A || b == 0x0C || b == 0x0D
}

/// `s` without its trailing ASCII whitespace (`<[u8]>::trim_ascii_end`).
pub open spec fn trim_ascii_end(s: Seq<u8>) -> Seq<u8>
    decreases s.len(),
{
    if s.len() > 0 && is_ascii_space(s.last()) {
        trim_ascii_end(s.drop_last())
    } else {
        s
    }
}

pub open spec fn enabled_bytes() -> Seq<u8> {
    seq![0x65u8, 0x6E, 0x61, 0x62, 0x6C, 0x65, 0x64]
}

/// The arguments of `systemctl` that ask whether the unit starts on login.
pub fn is_enabled_args() -> (r: Vec<String>)
    ensures
        r@.map_values(|a: String| a@) == seq!["--user"@, "is-enabled"@, UNIT@],
{
    let mut r: Vec<String> = Vec::new();
    r.push(owned("--user"));
    r.push(owned("is-enabled"));
    r.push(owned(UNIT));
    assert(r@.map_values(|a: String| a@) =~= seq!["--user"@, "is-enabled"@, UNIT@]);
    r
}

/// Whether `systemctl --user is-enabled` printed exactly `enabled` (trailing
/// whitespace aside). Any failure to run it counts as not enabled, which is the
/// application's to decide.
pub fn reports_enabled(stdout: &[u8]) -> (r: bool)
    ensures
        r == (trim_ascii_end(stdout@) == enabled_bytes()),
{
    let mut end: usize = stdout.len();
    assert(stdout@.take(end as int) =~= stdout@);
    while end > 0 && (stdout[end - 1] == 0x20 || stdout[end - 1] == 0x09 || stdout[end - 1] == 0x0A
        || stdout[end - 1] == 0x0C || stdout[end - 1] == 0x0D)
        invariant
            end <= stdout@.len(),
            trim_ascii_end(stdout@) == trim_ascii_end(stdout@.take(end as int)),
        decreases end,
    {
        assert(stdout@.take(end as int).drop_last() =~= stdout@.take(end - 1));
        end = end - 1;
    }
    let word: [u8; 7] = [0x65u8, 0x6E, 0x61, 0x62, 0x6C, 0x65, 0x64];
    assert(word@ == enabled_bytes());
    proof {
        if end > 0 {
            assert(stdout@.take(end as int).last() == stdout@[end - 1]);
        }
        assert(trim_ascii_end(stdout@) == stdout@.take(end as int));
    }
    if end != 7 {
        return false;
    }
    let mut i: usize = 0;
    while i < 7
        invariant
            i <= 7,
            end == 7,
            end <= stdout@.len(),
            trim_ascii_end(stdout@) == stdout@.take(7),
            word@ == enabled_bytes(),
            forall|k: int| 0 <= k < i ==> stdout@[k] == word@[k],
        decreases 7 - i,
    {
        if stdout[i] != word[i] {
            assert(stdout@.take(7)[i as int] != enabled_bytes()[i as int]);
            return false;
        }
        i = i + 1;
    }
    assert(stdout@.take(7) =~= enabled_bytes());
    true
}

/// `enable` or `disable`.
pub fn verb(value: bool) -> (r: &'static str)
    ensures
        r@ == (if value {
            "enable"@
        } else {
            "disable"@
        }),
{
    if value {
        "enable"
    } else {
        "disable"
    }
}

/// The arguments of `systemctl` that turn start-on-login on or off. No
/// `--now`: the running daemon is the caller, so only the boot symlink changes.
pub fn set_enabled_args(value: bool) -> (r: Vec<String>)
    ensures
        r@.map_values(|a: String| a@) == seq!["--user"@, verb_text(value), UNIT@],
{
    let mut r: Vec<String> = Vec::new();
    r.push(owned("--user"));
    r.push(owned(verb(value)));
    r.push(owned(UNIT));
    assert(r@.map_values(|a: String| a@) =~= seq!["--user"@, verb_text(value), UNIT@]);
    r
}

pub open spec fn verb_text(value: bool) -> Seq<char> {
    if value {
        "enable"@
    } else {
        "disable"@
    }
}

/// `systemctl --user <verb> failed: <stderr, trimmed>`.
pub fn set_enabled_failure(value: bool, stderr: &str) -> (r: String)
    ensures
        r@ == "systemctl --user "@ + verb_text(value) + " failed: "@ + trim(
            stderr@,
            CharClass::Space,
        ),
{
    let mut out = owned("systemctl --user ");
    push_str(&mut out, verb(value));
    push_str(&mut out, " failed: ");
    let cs = chars_of(stderr);
    let t = trimmed(&cs, CharClass::Space);
    let tail = string_of(&t);
    push_str(&mut out, tail.as_str());
    out
}

} // verus!
