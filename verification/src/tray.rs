//! What the system-tray indicator shows and what its menu items decide. The
//! StatusNotifierItem itself (ksni, D-Bus) is the application's; it asks this
//! module for every label, icon and choice.

use vstd::prelude::*;
use crate::daemon::{keys_text, state_text, Daemon};
use crate::text::{owned, push_str};

verus! {

pub const ICON_ACTIVE: &'static str = "audio-input-microphone";

pub const ICON_MUTED: &'static str = "microphone-sensitivity-muted";

/// The icon: the muted microphone while muted, the plain one otherwise.
pub fn icon_name(muted: bool) -> (r: &'static str)
    ensures
        r@ == (if muted {
            ICON_MUTED@
        } else {
            ICON_ACTIVE@
        }),
{
    if muted {
        ICON_MUTED
    } else {
        ICON_ACTIVE
    }
}

/// The tooltip's title: `PushMute — <state>`.
pub fn tool_tip_title(daemon: &Daemon) -> (r: String)
    ensures
        r@ == "PushMute — "@ + state_text(daemon@.enabled, daemon@.muted),
{
    let mut s = owned("PushMute — ");
    push_str(&mut s, daemon.state_label());
    s
}

/// The tooltip's body: the routed mic and the bound chord, one per line.
pub fn tool_tip_description(daemon: &Daemon) -> (r: String)
    ensures
        r@ == "Mic: "@ + daemon@.physical + "\nHotkey: "@ + keys_text(daemon@.keys),
{
    let mut s = owned("Mic: ");
    push_str(&mut s, daemon.physical());
    push_str(&mut s, "\nHotkey: ");
    let keys = daemon.keys_display();
    push_str(&mut s, keys.as_str());
    s
}

/// The menu's (non-clickable) first line: state dot, state and current mic.
pub fn header_label(daemon: &Daemon) -> (r: String)
    ensures
        r@ == "● "@ + state_text(daemon@.enabled, daemon@.muted) + " — "@ + daemon@.physical,
{
    let mut s = owned("● ");
    push_str(&mut s, daemon.state_label());
    push_str(&mut s, " — ");
    push_str(&mut s, daemon.physical());
    s
}

/// The (non-clickable) hint that shows the bound chord.
pub fn hotkey_hint(daemon: &Daemon) -> (r: String)
    ensures
        r@ == "Hotkey: "@ + keys_text(daemon@.keys),
{
    let mut s = owned("Hotkey: ");
    let keys = daemon.keys_display();
    push_str(&mut s, keys.as_str());
    s
}

/// The radio item to show as selected among the devices `names`: the first
/// that is the routed mic, or `usize::MAX` (none) when it is not listed.
pub fn selected_mic(names: &Vec<String>, mic: &str) -> (r: usize)
    ensures
        r == usize::MAX ==> forall|i: int| 0 <= i < names@.len() ==> names@[i]@ != mic@,
        r != usize::MAX ==> r < names@.len() && names@[r as int]@ == mic@ && forall|i: int|
            0 <= i < r ==> names@[i]@ != mic@,
{
    let wanted = owned(mic);
    let mut i: usize = 0;
    while i < names.len()
        invariant
            i <= names.len(),
            wanted@ == mic@,
            forall|j: int| 0 <= j < i ==> names@[j]@ != mic@,
        decreases names.len() - i,
    {
        if names[i] == wanted {
            return i;
        }
        i = i + 1;
    }
    usize::MAX
}

/// The device that radio item `i` stands for, if there is one.
pub fn mic_choice(names: &Vec<String>, i: usize) -> (r: Option<String>)
    ensures
        i < names@.len() ==> (r matches Some(n) && n@ == names@[i as int]@),
        i >= names@.len() ==> r is None,
{
    if i < names.len() {
        Some(names[i].clone())
    } else {
        None
    }
}

/// The notice after flipping run-on-startup, which was `was_on` before.
pub fn startup_notice(was_on: bool) -> (r: &'static str)
    ensures
        r@ == (if was_on {
            "Disabled — won't start on login"@
        } else {
            "Enabled — starts on login"@
        }),
{
    if was_on {
        "Disabled — won't start on login"
    } else {
        "Enabled — starts on login"
    }
}

/// The notice after choosing another mic.
pub fn mic_switched(name: &str) -> (r: String)
    ensures
        r@ == "Switched to "@ + name@,
{
    let mut s = owned("Switched to ");
    push_str(&mut s, name);
    s
}

/// The notice after unchecking set-default: the device the default goes back
/// to, when one is recorded.
pub fn default_restored(previous: Option<&str>) -> (r: String)
    ensures
        r@ == match previous {
            Some(p) => "Restored → "@ + p@,
            None => "Restored default source"@,
        },
{
    match previous {
        Some(p) => {
            let mut s = owned("Restored → ");
            push_str(&mut s, p);
            s
        },
        None => owned("Restored default source"),
    }
}

/// The hotkey notice after a rebind: the chord as it will be shown.
pub fn hotkey_bound(keys: &Vec<u16>) -> (r: String)
    ensures
        r@ == keys_text(keys@),
{
    crate::daemon::fmt_keys(keys)
}

} // verus!
