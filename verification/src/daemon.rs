//! The daemon's state and its decisions: when to mute, what enabling and
//! disabling does, how the hotkey is gated, and how the state is reported.
//!
//! Muting itself is a `wpctl set-mute` that the application runs: each
//! decision here yields a [`MuteRequest`], and once the command has succeeded
//! the application hands the request back through [`Daemon::mute_applied`].

use vstd::prelude::*;
use crate::config::{Config, PUSHMUTE_DESCRIPTION};
use crate::text::{decimal, owned, push_char, push_decimal, push_str};

verus! {

/// How the daemon should stop once the main thread is unblocked. Config-changing
/// tray actions write `config.toml` and ask for a `Restart`, which re-execs the
/// process so the change is applied through the normal startup path.
#[derive(Debug, Clone, Copy, PartialEq, Eq)]
pub enum Lifecycle {
    Quit,
    Restart,
}

/// Mute (`true`) or unmute the node with object id `id`.
#[derive(Debug, Clone, Copy, PartialEq, Eq)]
pub struct MuteRequest {
    pub id: u32,
    pub mute: bool,
}

/// Why a request cannot be made.
#[derive(Debug, Clone, Copy, PartialEq, Eq)]
pub enum DaemonError {
    /// The virtual source has no node id yet.
    NotReady,
    /// `restore` found no prior default source on record.
    NoPreviousDefault,
}

impl DaemonError {
    pub fn message(&self) -> (r: String)
        ensures
            r@ == error_text(*self),
    {
        match self {
            DaemonError::NotReady => owned("virtual source not ready"),
            DaemonError::NoPreviousDefault => owned("no previous default source recorded"),
        }
    }
}

pub open spec fn error_text(e: DaemonError) -> Seq<char> {
    match e {
        DaemonError::NotReady => "virtual source not ready"@,
        DaemonError::NoPreviousDefault => "no previous default source recorded"@,
    }
}

/// Shared daemon state. `enabled` gates the whole hotkey mechanism: when off,
/// the mic is forced open and key events are ignored.
pub struct Daemon {
    node_id: u32,
    muted: bool,
    enabled: bool,
    physical: String,
    keys: Vec<u16>,
}

pub struct DaemonView {
    pub node_id: u32,
    pub muted: bool,
    pub enabled: bool,
    pub physical: Seq<char>,
    pub keys: Seq<u16>,
}

impl View for Daemon {
    type V = DaemonView;

    closed spec fn view(&self) -> DaemonView {
        DaemonView {
            node_id: self.node_id,
            muted: self.muted,
            enabled: self.enabled,
            physical: self.physical@,
            keys: self.keys@,
        }
    }
}

/// The request that muting (`mute`) or unmuting asks for in state `d`.
pub open spec fn mute_plan(d: DaemonView, mute: bool) -> Result<MuteRequest, DaemonError> {
    if d.node_id == 0 {
        Err(DaemonError::NotReady)
    } else {
        Ok(MuteRequest { id: d.node_id, mute: mute })
    }
}

/// The state once request `req` has been carried out.
pub open spec fn applied(d: DaemonView, req: MuteRequest) -> DaemonView {
    DaemonView { muted: req.mute, ..d }
}

/// The request that a toggle asks for.
pub open spec fn toggle_plan(d: DaemonView) -> Result<MuteRequest, DaemonError> {
    mute_plan(d, !d.muted)
}

/// Turning hotkey routing on or off: the new state, and the unmute that disabling asks for.
pub open spec fn enable_plan(d: DaemonView, enabled: bool) -> (DaemonView, Result<
    Option<MuteRequest>,
    DaemonError,
>) {
    let next = DaemonView { enabled: enabled, ..d };
    if enabled {
        (next, Ok(None))
    } else {
        (
            next,
            match mute_plan(d, false) {
                Ok(r) => Ok(Some(r)),
                Err(e) => Err(e),
            },
        )
    }
}

/// What a hotkey edge (`active`: the chord is now held) asks for: nothing while
/// disabled, else to mute exactly while the chord is held.
pub open spec fn hotkey_plan(d: DaemonView, active: bool) -> Option<
    Result<MuteRequest, DaemonError>,
> {
    if !d.enabled {
        None
    } else {
        Some(mute_plan(d, active))
    }
}

/// `keys` rendered as decimal keycodes joined by `+`.
pub open spec fn joined_keys(keys: Seq<u16>) -> Seq<char>
    decreases keys.len(),
{
    if keys.len() == 0 {
        Seq::empty()
    } else if keys.len() == 1 {
        decimal(keys[0] as nat)
    } else {
        joined_keys(keys.drop_last()) + seq!['+'] + decimal(keys.last() as nat)
    }
}

/// The hotkey chord for display: `unset` when empty, else e.g. `56+183`.
pub open spec fn keys_text(keys: Seq<u16>) -> Seq<char> {
    if keys.len() == 0 {
        "unset"@
    } else {
        joined_keys(keys)
    }
}

/// The state name shown in status lines and the tray.
pub open spec fn state_text(enabled: bool, muted: bool) -> Seq<char> {
    if !enabled {
        "Disabled"@
    } else if muted {
        "Muted"@
    } else {
        "Routing Active"@
    }
}

/// The status line the `status` command answers.
pub open spec fn status_text(d: DaemonView) -> Seq<char> {
    "state="@ + state_text(d.enabled, d.muted) + " mic="@ + d.physical + " virtual="@
        + PUSHMUTE_DESCRIPTION@ + " hotkey_keys="@ + keys_text(d.keys)
}

/// Renders a hotkey chord for display.
pub fn fmt_keys(keys: &Vec<u16>) -> (r: String)
    ensures
        r@ == keys_text(keys@),
{
    if keys.len() == 0 {
        return owned("unset");
    }
    let mut out = String::new();
    push_decimal(&mut out, keys[0] as u64);
    assert(keys@.take(1).drop_last() =~= Seq::<u16>::empty());
    assert(out@ == joined_keys(keys@.take(1)));
    let mut i: usize = 1;
    while i < keys.len()
        invariant
            1 <= i <= keys.len(),
            out@ == joined_keys(keys@.take(i as int)),
        decreases keys.len() - i,
    {
        push_char(&mut out, '+');
        push_decimal(&mut out, keys[i] as u64);
        assert(keys@.take(i + 1).drop_last() =~= keys@.take(i as int));
        assert(keys@.take(i + 1).last() == keys@[i as int]);
        i = i + 1;
    }
    assert(keys@.take(keys.len() as int) =~= keys@);
    out
}

impl Daemon {
    /// A daemon routing `physical` into the virtual source with node id
    /// `node_id` (`0` while it has none), bound to the chord `keys`: enabled and
    /// not muted.
    pub fn new(node_id: u32, physical: String, keys: Vec<u16>) -> (r: Daemon)
        ensures
            r@ == (DaemonView {
                node_id: node_id,
                muted: false,
                enabled: true,
                physical: physical@,
                keys: keys@,
            }),
    {
        Daemon { node_id, muted: false, enabled: true, physical, keys }
    }

    /// The request to mute (or unmute) the virtual source; an error while it
    /// has no node id.
    pub fn set_mute(&self, mute: bool) -> (r: Result<MuteRequest, DaemonError>)
        ensures
            r == mute_plan(self@, mute),
    {
        if self.node_id == 0 {
            return Err(DaemonError::NotReady);
        }
        Ok(MuteRequest { id: self.node_id, mute })
    }

    /// Records that `req` has been carried out.
    pub fn mute_applied(&mut self, req: MuteRequest)
        ensures
            final(self)@ == applied(old(self)@, req),
    {
        self.muted = req.mute;
    }

    /// The request that flips the mute state.
    pub fn toggle(&self) -> (r: Result<MuteRequest, DaemonError>)
        ensures
            r == toggle_plan(self@),
    {
        let next = !self.muted;
        self.set_mute(next)
    }

    pub fn is_muted(&self) -> (r: bool)
        ensures
            r == self@.muted,
    {
        self.muted
    }

    pub fn is_enabled(&self) -> (r: bool)
        ensures
            r == self@.enabled,
    {
        self.enabled
    }

    /// Turn hotkey routing on or off. While disabled the mic stays open and key
    /// events are ignored, so disabling flips the switch, then asks for the source
    /// to be unmuted (covering the case where a key was held at the time).
    pub fn set_enabled(&mut self, enabled: bool) -> (r: Result<Option<MuteRequest>, DaemonError>)
        ensures
            (final(self)@, r) == enable_plan(old(self)@, enabled),
    {
        self.enabled = enabled;
        if !enabled {
            match self.set_mute(false) {
                Ok(req) => Ok(Some(req)),
                Err(e) => Err(e),
            }
        } else {
            Ok(None)
        }
    }

    /// Flips the switch, as `set_enabled(!is_enabled())`.
    pub fn toggle_enabled(&mut self) -> (r: Result<Option<MuteRequest>, DaemonError>)
        ensures
            (final(self)@, r) == enable_plan(old(self)@, !old(self)@.enabled),
    {
        let next = !self.enabled;
        self.set_enabled(next)
    }

    /// What a hotkey edge asks for: `None` while disabled (the edge is ignored),
    /// else the request to mute exactly while the chord is held.
    pub fn on_hotkey(&self, active: bool) -> (r: Option<Result<MuteRequest, DaemonError>>)
        ensures
            r == hotkey_plan(self@, active),
    {
        if !self.enabled {
            return None;
        }
        Some(self.set_mute(active))
    }

    /// The `node.name` of the physical mic being routed (for the tray surface).
    pub fn physical(&self) -> (r: &str)
        ensures
            r@ == self@.physical,
    {
        self.physical.as_str()
    }

    /// The bound hotkey chord, rendered for display (e.g. `"56+183"` or `"unset"`).
    pub fn keys_display(&self) -> (r: String)
        ensures
            r@ == keys_text(self@.keys),
    {
        fmt_keys(&self.keys)
    }

    /// `Disabled`, `Muted` or `Routing Active`.
    pub fn state_label(&self) -> (r: &'static str)
        ensures
            r@ == state_text(self@.enabled, self@.muted),
    {
        if !self.enabled {
            "Disabled"
        } else if self.muted {
            "Muted"
        } else {
            "Routing Active"
        }
    }

    /// `state=<state> mic=<physical> virtual=PushMute hotkey_keys=<chord>`.
    pub fn status_line(&self) -> (r: String)
        ensures
            r@ == status_text(self@),
    {
        let mut out = owned("state=");
        push_str(&mut out, self.state_label());
        push_str(&mut out, " mic=");
        push_str(&mut out, self.physical.as_str());
        push_str(&mut out, " virtual=");
        push_str(&mut out, PUSHMUTE_DESCRIPTION);
        push_str(&mut out, " hotkey_keys=");
        let keys = self.keys_display();
        push_str(&mut out, keys.as_str());
        out
    }
}

/// `pushmute restore`: the recorded prior default source to hand the default
/// back to; an error when none is recorded.
pub fn restore(config: &Config) -> (r: Result<String, DaemonError>)
    ensures
        match config@.previous_default {
            Some(p) => r matches Ok(s) && s@ == p,
            None => r == Err::<String, DaemonError>(DaemonError::NoPreviousDefault),
        },
{
    match &config.previous_default {
        Some(prev) => Ok(prev.clone()),
        None => Err(DaemonError::NoPreviousDefault),
    }
}

/// Once a mute or unmute has been carried out, the state reports it.
pub proof fn law_mute_is_applied(d: DaemonView, mute: bool)
    requires
        mute_plan(d, mute) is Ok,
    ensures
        applied(d, mute_plan(d, mute)->Ok_0).muted == mute,
        applied(d, mute_plan(d, mute)->Ok_0).enabled == d.enabled,
{
}

/// Two toggles, each carried out, bring the mute state back.
pub proof fn law_toggle_twice(d: DaemonView)
    requires
        d.node_id != 0,
    ensures
        ({
            let d1 = applied(d, toggle_plan(d)->Ok_0);
            applied(d1, toggle_plan(d1)->Ok_0).muted == d.muted
        }),
{
}

/// Disabling leaves the mic open: once the unmute it asks for is carried out,
/// the daemon is disabled and not muted, and from then on hotkey edges ask for nothing.
pub proof fn law_disable_opens_mic(d: DaemonView, active: bool)
    requires
        d.node_id != 0,
    ensures
        ({
            let (d1, r) = enable_plan(d, false);
            &&& r matches Ok(Some(req))
            &&& !applied(d1, req).muted
            &&& !applied(d1, req).enabled
            &&& hotkey_plan(applied(d1, req), active) is None
        }),
{
}

/// While enabled, the hotkey mutes exactly while the chord is held.
pub proof fn law_hotkey_follows_chord(d: DaemonView, active: bool)
    requires
        d.enabled,
        d.node_id != 0,
    ensures
        hotkey_plan(d, active) == Some(
            Ok::<MuteRequest, DaemonError>(MuteRequest { id: d.node_id, mute: active }),
        ),
        applied(d, hotkey_plan(d, active)->0->Ok_0).muted == active,
{
}

/// Toggling the switch twice restores it, whatever the second toggle asks for.
pub proof fn law_toggle_enabled_twice(d: DaemonView)
    ensures
        enable_plan(enable_plan(d, !d.enabled).0, d.enabled).0.enabled == d.enabled,
{
}

} // verus!
