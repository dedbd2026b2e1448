//! Desktop notifications via `notify-send` (best-effort; absence is non-fatal).
//!
//! Policy: notify only on the hotkey-rebind flow, applied config changes, and
//! errors — never on routine mute/unmute, which is the tray icon's job.
//! This module decides what is sent; the application runs `notify-send`.

use vstd::prelude::*;
use crate::text::owned;

verus! {

/// One notification: its urgency (`normal` or `critical`), summary and body.
pub struct Notification {
    pub urgency: String,
    pub summary: String,
    pub body: String,
}

/// A normal-priority notification (rebind prompts, applied config changes).
pub fn info(summary: &str, body: &str) -> (r: Notification)
    ensures
        r.urgency@ == "normal"@,
        r.summary@ == summary@,
        r.body@ == body@,
{
    Notification { urgency: owned("normal"), summary: owned(summary), body: owned(body) }
}

/// A critical notification for failures the user should see.
pub fn error(summary: &str, body: &str) -> (r: Notification)
    ensures
        r.urgency@ == "critical"@,
        r.summary@ == summary@,
        r.body@ == body@,
{
    Notification { urgency: owned("critical"), summary: owned(summary), body: owned(body) }
}

impl Notification {
    /// The arguments of `notify-send`: app name `PushMute`, the microphone icon,
    /// the urgency, then summary and body.
    pub fn args(&self) -> (r: Vec<String>)
        ensures
            r@.map_values(|a: String| a@) == seq![
                "-a"@,
                "PushMute"@,
                "-i"@,
                "audio-input-microphone"@,
                "-u"@,
                self.urgency@,
                self.summary@,
                self.body@,
            ],
    {
        let mut r: Vec<String> = Vec::new();
        r.push(owned("-a"));
        r.push(owned("PushMute"));
        r.push(owned("-i"));
        r.push(owned("audio-input-microphone"));
        r.push(owned("-u"));
        r.push(self.urgency.clone());
        r.push(self.summary.clone());
        r.push(self.body.clone());
        assert(r@.map_values(|a: String| a@) =~= seq![
            "-a"@,
            "PushMute"@,
            "-i"@,
            "audio-input-microphone"@,
            "-u"@,
            self.urgency@,
            self.summary@,
            self.body@,
        ]);
        r
    }
}

} // verus!
