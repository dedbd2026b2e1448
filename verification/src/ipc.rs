//! The control protocol that lets the `pushmute` CLI drive a running daemon:
//! one command line in, one reply line out. The socket itself is the
//! application's; this module decides the replies.

use vstd::prelude::*;
use crate::daemon::{
    applied, error_text, mute_plan, status_text, toggle_plan, Daemon, DaemonError, DaemonView,
    MuteRequest,
};
use crate::text::{chars_of, join_path, owned, path_join, push_str, same_text, string_of, trim,
    trimmed, CharClass};

verus! {

/// What the daemon does with a command: reply at once, or carry out a mute
/// request first and reply with its outcome (see [`complete`]).
pub enum Reply {
    Text(String),
    Perform(MuteRequest),
}

pub enum ReplyView {
    Text(Seq<char>),
    Perform(MuteRequest),
}

impl View for Reply {
    type V = ReplyView;

    open spec fn view(&self) -> ReplyView {
        match self {
            Reply::Text(s) => ReplyView::Text(s@),
            Reply::Perform(r) => ReplyView::Perform(*r),
        }
    }
}

/// `ok`, or `error: <message>`.
pub open spec fn result_text(r: Result<(), Seq<char>>) -> Seq<char> {
    match r {
        Ok(()) => "ok"@,
        Err(e) => "error: "@ + e,
    }
}

/// The reply line for the outcome of a command.
pub fn result(r: Result<(), String>) -> (s: String)
    ensures
        s@ == result_text(match r {
            Ok(()) => Ok(()),
            Err(e) => Err(e@),
        }),
{
    match r {
        Ok(()) => owned("ok"),
        Err(e) => {
            let mut s = owned("error: ");
            push_str(&mut s, e.as_str());
            s
        },
    }
}

pub open spec fn plan_reply(p: Result<MuteRequest, DaemonError>) -> ReplyView {
    match p {
        Ok(req) => ReplyView::Perform(req),
        Err(e) => ReplyView::Text(result_text(Err(error_text(e)))),
    }
}

/// The answer to command `cmd` in state `d`: `status` reports, `mute`,
/// `unmute` and `toggle` ask for the corresponding request, anything else is
/// refused by name.
pub open spec fn answer(cmd: Seq<char>, d: DaemonView) -> ReplyView {
    if cmd == "status"@ {
        ReplyView::Text(status_text(d))
    } else if cmd == "mute"@ {
        plan_reply(mute_plan(d, true))
    } else if cmd == "unmute"@ {
        plan_reply(mute_plan(d, false))
    } else if cmd == "toggle"@ {
        plan_reply(toggle_plan(d))
    } else {
        ReplyView::Text("error: unknown command `"@ + cmd + "`"@)
    }
}

fn plan_to_reply(p: Result<MuteRequest, DaemonError>) -> (r: Reply)
    ensures
        r@ == plan_reply(p),
{
    match p {
        Ok(req) => Reply::Perform(req),
        Err(e) => {
            let m = e.message();
            Reply::Text(result(Err(m)))
        },
    }
}

/// Decides the answer to one (already trimmed) command.
pub fn dispatch(cmd: &str, daemon: &Daemon) -> (r: Reply)
    ensures
        r@ == answer(cmd@, daemon@),
{
    if same_text(cmd, "status") {
        Reply::Text(daemon.status_line())
    } else if same_text(cmd, "mute") {
        plan_to_reply(daemon.set_mute(true))
    } else if same_text(cmd, "unmute") {
        plan_to_reply(daemon.set_mute(false))
    } else if same_text(cmd, "toggle") {
        plan_to_reply(daemon.toggle())
    } else {
        let mut s = owned("error: unknown command `");
        push_str(&mut s, cmd);
        push_str(&mut s, "`");
        Reply::Text(s)
    }
}

/// Decides the answer to a line as read from the socket: surrounding
/// whitespace, the newline included, is ignored.
pub fn handle_line(line: &str, daemon: &Daemon) -> (r: Reply)
    ensures
        r@ == answer(trim(line@, CharClass::Space), daemon@),
{
    let cs = chars_of(line);
    let t = trimmed(&cs, CharClass::Space);
    let cmd = string_of(&t);
    dispatch(cmd.as_str(), daemon)
}

/// The reply once request `req` has been tried: on success the daemon records
/// it and the reply is `ok`; on failure nothing changes and the reply carries
/// the error.
pub fn complete(daemon: &mut Daemon, req: MuteRequest, outcome: Result<(), String>) -> (r: String)
    ensures
        match outcome {
            Ok(()) => final(daemon)@ == applied(old(daemon)@, req) && r@ == "ok"@,
            Err(e) => final(daemon)@ == old(daemon)@ && r@ == "error: "@ + e@,
        },
{
    match outcome {
        Ok(()) => {
            daemon.mute_applied(req);
            result(Ok(()))
        },
        Err(e) => result(Err(e)),
    }
}

/// The control socket `$XDG_RUNTIME_DIR/pushmute.sock`, given that variable's
/// value (`/tmp` when unset).
pub fn socket_path(runtime_dir: Option<&str>) -> (r: String)
    ensures
        r@ == path_join(
            match runtime_dir {
                Some(d) => d@,
                None => "/tmp"@,
            },
            "pushmute.sock"@,
        ),
{
    match runtime_dir {
        Some(d) => join_path(d, "pushmute.sock"),
        None => join_path("/tmp", "pushmute.sock"),
    }
}

/// A `mute` sent over the socket asks to mute the virtual source; once carried
/// out, the daemon is muted, and while enabled `status` reports it as `Muted`.
pub proof fn law_mute_then_status(d: DaemonView)
    requires
        d.node_id != 0,
    ensures
        answer("mute"@, d) == ReplyView::Perform(MuteRequest { id: d.node_id, mute: true }),
        applied(d, MuteRequest { id: d.node_id, mute: true }).muted,
        d.enabled ==> answer("status"@, applied(d, MuteRequest { id: d.node_id, mute: true }))
            == ReplyView::Text(
            "state="@ + "Muted"@ + " mic="@ + d.physical + " virtual="@
                + crate::config::PUSHMUTE_DESCRIPTION@ + " hotkey_keys="@
                + crate::daemon::keys_text(d.keys),
        ),
{
    reveal_strlit("status");
    reveal_strlit("mute");
    assert("mute"@.len() != "status"@.len());
}


/// `toggle` on a ready daemon asks for the opposite of the current mute state,
/// and two toggles, each carried out, bring the mute state back.
pub proof fn law_toggle_flips(d: DaemonView)
    requires
        d.node_id != 0,
    ensures
        answer("toggle"@, d) == ReplyView::Perform(MuteRequest { id: d.node_id, mute: !d.muted }),
        applied(d, MuteRequest { id: d.node_id, mute: !d.muted }).muted != d.muted,
        ({
            let d1 = applied(d, MuteRequest { id: d.node_id, mute: !d.muted });
            &&& answer("toggle"@, d1) == ReplyView::Perform(
                MuteRequest { id: d.node_id, mute: d.muted },
            )
            &&& applied(d1, MuteRequest { id: d.node_id, mute: d.muted }).muted == d.muted
        }),
{
    reveal_strlit("status");
    reveal_strlit("mute");
    reveal_strlit("unmute");
    reveal_strlit("toggle");
    assert("toggle"@[0] != "status"@[0]);
    assert("toggle"@.len() != "mute"@.len());
    assert("toggle"@[0] != "unmute"@[0]);
}

/// `mute` and `unmute` on a ready daemon ask to mute and to unmute the virtual
/// source, whatever its state.
pub proof fn law_mute_unmute_requests(d: DaemonView)
    requires
        d.node_id != 0,
    ensures
        answer("mute"@, d) == ReplyView::Perform(MuteRequest { id: d.node_id, mute: true }),
        answer("unmute"@, d) == ReplyView::Perform(MuteRequest { id: d.node_id, mute: false }),
{
    reveal_strlit("status");
    reveal_strlit("mute");
    reveal_strlit("unmute");
    assert("mute"@.len() != "status"@.len());
    assert("unmute"@.len() != "mute"@.len());
    assert("unmute"@.len() == "status"@.len());
    assert("unmute"@[0] != "status"@[0]);
}

} // verus!
