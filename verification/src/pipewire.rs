//! What PushMute reads out of, and hands to, the PipeWire/WirePlumber CLI tools:
//! the capture sources and node ids in `pw-dump`'s JSON, the default source in
//! `wpctl inspect` text, and the argument lists of `wpctl` and `pw-loopback`.
//! Running the tools is the application's.

use vstd::prelude::*;
use crate::config::{PUSHMUTE_DESCRIPTION, PUSHMUTE_NODE_NAME};
use crate::json::{
    field, field_of, get_in, items, json_document, json_error_text, parse_json, str_in,
    text_of, unsigned_of, JsonValue,
};
use crate::text::{
    chars_of, decimal, ends_with, find_from, has_prefix, has_suffix, owned, push_decimal,
    push_str, slice_chars, span_until, starts_with, string_of, trim, trimmed, CharClass,
};

verus! {

/// A capture source visible in the PipeWire graph.
#[derive(Debug, Clone)]
pub struct CaptureDevice {
    pub id: u32,
    pub name: String,
    pub description: String,
}

pub struct DeviceView {
    pub id: u32,
    pub name: Seq<char>,
    pub description: Seq<char>,
}

impl View for CaptureDevice {
    type V = DeviceView;

    open spec fn view(&self) -> DeviceView {
        DeviceView { id: self.id, name: self.name@, description: self.description@ }
    }
}

pub open spec fn device_views(v: Seq<CaptureDevice>) -> Seq<DeviceView> {
    v.map_values(|d: CaptureDevice| d@)
}

/// `pw-dump` printed something that is not JSON.
#[derive(Debug)]
pub enum PwError {
    /// The parser's complaint, after `parsing pw-dump JSON: `.
    InvalidDump(String),
}

impl PwError {
    pub fn message(&self) -> (r: String)
        ensures
            r@ == error_message(*self),
    {
        match self {
            PwError::InvalidDump(m) => m.clone(),
        }
    }
}

pub open spec fn error_message(e: PwError) -> Seq<char> {
    match e {
        PwError::InvalidDump(m) => m@,
    }
}

/// The error for an unparseable dump: its message starts with `parsing pw-dump JSON: `.
pub open spec fn dump_complaint(e: PwError) -> bool {
    starts_with(error_message(e), "parsing pw-dump JSON: "@)
}

fn dump_error(e: &serde_json::Error) -> (r: PwError)
    ensures
        dump_complaint(r),
{
    let mut m = owned("parsing pw-dump JSON: ");
    let ghost head = m@;
    let detail = json_error_text(e);
    push_str(&mut m, detail.as_str());
    assert(m@.take(head.len() as int) =~= head);
    PwError::InvalidDump(m)
}

pub open spec fn or_empty(o: Option<Seq<char>>) -> Seq<char> {
    match o {
        Some(s) => s,
        None => Seq::empty(),
    }
}

/// A `pw-dump` object whose `type` names a Node (`PipeWire:Interface:Node`).
pub open spec fn is_node(obj: JsonValue) -> bool {
    ends_with(or_empty(text_of(field(obj, "type"@))), "Node"@)
}

/// `obj["info"]["props"]` (the pointer `/info/props`).
pub open spec fn props_of(obj: JsonValue) -> Option<JsonValue> {
    field_of(field(obj, "info"@), "props"@)
}

/// The capture device that `obj` describes: a Node whose props have
/// `media.class` `Audio/Source` and a nonempty `node.name` other than PushMute's
/// own. Its description falls back to its name, its id to 0 (truncated to 32 bits).
pub open spec fn device_of(obj: JsonValue) -> Option<DeviceView> {
    let props = props_of(obj);
    let class = or_empty(text_of(field_of(props, "media.class"@)));
    let name = or_empty(text_of(field_of(props, "node.name"@)));
    let description = match text_of(field_of(props, "node.description"@)) {
        Some(d) => d,
        None => name,
    };
    let id: u32 = match unsigned_of(field(obj, "id"@)) {
        Some(n) => n as u32,
        None => 0,
    };
    if is_node(obj) && props is Some && class == "Audio/Source"@ && name.len() > 0 && name
        != PUSHMUTE_NODE_NAME@ {
        Some(DeviceView { id: id, name: name, description: description })
    } else {
        None
    }
}

/// The capture devices among `objs`, in order.
pub open spec fn devices_in(objs: Seq<JsonValue>) -> Seq<DeviceView>
    decreases objs.len(),
{
    if objs.len() == 0 {
        Seq::empty()
    } else {
        let rest = devices_in(objs.drop_last());
        match device_of(objs.last()) {
            Some(d) => rest.push(d),
            None => rest,
        }
    }
}

/// The capture devices of a whole `pw-dump` document (an array of objects).
pub open spec fn listed_devices(doc: JsonValue) -> Seq<DeviceView> {
    devices_in(items(doc))
}

/// `obj["info"]["props"]["node.name"]` (the pointer `/info/props/node.name`) as text.
pub open spec fn node_name_of(obj: JsonValue) -> Option<Seq<char>> {
    text_of(field_of(props_of(obj), "node.name"@))
}

/// The id of the first Node among `objs` named `name` that has a `u64` id.
pub open spec fn node_id_in(objs: Seq<JsonValue>, name: Seq<char>) -> Option<u32>
    decreases objs.len(),
{
    if objs.len() == 0 {
        None
    } else if is_node(objs[0]) && node_name_of(objs[0]) == Some(name) && unsigned_of(
        field(objs[0], "id"@),
    ) is Some {
        Some(unsigned_of(field(objs[0], "id"@))->0 as u32)
    } else {
        node_id_in(objs.drop_first(), name)
    }
}

/// Whether `obj` is a Node.
pub fn node_check(obj: &JsonValue) -> (r: bool)
    ensures
        r == is_node(*obj),
{
    let key = owned("type");
    let suffix = chars_of("Node");
    match str_in(obj.get(&key)) {
        Some(t) => {
            let cs = chars_of(t.as_str());
            has_suffix(&cs, &suffix)
        },
        None => {
            let empty: Vec<char> = Vec::new();
            has_suffix(&empty, &suffix)
        },
    }
}

fn text_or_empty(v: Option<&String>) -> (r: Vec<char>)
    ensures
        r@ == or_empty(match v {
            Some(s) => Some(s@),
            None => None,
        }),
{
    match v {
        Some(s) => chars_of(s.as_str()),
        None => Vec::new(),
    }
}

/// The capture device that `obj` describes, if any.
pub fn device_from(obj: &JsonValue) -> (r: Option<CaptureDevice>)
    ensures
        match r {
            Some(d) => device_of(*obj) == Some(d@),
            None => device_of(*obj) is None,
        },
{
    let props = get_in(obj.get(&owned("info")), &owned("props"));
    let class = text_or_empty(str_in(get_in(props, &owned("media.class"))));
    let name_text = str_in(get_in(props, &owned("node.name")));
    let name = text_or_empty(name_text);
    if !node_check(obj) || props.is_none() {
        return None;
    }
    let audio_source = chars_of("Audio/Source");
    if class.len() != audio_source.len() || !has_prefix(&class, &audio_source) {
        assert(class@ != "Audio/Source"@) by {
            if class@ == "Audio/Source"@ {
                assert(class@.take(class@.len() as int) =~= class@);
            }
        }
        return None;
    }
    assert(class@ =~= "Audio/Source"@);
    let own = chars_of(PUSHMUTE_NODE_NAME);
    if name.len() == 0 || (name.len() == own.len() && has_prefix(&name, &own)) {
        proof {
            if name@.len() > 0 {
                assert(name@ =~= PUSHMUTE_NODE_NAME@);
            }
        }
        return None;
    }
    assert(name@ != PUSHMUTE_NODE_NAME@) by {
        if name@ == PUSHMUTE_NODE_NAME@ {
            assert(name@.take(name@.len() as int) =~= name@);
        }
    }
    let name_string = string_of(&name);
    let description = match str_in(get_in(props, &owned("node.description"))) {
        Some(d) => d.clone(),
        None => string_of(&name),
    };
    let id: u32 = match obj.get(&owned("id")) {
        Some(v) => match v.as_u64() {
            Some(n) => n as u32,
            None => 0,
        },
        None => 0,
    };
    Some(CaptureDevice { id, name: name_string, description })
}

/// The capture devices of a `pw-dump` document, in document order, excluding
/// PushMute's own source.
pub fn capture_devices(doc: &JsonValue) -> (r: Vec<CaptureDevice>)
    ensures
        device_views(r@) == listed_devices(*doc),
{
    let objs = doc.elements();
    let mut out: Vec<CaptureDevice> = Vec::new();
    let mut i: usize = 0;
    while i < objs.len()
        invariant
            i <= objs.len(),
            objs@ == items(*doc),
            device_views(out@) == devices_in(objs@.take(i as int)),
        decreases objs.len() - i,
    {
        let found = device_from(&objs[i]);
        assert(objs@.take(i + 1).drop_last() =~= objs@.take(i as int));
        assert(objs@.take(i + 1).last() == objs@[i as int]);
        let ghost before = out@;
        match found {
            Some(d) => {
                out.push(d);
                assert(device_views(out@) =~= device_views(before).push(d@));
            },
            None => {},
        }
        i = i + 1;
    }
    assert(objs@.take(objs.len() as int) =~= objs@);
    out
}


/// Every listed capture device is a named source other than PushMute's own:
/// the router never offers its own virtual source as a physical mic.
pub proof fn law_listed_devices_exclude_own_source(doc: JsonValue)
    ensures
        forall|i: int|
            0 <= i < listed_devices(doc).len() ==> {
                let d = #[trigger] listed_devices(doc)[i];
                d.name.len() > 0 && d.name != PUSHMUTE_NODE_NAME@
            },
{
    lemma_devices_named(items(doc));
}

proof fn lemma_devices_named(objs: Seq<JsonValue>)
    ensures
        forall|i: int|
            0 <= i < devices_in(objs).len() ==> {
                let d = #[trigger] devices_in(objs)[i];
                d.name.len() > 0 && d.name != PUSHMUTE_NODE_NAME@
            },
    decreases objs.len(),
{
    if objs.len() > 0 {
        lemma_devices_named(objs.drop_last());
        let rest = devices_in(objs.drop_last());
        assert forall|i: int| 0 <= i < devices_in(objs).len() implies {
            let d = #[trigger] devices_in(objs)[i];
            d.name.len() > 0 && d.name != PUSHMUTE_NODE_NAME@
        } by {
            if i < rest.len() {
                assert(devices_in(objs)[i] == rest[i]);
            }
        }
    }
}

/// Each device listed from `objs` is the device of one of them, and each of
/// them that is a device is listed.
proof fn lemma_devices_from(objs: Seq<JsonValue>)
    ensures
        forall|i: int|
            0 <= i < devices_in(objs).len() ==> exists|j: int|
                0 <= j < objs.len() && device_of(objs[j]) == Some(#[trigger] devices_in(objs)[i]),
        forall|j: int|
            0 <= j < objs.len() && (#[trigger] device_of(objs[j])) is Some ==> exists|i: int|
                0 <= i < devices_in(objs).len() && devices_in(objs)[i] == device_of(objs[j])->0,
    decreases objs.len(),
{
    if objs.len() > 0 {
        let init = objs.drop_last();
        lemma_devices_from(init);
        let rest = devices_in(init);
        let all = devices_in(objs);
        assert forall|i: int| 0 <= i < all.len() implies exists|j: int|
            0 <= j < objs.len() && device_of(objs[j]) == Some(#[trigger] all[i]) by {
            if i < rest.len() {
                assert(all[i] == rest[i]);
                let j = choose|j: int| 0 <= j < init.len() && device_of(init[j]) == Some(rest[i]);
                assert(objs[j] == init[j]);
            } else {
                assert(device_of(objs[objs.len() - 1]) == Some(all[i]));
            }
        }
        assert forall|j: int| 0 <= j < objs.len() && (#[trigger] device_of(objs[j])) is Some implies exists|i: int|
            0 <= i < all.len() && all[i] == device_of(objs[j])->0 by {
            if j < objs.len() - 1 {
                assert(objs[j] == init[j]);
                assert(device_of(init[j]) is Some);
                let i = choose|i: int| 0 <= i < rest.len() && rest[i] == device_of(init[j])->0;
                assert(all[i] == rest[i]);
            } else {
                assert(all[all.len() - 1] == device_of(objs[j])->0);
            }
        }
    }
}

/// `obj` is a Node whose props' `media.class` is exactly `Audio/Source` and
/// whose `node.name` is `name`.
pub open spec fn audio_source_named(obj: JsonValue, name: Seq<char>) -> bool {
    &&& is_node(obj)
    &&& text_of(field_of(props_of(obj), "media.class"@)) == Some("Audio/Source"@)
    &&& text_of(field_of(props_of(obj), "node.name"@)) == Some(name)
}

/// Every listed capture device is that of a Node object whose props'
/// `media.class` is exactly `Audio/Source`, under that object's `node.name`.
pub proof fn law_listed_devices_are_audio_sources(doc: JsonValue, i: int)
    requires
        0 <= i < listed_devices(doc).len(),
    ensures
        exists|j: int|
            0 <= j < items(doc).len() && #[trigger] audio_source_named(
                items(doc)[j],
                listed_devices(doc)[i].name,
            ),
{
    reveal_strlit("Audio/Source");
    let objs = items(doc);
    lemma_devices_from(objs);
    let d = listed_devices(doc)[i];
    assert(d == devices_in(objs)[i]);
    let j = choose|j: int| 0 <= j < objs.len() && device_of(objs[j]) == Some(d);
    let obj = objs[j];
    let class = or_empty(text_of(field_of(props_of(obj), "media.class"@)));
    let name = or_empty(text_of(field_of(props_of(obj), "node.name"@)));
    assert(class == "Audio/Source"@);
    assert(text_of(field_of(props_of(obj), "media.class"@)) is Some);
    assert(name.len() > 0);
    assert(text_of(field_of(props_of(obj), "node.name"@)) is Some);
    assert(audio_source_named(items(doc)[j], d.name));
}

/// Every Node object whose props' `media.class` is exactly `Audio/Source`,
/// with a nonempty `node.name` other than PushMute's own, is listed under that name.
pub proof fn law_audio_sources_are_listed(doc: JsonValue, j: int, n: Seq<char>)
    requires
        0 <= j < items(doc).len(),
        audio_source_named(items(doc)[j], n),
        n.len() > 0,
        n != PUSHMUTE_NODE_NAME@,
    ensures
        exists|i: int| 0 <= i < listed_devices(doc).len() && #[trigger] listed_devices(doc)[i].name == n,
{
    reveal_strlit("Audio/Source");
    let objs = items(doc);
    lemma_devices_from(objs);
    assert(props_of(objs[j]) is Some);
    assert(device_of(objs[j]) is Some);
    let i = choose|i: int|
        0 <= i < devices_in(objs).len() && devices_in(objs)[i] == device_of(objs[j])->0;
    assert(listed_devices(doc)[i].name == n);
}

/// Parses `pw-dump` output into its capture devices: an error exactly when the
/// text is not JSON, else the devices of the document.
pub fn parse_capture_devices(dump: &str) -> (r: Result<Vec<CaptureDevice>, PwError>)
    ensures
        match json_document(dump@) {
            None => r matches Err(e) && dump_complaint(e),
            Some(doc) => r matches Ok(v) && device_views(v@) == listed_devices(doc),
        },
{
    match parse_json(dump) {
        Ok(doc) => Ok(capture_devices(&doc)),
        Err(e) => Err(dump_error(&e)),
    }
}

/// The node id of the Node named `name` in a `pw-dump` document: the first such
/// object with a `u64` id, truncated to 32 bits.
pub fn node_id_named(doc: &JsonValue, name: &str) -> (r: Option<u32>)
    ensures
        r == node_id_in(items(*doc), name@),
{
    let objs = doc.elements();
    let wanted = owned(name);
    let info = owned("info");
    let props = owned("props");
    let node_name = owned("node.name");
    let id_key = owned("id");
    let mut i: usize = 0;
    assert(objs@.skip(0) =~= objs@);
    while i < objs.len()
        invariant
            i <= objs.len(),
            objs@ == items(*doc),
            wanted@ == name@,
            info@ == "info"@,
            props@ == "props"@,
            node_name@ == "node.name"@,
            id_key@ == "id"@,
            node_id_in(objs@, name@) == node_id_in(objs@.skip(i as int), name@),
        decreases objs.len() - i,
    {
        let obj = &objs[i];
        assert(objs@.skip(i as int)[0] == objs@[i as int]);
        assert(objs@.skip(i as int).drop_first() =~= objs@.skip(i + 1));
        if node_check(obj) {
            let found = str_in(get_in(get_in(obj.get(&info), &props), &node_name));
            let matches = match found {
                Some(n) => *n == wanted,
                None => false,
            };
            if matches {
                match obj.get(&id_key) {
                    Some(v) => match v.as_u64() {
                        Some(id) => {
                            return Some(id as u32);
                        },
                        None => {},
                    },
                    None => {},
                }
            }
        }
        i = i + 1;
    }
    None
}

/// Resolves a node's object id by its `node.name` from `pw-dump` output: an
/// error exactly when the text is not JSON.
pub fn parse_node_id_by_name(dump: &str, name: &str) -> (r: Result<Option<u32>, PwError>)
    ensures
        match json_document(dump@) {
            None => r matches Err(e) && dump_complaint(e),
            Some(doc) => r == Ok::<Option<u32>, PwError>(node_id_in(items(doc), name@)),
        },
{
    match parse_json(dump) {
        Ok(doc) => Ok(node_id_named(&doc, name)),
        Err(e) => Err(dump_error(&e)),
    }
}

pub open spec fn starred_prefix() -> Seq<char> {
    "* node.name = "@
}

/// The value of a `* node.name = "..."` line (leading and trailing whitespace
/// of the line ignored, surrounding quotes of the value removed).
pub open spec fn starred_name(line: Seq<char>) -> Option<Seq<char>> {
    let t = trim(line, CharClass::Space);
    if starts_with(t, starred_prefix()) {
        Some(trim(t.skip(starred_prefix().len() as int), CharClass::Quote))
    } else {
        None
    }
}

/// The `node.name` of the default source in `wpctl inspect @DEFAULT_SOURCE@`
/// output: that of the first line marked with a leading `*`.
pub open spec fn default_source_in(text: Seq<char>) -> Option<Seq<char>>
    decreases text.len(),
{
    let end = span_until(text, '\n');
    match starred_name(text.take(end as int)) {
        Some(n) => Some(n),
        None => if end < text.len() {
            default_source_in(text.skip(end + 1 as int))
        } else {
            None
        },
    }
}

/// The `node.name` of the default source from `wpctl inspect @DEFAULT_SOURCE@`
/// output. The line is marked with a leading `*` (a directly-set property).
pub fn parse_default_source(inspect: &str) -> (r: Option<String>)
    ensures
        match r {
            Some(s) => default_source_in(inspect@) == Some(s@),
            None => default_source_in(inspect@) is None,
        },
{
    let text = chars_of(inspect);
    let prefix = chars_of("* node.name = ");
    let n = text.len();
    let mut start: usize = 0;
    assert(text@.skip(0) =~= text@);
    loop
        invariant
            start <= n,
            n == text.len(),
            text@ == inspect@,
            prefix@ == starred_prefix(),
            default_source_in(inspect@) == default_source_in(text@.skip(start as int)),
        decreases n - start,
    {
        let ghost rest = text@.skip(start as int);
        let k = find_from(&text, start, '\n');
        let line = slice_chars(&text, start, k);
        assert(line@ =~= rest.take((k - start) as int));
        let t = trimmed(&line, CharClass::Space);
        if has_prefix(&t, &prefix) {
            let value = slice_chars(&t, prefix.len(), t.len());
            assert(value@ =~= t@.skip(prefix.len() as int));
            let bare = trimmed(&value, CharClass::Quote);
            return Some(string_of(&bare));
        }
        if k == n {
            return None;
        }
        assert(rest.skip((k - start) + 1) =~= text@.skip(k + 1));
        start = k + 1;
    }
}

/// The arguments of `wpctl` that mute (`1`) or unmute (`0`) node `id`.
pub fn mute_args(id: u32, mute: bool) -> (r: Vec<String>)
    ensures
        r@.map_values(|a: String| a@) == seq![
            "set-mute"@,
            decimal(id as nat),
            if mute {
                "1"@
            } else {
                "0"@
            },
        ],
{
    let mut num = String::new();
    push_decimal(&mut num, id as u64);
    let mut r: Vec<String> = Vec::new();
    r.push(owned("set-mute"));
    r.push(num);
    r.push(if mute {
        owned("1")
    } else {
        owned("0")
    });
    assert(r@.map_values(|a: String| a@) =~= seq![
        "set-mute"@,
        decimal(id as nat),
        if mute {
            "1"@
        } else {
            "0"@
        },
    ]);
    r
}

/// The arguments of `wpctl` that make node `id` the default source.
pub fn set_default_args(id: u32) -> (r: Vec<String>)
    ensures
        r@.map_values(|a: String| a@) == seq!["set-default"@, decimal(id as nat)],
{
    let mut num = String::new();
    push_decimal(&mut num, id as u64);
    let mut r: Vec<String> = Vec::new();
    r.push(owned("set-default"));
    r.push(num);
    assert(r@.map_values(|a: String| a@) =~= seq!["set-default"@, decimal(id as nat)]);
    r
}

/// The capture-side properties of the loopback: it targets the physical mic
/// and is passive (no exclusive grab).
pub open spec fn capture_props(physical: Seq<char>) -> Seq<char> {
    "node.target="@ + physical + " node.passive=true"@
}

/// The playback-side properties: an `Audio/Source` named `pushmute`, described
/// as `PushMute`, that every default-source client reads from.
pub open spec fn playback_props() -> Seq<char> {
    "media.class=Audio/Source node.name="@ + PUSHMUTE_NODE_NAME@ + " node.description=\""@
        + PUSHMUTE_DESCRIPTION@ + "\""@
}

/// The arguments of `pw-loopback` that create the `pushmute` virtual source,
/// fed by `physical`.
pub fn loopback_args(physical: &str) -> (r: Vec<String>)
    ensures
        r@.map_values(|a: String| a@) == seq![
            "-m"@,
            "[ FL FR ]"@,
            "--capture-props"@,
            capture_props(physical@),
            "--playback-props"@,
            playback_props(),
        ],
{
    let mut capture = owned("node.target=");
    push_str(&mut capture, physical);
    push_str(&mut capture, " node.passive=true");
    let mut playback = owned("media.class=Audio/Source node.name=");
    push_str(&mut playback, PUSHMUTE_NODE_NAME);
    push_str(&mut playback, " node.description=\"");
    push_str(&mut playback, PUSHMUTE_DESCRIPTION);
    push_str(&mut playback, "\"");
    let mut r: Vec<String> = Vec::new();
    r.push(owned("-m"));
    r.push(owned("[ FL FR ]"));
    r.push(owned("--capture-props"));
    r.push(capture);
    r.push(owned("--playback-props"));
    r.push(playback);
    assert(r@.map_values(|a: String| a@) =~= seq![
        "-m"@,
        "[ FL FR ]"@,
        "--capture-props"@,
        capture_props(physical@),
        "--playback-props"@,
        playback_props(),
    ]);
    r
}

/// `parts` joined with `sep` between each two.
pub open spec fn joined(parts: Seq<Seq<char>>, sep: Seq<char>) -> Seq<char>
    decreases parts.len(),
{
    if parts.len() == 0 {
        Seq::empty()
    } else if parts.len() == 1 {
        parts[0]
    } else {
        joined(parts.drop_last(), sep) + sep + parts.last()
    }
}

/// The error text for a tool that exited unsuccessfully:
/// ``"`<cmd> <args joined by spaces>` failed: <stderr, trimmed>"``.
pub open spec fn failure_text(cmd: Seq<char>, args: Seq<Seq<char>>, stderr: Seq<char>) -> Seq<
    char,
> {
    "`"@ + cmd + " "@ + joined(args, " "@) + "` failed: "@ + trim(stderr, CharClass::Space)
}

pub fn failure_message(cmd: &str, args: &Vec<String>, stderr: &str) -> (r: String)
    ensures
        r@ == failure_text(cmd@, args@.map_values(|a: String| a@), stderr@),
{
    let ghost parts = args@.map_values(|a: String| a@);
    let mut out = owned("`");
    push_str(&mut out, cmd);
    push_str(&mut out, " ");
    let ghost head = out@;
    let mut i: usize = 0;
    while i < args.len()
        invariant
            i <= args.len(),
            parts == args@.map_values(|a: String| a@),
            out@ == head + joined(parts.take(i as int), " "@),
        decreases args.len() - i,
    {
        if i > 0 {
            push_str(&mut out, " ");
        }
        push_str(&mut out, args[i].as_str());
        assert(parts.take(i + 1).drop_last() =~= parts.take(i as int));
        assert(parts.take(i + 1).last() == args@[i as int]@);
        proof {
            if i == 0 {
                assert(parts.take(1) =~= seq![args@[0]@]);
            }
        }
        i = i + 1;
    }
    assert(parts.take(args.len() as int) =~= parts);
    push_str(&mut out, "` failed: ");
    let err = chars_of(stderr);
    let t = trimmed(&err, CharClass::Space);
    let tail = string_of(&t);
    push_str(&mut out, tail.as_str());
    out
}

/// ``source `<name>` not found in graph``.
pub fn missing_source_message(name: &str) -> (r: String)
    ensures
        r@ == "source `"@ + name@ + "` not found in graph"@,
{
    let mut out = owned("source `");
    push_str(&mut out, name);
    push_str(&mut out, "` not found in graph");
    out
}

/// ``"`<name>` did not appear in the graph after startup"``.
pub fn node_timeout_message(name: &str) -> (r: String)
    ensures
        r@ == "`"@ + name@ + "` did not appear in the graph after startup"@,
{
    let mut out = owned("`");
    push_str(&mut out, name);
    push_str(&mut out, "` did not appear in the graph after startup");
    out
}

} // verus!
