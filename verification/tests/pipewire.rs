use pushmute::config::PUSHMUTE_NODE_NAME;
use pushmute::pipewire::{
    failure_message, loopback_args, missing_source_message, mute_args, node_timeout_message,
    parse_capture_devices, parse_default_source, parse_node_id_by_name, set_default_args,
};

/// `pw-dump` as older PipeWire prints it: two physical sources (a built-in and a
/// USB mic), a sink, a non-node Device, and PushMute's own source.
const PW_DUMP_OLD: &str = r#"[
  {
    "id": 0,
    "type": "PipeWire:Interface:Core",
    "version": 3,
    "permissions": [ "r", "w", "x", "m" ],
    "info": { "cookie": 1234, "user-name": "user", "props": { "core.name": "pipewire-0" } }
  },
  {
    "id": 44,
    "type": "PipeWire:Interface:Device",
    "version": 3,
    "permissions": [ "r", "w", "x", "m" ],
    "info": {
      "props": {
        "device.name": "alsa_card.pci-0000_00_1f.3",
        "media.class": "Audio/Device"
      }
    }
  },
  {
    "id": 52,
    "type": "PipeWire:Interface:Node",
    "version": 3,
    "permissions": [ "r", "w", "x", "m" ],
    "info": {
      "max-input-ports": 0,
      "max-output-ports": 2,
      "state": "suspended",
      "props": {
        "media.class": "Audio/Source",
        "node.name": "alsa_input.pci-0000_00_1f.3.analog-stereo",
        "node.description": "Built-in Audio Analog Stereo",
        "object.id": 52
      }
    }
  },
  {
    "id": 53,
    "type": "PipeWire:Interface:Node",
    "version": 3,
    "permissions": [ "r", "w", "x", "m" ],
    "info": {
      "state": "suspended",
      "props": {
        "media.class": "Audio/Sink",
        "node.name": "alsa_output.pci-0000_00_1f.3.analog-stereo",
        "node.description": "Built-in Audio Analog Stereo"
      }
    }
  },
  {
    "id": 57,
    "type": "PipeWire:Interface:Node",
    "version": 3,
    "permissions": [ "r", "w", "x", "m" ],
    "info": {
      "state": "idle",
      "props": {
        "media.class": "Audio/Source",
        "node.name": "alsa_input.usb-Generic_USB_Mic-00.mono-fallback",
        "node.description": "Generic USB Mic"
      }
    }
  },
  {
    "id": 60,
    "type": "PipeWire:Interface:Node",
    "version": 3,
    "permissions": [ "r", "w", "x", "m" ],
    "info": {
      "state": "running",
      "props": {
        "media.class": "Audio/Source",
        "node.name": "pushmute",
        "node.description": "PushMute"
      }
    }
  }
]
"#;

/// The same graph as newer PipeWire prints it: other ids, more fields, and
/// objects that carry no `info` at all.
const PW_DUMP_NEW: &str = r#"[
  {
    "id": 0,
    "type": "PipeWire:Interface:Core",
    "version": 4,
    "permissions": [ "r", "w", "x", "m" ],
    "info": { "cookie": 99, "props": { "core.name": "pipewire-0", "cpu.max-align": 32 } }
  },
  {
    "id": 31,
    "type": "PipeWire:Interface:Metadata",
    "version": 3,
    "permissions": [ "r", "w", "x", "m" ],
    "props": { "metadata.name": "default" },
    "metadata": [ { "subject": 0, "key": "default.audio.source", "type": "Spa:String:JSON", "value": { "name": "pushmute" } } ]
  },
  {
    "id": 62,
    "type": "PipeWire:Interface:Device",
    "version": 3,
    "permissions": [ "r", "w", "x", "m" ],
    "info": {
      "change-mask": [ "props", "params" ],
      "props": {
        "device.name": "alsa_card.usb-Generic_USB_Mic-00",
        "media.class": "Audio/Device"
      },
      "params": { "EnumProfile": [ ] }
    }
  },
  {
    "id": 70,
    "type": "PipeWire:Interface:Node",
    "version": 3,
    "permissions": [ "r", "w", "x", "m" ],
    "info": {
      "max-input-ports": 0,
      "max-output-ports": 2,
      "change-mask": [ "input-ports", "output-ports", "state", "props", "params" ],
      "n-input-ports": 0,
      "n-output-ports": 2,
      "state": "suspended",
      "error": null,
      "props": {
        "api.alsa.path": "front:0",
        "media.class": "Audio/Source",
        "node.name": "alsa_input.pci-0000_00_1f.3.analog-stereo",
        "node.description": "Built-in Audio Analog Stereo",
        "node.nick": "ALC295 Analog",
        "object.serial": 1070,
        "priority.session": 2009
      },
      "params": { "Props": [ { "volume": 1.0, "mute": false } ] }
    }
  },
  {
    "id": 71,
    "type": "PipeWire:Interface:Node",
    "version": 3,
    "permissions": [ "r", "w", "x", "m" ],
    "info": {
      "state": "suspended",
      "error": null,
      "props": {
        "media.class": "Audio/Sink",
        "node.name": "alsa_output.pci-0000_00_1f.3.analog-stereo",
        "node.description": "Built-in Audio Analog Stereo",
        "object.serial": 1071
      }
    }
  },
  {
    "id": 88,
    "type": "PipeWire:Interface:Node",
    "version": 3,
    "permissions": [ "r", "w", "x", "m" ],
    "info": {
      "state": "idle",
      "error": null,
      "props": {
        "media.class": "Audio/Source",
        "node.name": "alsa_input.usb-Generic_USB_Mic-00.mono-fallback",
        "node.description": "Generic USB Mic",
        "object.serial": 1088
      }
    }
  },
  {
    "id": 102,
    "type": "PipeWire:Interface:Node",
    "version": 3,
    "permissions": [ "r", "w", "x", "m" ],
    "info": {
      "state": "running",
      "error": null,
      "props": {
        "media.class": "Audio/Source",
        "node.name": "pushmute",
        "node.description": "PushMute",
        "object.serial": 1102
      }
    }
  }
]
"#;

/// `wpctl inspect @DEFAULT_SOURCE@` for the built-in source.
const WPCTL_DEFAULT: &str = "id 70, type PipeWire:Interface:Node\n    alsa.card = \"0\"\n    api.alsa.path = \"front:0\"\n  * client.id = \"35\"\n  * media.class = \"Audio/Source\"\n  * node.description = \"Built-in Audio Analog Stereo\"\n  * node.name = \"alsa_input.pci-0000_00_1f.3.analog-stereo\"\n    node.nick = \"ALC295 Analog\"\n  * object.serial = \"1070\"\n";

/// Both fixtures describe the same two physical sources, so the expected
/// output is identical across the old and new PipeWire shapes.
fn assert_two_sources(dump: &str) {
    let devices = parse_capture_devices(dump).expect("parse capture devices");
    let names: Vec<&str> = devices.iter().map(|d| d.name.as_str()).collect();
    assert_eq!(
        names,
        vec![
            "alsa_input.pci-0000_00_1f.3.analog-stereo",
            "alsa_input.usb-Generic_USB_Mic-00.mono-fallback",
        ],
        "should list both physical sources, excluding the sink and pushmute",
    );
    // Descriptions fall through to node.description.
    assert_eq!(devices[1].description, "Generic USB Mic");
}

#[test]
fn capture_devices_stable_across_pipewire_versions() {
    assert_two_sources(PW_DUMP_OLD);
    assert_two_sources(PW_DUMP_NEW);
}

#[test]
fn capture_devices_excludes_pushmute_and_sinks() {
    for dump in [PW_DUMP_OLD, PW_DUMP_NEW] {
        let names: Vec<String> = parse_capture_devices(dump)
            .unwrap()
            .into_iter()
            .map(|d| d.name)
            .collect();
        assert!(!names.iter().any(|n| n == PUSHMUTE_NODE_NAME));
        assert!(!names.iter().any(|n| n.contains("alsa_output")));
    }
}

#[test]
fn node_id_resolves_by_name() {
    // Ids differ between the fixtures; the lookup is by name, not position.
    assert_eq!(
        parse_node_id_by_name(PW_DUMP_OLD, "pushmute").unwrap(),
        Some(60)
    );
    assert_eq!(
        parse_node_id_by_name(PW_DUMP_NEW, "pushmute").unwrap(),
        Some(102)
    );
    assert_eq!(
        parse_node_id_by_name(PW_DUMP_NEW, "alsa_input.pci-0000_00_1f.3.analog-stereo")
            .unwrap(),
        Some(70)
    );
}

#[test]
fn node_id_missing_is_none() {
    assert_eq!(
        parse_node_id_by_name(PW_DUMP_NEW, "does-not-exist").unwrap(),
        None
    );
}

#[test]
fn default_source_parses_starred_node_name() {
    assert_eq!(
        parse_default_source(WPCTL_DEFAULT).as_deref(),
        Some("alsa_input.pci-0000_00_1f.3.analog-stereo")
    );
}

#[test]
fn default_source_none_when_absent() {
    assert_eq!(
        parse_default_source("id 0, type Node\n    foo = \"bar\"\n"),
        None
    );
}

#[test]
fn unparseable_dump_is_an_error() {
    assert!(parse_capture_devices("not json at all").is_err());
    assert!(parse_node_id_by_name("{ broken", "x").is_err());
}

#[test]
fn capture_device_ids_and_descriptions_come_from_the_dump() {
    let devices = parse_capture_devices(PW_DUMP_NEW).unwrap();
    assert_eq!(devices.len(), 2);
    assert_eq!(devices[0].id, 70);
    assert_eq!(devices[0].description, "Built-in Audio Analog Stereo");
    assert_eq!(devices[1].id, 88);
}

#[test]
fn capture_device_description_falls_back_to_name_and_id_to_zero() {
    let dump = r#"[{"type":"PipeWire:Interface:Node","info":{"props":{"media.class":"Audio/Source","node.name":"mic-a"}}},
                   {"id":-4,"type":"PipeWire:Interface:Node","info":{"props":{"media.class":"Audio/Source","node.name":"mic-b","node.description":7}}},
                   {"id":4294967301,"type":"PipeWire:Interface:Node","info":{"props":{"media.class":"Audio/Source","node.name":"mic-c"}}}]"#;
    let devices = parse_capture_devices(dump).unwrap();
    assert_eq!(devices.len(), 3);
    assert_eq!(devices[0].id, 0);
    assert_eq!(devices[0].description, "mic-a");
    assert_eq!(devices[1].id, 0);
    assert_eq!(devices[1].description, "mic-b");
    // Ids wider than 32 bits are truncated, as `as u32` does.
    assert_eq!(devices[2].id, 5);
}

#[test]
fn capture_devices_skip_nameless_unclassed_and_non_node_objects() {
    let dump = r#"[{"id":1,"type":"PipeWire:Interface:Node","info":{"props":{"media.class":"Audio/Source","node.name":""}}},
                   {"id":2,"type":"PipeWire:Interface:Node","info":{"props":{"node.name":"x"}}},
                   {"id":3,"type":"PipeWire:Interface:Port","info":{"props":{"media.class":"Audio/Source","node.name":"y"}}},
                   {"id":4,"type":"PipeWire:Interface:Node"},
                   {"id":5,"type":"PipeWire:Interface:Node","info":{"props":{"media.class":"Audio/Source","node.name":"z"}}}]"#;
    let devices = parse_capture_devices(dump).unwrap();
    assert_eq!(devices.len(), 1);
    assert_eq!(devices[0].name, "z");
    assert_eq!(devices[0].id, 5);
}

#[test]
fn capture_devices_of_a_non_array_document_are_none() {
    assert_eq!(parse_capture_devices("{\"id\": 3}").unwrap().len(), 0);
    assert_eq!(parse_node_id_by_name("42", "x").unwrap(), None);
}

#[test]
fn node_id_skips_matches_without_an_id() {
    let dump = r#"[{"type":"PipeWire:Interface:Node","info":{"props":{"node.name":"n"}}},
                   {"id":"9","type":"PipeWire:Interface:Node","info":{"props":{"node.name":"n"}}},
                   {"id":12,"type":"PipeWire:Interface:Device","info":{"props":{"node.name":"n"}}},
                   {"id":13,"type":"PipeWire:Interface:Node","info":{"props":{"node.name":"n"}}},
                   {"id":14,"type":"PipeWire:Interface:Node","info":{"props":{"node.name":"n"}}}]"#;
    assert_eq!(parse_node_id_by_name(dump, "n").unwrap(), Some(13));
}

#[test]
fn default_source_takes_the_first_starred_line_and_strips_quotes() {
    let text = "  node.name = \"not-starred\"\r\n\t* node.name = \"\"quoted\"\"  \r\n* node.name = second\n";
    assert_eq!(parse_default_source(text).as_deref(), Some("quoted"));
    assert_eq!(parse_default_source("* node.name = bare").as_deref(), Some("bare"));
    assert_eq!(parse_default_source(""), None);
}

#[test]
fn wpctl_and_loopback_arguments() {
    assert_eq!(mute_args(60, true), vec!["set-mute", "60", "1"]);
    assert_eq!(mute_args(102, false), vec!["set-mute", "102", "0"]);
    assert_eq!(set_default_args(0), vec!["set-default", "0"]);
    assert_eq!(
        loopback_args("alsa_input.usb-mic"),
        vec![
            "-m",
            "[ FL FR ]",
            "--capture-props",
            "node.target=alsa_input.usb-mic node.passive=true",
            "--playback-props",
            "media.class=Audio/Source node.name=pushmute node.description=\"PushMute\"",
        ]
    );
}

#[test]
fn tool_failure_messages() {
    let args = vec!["set-mute".to_string(), "60".to_string(), "1".to_string()];
    assert_eq!(
        failure_message("wpctl", &args, "  no such node\n"),
        "`wpctl set-mute 60 1` failed: no such node"
    );
    assert_eq!(failure_message("pw-dump", &Vec::new(), ""), "`pw-dump ` failed: ");
    assert_eq!(missing_source_message("x"), "source `x` not found in graph");
    assert_eq!(
        node_timeout_message("pushmute"),
        "`pushmute` did not appear in the graph after startup"
    );
}
