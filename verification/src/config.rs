//! Persistent configuration: what it holds, where it lives, and the edits that
//! the CLI and the tray make to it. Reading and writing `config.toml` is the
//! application's; this module decides the values.

use vstd::prelude::*;
use crate::text::{join_path, opt_chars, owned, path_join, same_text};

verus! {

/// The PipeWire `node.name` of PushMute's own virtual source. Fixed so it is stable
/// across runs and easy to exclude when listing physical mics.
pub const PUSHMUTE_NODE_NAME: &'static str = "pushmute";

/// The human-readable description of the virtual source.
pub const PUSHMUTE_DESCRIPTION: &'static str = "PushMute";

/// The persisted settings.
#[derive(Debug, Clone)]
pub struct Config {
    /// `node.name` of the physical capture device to route from.
    pub physical_mic: Option<String>,
    /// evdev keycodes that must *all* be held for the hotkey (a chord). A
    /// single entry is a plain single-key bind.
    pub hotkey_keys: Vec<u16>,
    /// Optional specific `/dev/input/eventN` to listen on. `None` = all keyboards.
    pub hotkey_device: Option<String>,
    /// Whether to set `pushmute` as the default source on startup.
    pub set_default: bool,
    /// The default source recorded before PushMute changed it, for restoration.
    pub previous_default: Option<String>,
}

/// The settings as mathematical values.
pub struct ConfigView {
    pub physical_mic: Option<Seq<char>>,
    pub hotkey_keys: Seq<u16>,
    pub hotkey_device: Option<Seq<char>>,
    pub set_default: bool,
    pub previous_default: Option<Seq<char>>,
}

impl View for Config {
    type V = ConfigView;

    open spec fn view(&self) -> ConfigView {
        ConfigView {
            physical_mic: opt_chars(self.physical_mic),
            hotkey_keys: self.hotkey_keys@,
            hotkey_device: opt_chars(self.hotkey_device),
            set_default: self.set_default,
            previous_default: opt_chars(self.previous_default),
        }
    }
}

/// The value a missing `set_default` takes when the file is read.
pub fn default_true() -> (r: bool)
    ensures
        r,
{
    true
}

impl Default for Config {
    /// No mic, no hotkey, all keyboards, set-default on, nothing recorded.
    fn default() -> (r: Self)
        ensures
            r@.physical_mic is None,
            r@.hotkey_keys.len() == 0,
            r@.hotkey_device is None,
            r@.set_default,
            r@.previous_default is None,
    {
        Config {
            physical_mic: None,
            hotkey_keys: Vec::new(),
            hotkey_device: None,
            set_default: default_true(),
            previous_default: None,
        }
    }
}

/// The configuration directory: `$XDG_CONFIG_HOME/pushmute` when that is set and
/// nonempty, else `$HOME/.config/pushmute` (with `.` for an unset `HOME`).
pub open spec fn config_dir(xdg_config_home: Option<Seq<char>>, home: Option<Seq<char>>) -> Seq<
    char,
> {
    match xdg_config_home {
        Some(x) if x.len() > 0 => path_join(x, "pushmute"@),
        _ => {
            let h = match home {
                Some(h) => h,
                None => "."@,
            };
            path_join(path_join(h, ".config"@), "pushmute"@)
        },
    }
}

pub open spec fn opt_str_chars(o: Option<&str>) -> Option<Seq<char>> {
    match o {
        Some(s) => Some(s@),
        None => None,
    }
}

/// Why a configuration cannot be used as it stands.
#[derive(Debug, Clone, Copy, PartialEq, Eq)]
pub enum ConfigError {
    /// No physical mic has been chosen yet.
    NoPhysicalMic,
}

impl ConfigError {
    pub fn message(&self) -> (r: String)
        ensures
            r@ == "no physical mic set — run `pushmute set-mic <name>` (`pushmute devices` to list)"@,
    {
        match self {
            ConfigError::NoPhysicalMic => owned(
                "no physical mic set — run `pushmute set-mic <name>` (`pushmute devices` to list)",
            ),
        }
    }
}

impl Config {
    /// The configuration directory, given the values of `XDG_CONFIG_HOME` and
    /// `HOME` (each `None` when unset or not Unicode).
    pub fn dir(xdg_config_home: Option<&str>, home: Option<&str>) -> (r: String)
        ensures
            r@ == config_dir(opt_str_chars(xdg_config_home), opt_str_chars(home)),
    {
        match xdg_config_home {
            Some(x) if !x.is_empty() => {
                return join_path(x, "pushmute");
            },
            _ => {},
        }
        let base = match home {
            Some(h) => join_path(h, ".config"),
            None => join_path(".", ".config"),
        };
        join_path(base.as_str(), "pushmute")
    }

    /// The configuration file inside the configuration directory `dir`.
    pub fn path(dir: &str) -> (r: String)
        ensures
            r@ == path_join(dir@, "config.toml"@),
    {
        join_path(dir, "config.toml")
    }

    /// The physical mic to route from; an error where none is chosen.
    pub fn require_physical(&self) -> (r: Result<String, ConfigError>)
        ensures
            match self@.physical_mic {
                Some(m) => r matches Ok(s) && s@ == m,
                None => r == Err::<String, ConfigError>(ConfigError::NoPhysicalMic),
            },
    {
        match &self.physical_mic {
            Some(m) => Ok(m.clone()),
            None => Err(ConfigError::NoPhysicalMic),
        }
    }

    /// Records `current`, the default source found at startup, as the one to
    /// restore, unless set-default is off, there is none, or it is PushMute's own
    /// source. Returns whether the configuration changed (and so must be saved).
    pub fn record_previous_default(&mut self, current: Option<String>) -> (changed: bool)
        ensures
            changed == (old(self)@.set_default && (current matches Some(c) && c@
                != PUSHMUTE_NODE_NAME@)),
            changed ==> final(self)@ == (ConfigView {
                previous_default: opt_chars(current),
                ..old(self)@
            }),
            !changed ==> final(self)@ == old(self)@,
    {
        if !self.set_default {
            return false;
        }
        match current {
            Some(c) => {
                if same_text(c.as_str(), PUSHMUTE_NODE_NAME) {
                    false
                } else {
                    self.previous_default = Some(c);
                    true
                }
            },
            None => false,
        }
    }

    /// Chooses `name` as the physical mic.
    pub fn set_physical_mic(&mut self, name: &str)
        ensures
            final(self)@ == (ConfigView { physical_mic: Some(name@), ..old(self)@ }),
    {
        self.physical_mic = Some(owned(name));
    }

    /// Turns set-default on or off.
    pub fn set_default_flag(&mut self, value: bool)
        ensures
            final(self)@ == (ConfigView { set_default: value, ..old(self)@ }),
    {
        self.set_default = value;
    }

    /// Binds the hotkey chord `keys`, listened for on `device` (all keyboards for `None`).
    pub fn rebind(&mut self, keys: Vec<u16>, device: Option<String>)
        ensures
            final(self)@ == (ConfigView {
                hotkey_keys: keys@,
                hotkey_device: opt_chars(device),
                ..old(self)@
            }),
    {
        self.hotkey_keys = keys;
        self.hotkey_device = device;
    }
}

} // verus!
