//! The daemon's run, from start to teardown, as a state machine. Each step of
//! `pushmute run` that touches the outside world (claiming the control socket,
//! the environment checks, reading and setting the default source, writing the
//! config, spawning the loopback, waiting for its node, the long wait for Quit
//! or Restart) is an [`Action`] the application carries out; its outcome comes
//! back as an [`Event`], and [`Startup::on_event`] decides what happens next.

use vstd::prelude::*;
use crate::config::{Config, ConfigView, PUSHMUTE_NODE_NAME};
use crate::daemon::Lifecycle;
use crate::text::opt_chars;

verus! {

/// Where the run stands.
#[derive(Debug, Clone, Copy, PartialEq, Eq)]
pub enum Phase {
    /// Claiming the control socket (the single-instance guard).
    Claiming,
    /// Running the critical environment checks.
    Checking,
    /// Reading the current default source, to restore it on exit.
    ReadingDefault,
    /// Writing the config with the recorded default source.
    Saving,
    /// Spawning the loopback that creates the virtual source.
    Creating,
    /// Waiting for the virtual source's node to appear.
    Waiting,
    /// Making the virtual source the default source.
    SettingDefault,
    /// Routing: socket served, hotkey armed, waiting for Quit or Restart.
    Running,
    /// Finished, one way or another.
    Stopped,
}

/// The outcome of an action.
pub enum Event {
    /// The control socket was claimed, or another daemon already holds it.
    SocketClaimed { already_running: bool },
    EnvironmentChecked(Result<(), String>),
    /// The `node.name` of the default source, if there is one.
    DefaultSourceRead(Option<String>),
    ConfigSaved(Result<(), String>),
    SourceCreated(Result<(), String>),
    /// The virtual source's node id, or why it never appeared.
    NodeFound(Result<u32, String>),
    /// Setting the default source is best effort: either way routing starts.
    DefaultSourceSet(Result<(), String>),
    /// Ctrl-C, the tray's Quit, or a config change's Restart.
    Stop(Lifecycle),
}

pub enum EventView {
    SocketClaimed(bool),
    EnvironmentChecked(Result<(), Seq<char>>),
    DefaultSourceRead(Option<Seq<char>>),
    ConfigSaved(Result<(), Seq<char>>),
    SourceCreated(Result<(), Seq<char>>),
    NodeFound(Result<u32, Seq<char>>),
    DefaultSourceSet(Result<(), Seq<char>>),
    Stop(Lifecycle),
}

pub open spec fn unit_view(r: Result<(), String>) -> Result<(), Seq<char>> {
    match r {
        Ok(()) => Ok(()),
        Err(m) => Err(m@),
    }
}

impl View for Event {
    type V = EventView;

    open spec fn view(&self) -> EventView {
        match self {
            Event::SocketClaimed { already_running } => EventView::SocketClaimed(*already_running),
            Event::EnvironmentChecked(r) => EventView::EnvironmentChecked(unit_view(*r)),
            Event::DefaultSourceRead(s) => EventView::DefaultSourceRead(opt_chars(*s)),
            Event::ConfigSaved(r) => EventView::ConfigSaved(unit_view(*r)),
            Event::SourceCreated(r) => EventView::SourceCreated(unit_view(*r)),
            Event::NodeFound(r) => EventView::NodeFound(
                match r {
                    Ok(id) => Ok(*id),
                    Err(m) => Err(m@),
                },
            ),
            Event::DefaultSourceSet(r) => EventView::DefaultSourceSet(unit_view(*r)),
            Event::Stop(l) => EventView::Stop(*l),
        }
    }
}

/// What the application is to do next.
pub enum Action {
    ClaimSocket,
    CheckEnvironment,
    ReadDefaultSource,
    /// Write [`Startup::config`] to `config.toml`.
    SaveConfig,
    /// Spawn the loopback fed by [`Startup::physical`].
    CreateSource,
    WaitForNode,
    /// Make the virtual source (`pushmute`) the default source.
    SetDefaultSource,
    /// Start routing on node `node_id`: serve the socket, arm the hotkey when
    /// one is bound, publish the tray, then wait for a stop.
    Launch { node_id: u32, arm_hotkey: bool },
    /// Hand the default source back to `restore` (if one is recorded), tear the
    /// virtual source down, remove the socket, then quit or re-exec.
    Teardown { restore: Option<String>, then: Lifecycle },
    /// Another daemon is running: exit successfully without touching anything.
    AlreadyRunning,
    /// Stop with `message` as the error, killing the loopback first when
    /// `kill_source`.
    Abort { message: String, kill_source: bool },
    /// The event does not belong to this phase; nothing changes.
    Ignore,
}

pub enum ActionView {
    ClaimSocket,
    CheckEnvironment,
    ReadDefaultSource,
    SaveConfig,
    CreateSource,
    WaitForNode,
    SetDefaultSource,
    Launch { node_id: u32, arm_hotkey: bool },
    Teardown { restore: Option<Seq<char>>, then: Lifecycle },
    AlreadyRunning,
    Abort { message: Seq<char>, kill_source: bool },
    Ignore,
}

impl View for Action {
    type V = ActionView;

    open spec fn view(&self) -> ActionView {
        match self {
            Action::ClaimSocket => ActionView::ClaimSocket,
            Action::CheckEnvironment => ActionView::CheckEnvironment,
            Action::ReadDefaultSource => ActionView::ReadDefaultSource,
            Action::SaveConfig => ActionView::SaveConfig,
            Action::CreateSource => ActionView::CreateSource,
            Action::WaitForNode => ActionView::WaitForNode,
            Action::SetDefaultSource => ActionView::SetDefaultSource,
            Action::Launch { node_id, arm_hotkey } => ActionView::Launch {
                node_id: *node_id,
                arm_hotkey: *arm_hotkey,
            },
            Action::Teardown { restore, then } => ActionView::Teardown {
                restore: opt_chars(*restore),
                then: *then,
            },
            Action::AlreadyRunning => ActionView::AlreadyRunning,
            Action::Abort { message, kill_source } => ActionView::Abort {
                message: message@,
                kill_source: *kill_source,
            },
            Action::Ignore => ActionView::Ignore,
        }
    }
}

/// A run of the daemon.
pub struct Startup {
    phase: Phase,
    config: Config,
    physical: String,
    node_id: u32,
}

pub struct StartupView {
    pub phase: Phase,
    pub config: ConfigView,
    pub physical: Seq<char>,
    pub node_id: u32,
}

impl View for Startup {
    type V = StartupView;

    closed spec fn view(&self) -> StartupView {
        StartupView {
            phase: self.phase,
            config: self.config@,
            physical: self.physical@,
            node_id: self.node_id,
        }
    }
}

/// The run's first state and action for `config`: without a physical mic there
/// is nothing to route and the run stops at once.
pub open spec fn begin(config: ConfigView) -> (StartupView, ActionView) {
    match config.physical_mic {
        Some(m) => (
            StartupView { phase: Phase::Claiming, config: config, physical: m, node_id: 0 },
            ActionView::ClaimSocket,
        ),
        None => (
            StartupView { phase: Phase::Stopped, config: config, physical: Seq::empty(), node_id: 0 },
            ActionView::Abort {
                message: "no physical mic set — run `pushmute set-mic <name>` (`pushmute devices` to list)"@,
                kill_source: false,
            },
        ),
    }
}

/// The current default source `current` is recorded for restoration: set-default
/// is on, there is one, and it is not PushMute's own source.
pub open spec fn records(config: ConfigView, current: Option<Seq<char>>) -> bool {
    config.set_default && (current matches Some(c) && c != PUSHMUTE_NODE_NAME@)
}

pub open spec fn moved(s: StartupView, phase: Phase) -> StartupView {
    StartupView { phase: phase, ..s }
}

pub open spec fn launch(s: StartupView, node_id: u32) -> (StartupView, ActionView) {
    (
        StartupView { phase: Phase::Running, node_id: node_id, ..s },
        ActionView::Launch { node_id: node_id, arm_hotkey: s.config.hotkey_keys.len() > 0 },
    )
}

pub open spec fn abort(s: StartupView, message: Seq<char>, kill_source: bool) -> (
    StartupView,
    ActionView,
) {
    (moved(s, Phase::Stopped), ActionView::Abort { message: message, kill_source: kill_source })
}

/// One step of the run: the next state and action after event `e` in state `s`.
pub open spec fn step(s: StartupView, e: EventView) -> (StartupView, ActionView) {
    match (s.phase, e) {
        (Phase::Claiming, EventView::SocketClaimed(already)) => if already {
            (moved(s, Phase::Stopped), ActionView::AlreadyRunning)
        } else {
            (moved(s, Phase::Checking), ActionView::CheckEnvironment)
        },
        (Phase::Checking, EventView::EnvironmentChecked(r)) => match r {
            Err(m) => abort(s, m, false),
            Ok(()) => if s.config.set_default {
                (moved(s, Phase::ReadingDefault), ActionView::ReadDefaultSource)
            } else {
                (moved(s, Phase::Creating), ActionView::CreateSource)
            },
        },
        (Phase::ReadingDefault, EventView::DefaultSourceRead(cur)) => if records(s.config, cur) {
            (
                StartupView {
                    phase: Phase::Saving,
                    config: ConfigView { previous_default: cur, ..s.config },
                    ..s
                },
                ActionView::SaveConfig,
            )
        } else {
            (moved(s, Phase::Creating), ActionView::CreateSource)
        },
        (Phase::Saving, EventView::ConfigSaved(r)) => match r {
            Err(m) => abort(s, m, false),
            Ok(()) => (moved(s, Phase::Creating), ActionView::CreateSource),
        },
        (Phase::Creating, EventView::SourceCreated(r)) => match r {
            Err(m) => abort(s, m, false),
            Ok(()) => (moved(s, Phase::Waiting), ActionView::WaitForNode),
        },
        (Phase::Waiting, EventView::NodeFound(r)) => match r {
            Err(m) => abort(s, m, true),
            Ok(id) => if s.config.set_default {
                (
                    StartupView { phase: Phase::SettingDefault, node_id: id, ..s },
                    ActionView::SetDefaultSource,
                )
            } else {
                launch(s, id)
            },
        },
        (Phase::SettingDefault, EventView::DefaultSourceSet(_)) => launch(s, s.node_id),
        (Phase::Running, EventView::Stop(l)) => (
            moved(s, Phase::Stopped),
            ActionView::Teardown { restore: s.config.previous_default, then: l },
        ),
        _ => (s, ActionView::Ignore),
    }
}

impl Startup {
    /// Begins a run with `config`.
    pub fn new(config: Config) -> (r: (Startup, Action))
        ensures
            (r.0@, r.1@) == begin(config@),
    {
        match config.require_physical() {
            Ok(physical) => (
                Startup { phase: Phase::Claiming, config, physical, node_id: 0 },
                Action::ClaimSocket,
            ),
            Err(e) => {
                let message = e.message();
                (
                    Startup { phase: Phase::Stopped, config, physical: String::new(), node_id: 0 },
                    Action::Abort { message, kill_source: false },
                )
            },
        }
    }

    pub fn phase(&self) -> (r: Phase)
        ensures
            r == self@.phase,
    {
        self.phase
    }

    /// The configuration as the run has it (with any recorded default source).
    pub fn config(&self) -> (r: &Config)
        ensures
            r@ == self@.config,
    {
        &self.config
    }

    /// The physical mic being routed.
    pub fn physical(&self) -> (r: &str)
        ensures
            r@ == self@.physical,
    {
        self.physical.as_str()
    }

    fn move_to(&mut self, phase: Phase)
        ensures
            final(self)@ == moved(old(self)@, phase),
    {
        self.phase = phase;
    }

    fn launch_now(&mut self, node_id: u32) -> (r: Action)
        ensures
            (final(self)@, r@) == launch(old(self)@, node_id),
    {
        self.phase = Phase::Running;
        self.node_id = node_id;
        Action::Launch { node_id, arm_hotkey: self.config.hotkey_keys.len() > 0 }
    }

    fn abort_with(&mut self, message: String, kill_source: bool) -> (r: Action)
        ensures
            (final(self)@, r@) == abort(old(self)@, message@, kill_source),
    {
        self.phase = Phase::Stopped;
        Action::Abort { message, kill_source }
    }

    /// Decides what follows `event`.
    pub fn on_event(&mut self, event: Event) -> (r: Action)
        ensures
            (final(self)@, r@) == step(old(self)@, event@),
    {
        match (self.phase, event) {
            (Phase::Claiming, Event::SocketClaimed { already_running }) => {
                if already_running {
                    self.move_to(Phase::Stopped);
                    Action::AlreadyRunning
                } else {
                    self.move_to(Phase::Checking);
                    Action::CheckEnvironment
                }
            },
            (Phase::Checking, Event::EnvironmentChecked(r)) => match r {
                Err(m) => self.abort_with(m, false),
                Ok(()) => {
                    if self.config.set_default {
                        self.move_to(Phase::ReadingDefault);
                        Action::ReadDefaultSource
                    } else {
                        self.move_to(Phase::Creating);
                        Action::CreateSource
                    }
                },
            },
            (Phase::ReadingDefault, Event::DefaultSourceRead(cur)) => {
                if self.config.record_previous_default(cur) {
                    self.move_to(Phase::Saving);
                    Action::SaveConfig
                } else {
                    self.move_to(Phase::Creating);
                    Action::CreateSource
                }
            },
            (Phase::Saving, Event::ConfigSaved(r)) => match r {
                Err(m) => self.abort_with(m, false),
                Ok(()) => {
                    self.move_to(Phase::Creating);
                    Action::CreateSource
                },
            },
            (Phase::Creating, Event::SourceCreated(r)) => match r {
                Err(m) => self.abort_with(m, false),
                Ok(()) => {
                    self.move_to(Phase::Waiting);
                    Action::WaitForNode
                },
            },
            (Phase::Waiting, Event::NodeFound(r)) => match r {
                Err(m) => self.abort_with(m, true),
                Ok(id) => {
                    if self.config.set_default {
                        self.phase = Phase::SettingDefault;
                        self.node_id = id;
                        Action::SetDefaultSource
                    } else {
                        self.launch_now(id)
                    }
                },
            },
            (Phase::SettingDefault, Event::DefaultSourceSet(_)) => {
                let id = self.node_id;
                self.launch_now(id)
            },
            (Phase::Running, Event::Stop(l)) => {
                self.move_to(Phase::Stopped);
                Action::Teardown { restore: self.config.previous_default.clone(), then: l }
            },
            _ => Action::Ignore,
        }
    }
}

/// A second daemon finds the socket taken and stops without touching the graph.
pub proof fn law_single_instance(s: StartupView)
    requires
        s.phase == Phase::Claiming,
    ensures
        step(s, EventView::SocketClaimed(true)) == (moved(s, Phase::Stopped), ActionView::AlreadyRunning),
{
}

/// The default source is only ever set with set-default on, and only once the
/// virtual source's node exists.
pub proof fn law_default_set_only_when_asked(s: StartupView, e: EventView)
    ensures
        step(s, e).1 == ActionView::SetDefaultSource ==> s.config.set_default && s.phase
            == Phase::Waiting && e matches EventView::NodeFound(Ok(_)),
{
}

/// What is recorded for restoration is never PushMute's own source.
pub proof fn law_never_records_own_source(s: StartupView, e: EventView)
    requires
        s.config.previous_default != Some(PUSHMUTE_NODE_NAME@),
    ensures
        step(s, e).0.config.previous_default != Some(PUSHMUTE_NODE_NAME@),
{
}

/// Teardown hands the default source back to exactly what was recorded, and
/// then quits or restarts as asked.
pub proof fn law_teardown_restores_recorded_default(s: StartupView, l: Lifecycle)
    requires
        s.phase == Phase::Running,
    ensures
        step(s, EventView::Stop(l)).1 == (ActionView::Teardown {
            restore: s.config.previous_default,
            then: l,
        }),
{
}

/// When the node never appears, the loopback already spawned is killed.
pub proof fn law_missing_node_kills_source(s: StartupView, m: Seq<char>)
    requires
        s.phase == Phase::Waiting,
    ensures
        step(s, EventView::NodeFound(Err(m))).1 == (ActionView::Abort { message: m, kill_source: true }),
{
}

/// Setting the default source is best effort: whether `wpctl set-default`
/// succeeded or failed, routing starts on the node found, with the hotkey armed
/// exactly when one is bound.
pub proof fn law_routing_starts_after_setting_default(s: StartupView, r: Result<(), Seq<char>>)
    requires
        s.phase == Phase::SettingDefault,
    ensures
        step(s, EventView::DefaultSourceSet(r)).0.phase == Phase::Running,
        step(s, EventView::DefaultSourceSet(r)).0.node_id == s.node_id,
        step(s, EventView::DefaultSourceSet(r)).0.config == s.config,
        step(s, EventView::DefaultSourceSet(r)).1 == (ActionView::Launch {
            node_id: s.node_id,
            arm_hotkey: s.config.hotkey_keys.len() > 0,
        }),
{
}

/// Once stopped, the run stays stopped.
pub proof fn law_stopped_is_final(s: StartupView, e: EventView)
    requires
        s.phase == Phase::Stopped,
    ensures
        step(s, e) == (s, ActionView::Ignore),
{
}

} // verus!
