//! The decisions of the bridge loop.
//!
//! Each tick (every 100 ms) the loop either waits (firmware flash in
//! progress), puts the device into its bootloader, shuts down, or runs the
//! regular work: on the slow tick it reconnects, sets brightness and
//! crossfade on a fresh connection, asks for the firmware version, polls the
//! Teams presence and sends the matching color when it changed; on every
//! tick it pushes changed brightness and crossfade settings, pings when the
//! heartbeat is due, and publishes the connection status.
//!
//! The loop itself performs I/O; here it is a state machine. The caller
//! hands in an event (a tick, or the result of the last action) and gets
//! the next action to perform.

use vstd::prelude::*;
use crate::config::{command_for_spec, hid_params_of, Config, ConfigSpec};
use crate::protocol::{
    brightness_report, color_report, encode_report, report_bytes, transition_report, CMD_BRIGHTNESS,
    CMD_OFF, CMD_TRANSITION,
};
use crate::text::{clone_opt, opt_chars, same_opt_text};

verus! {

/// What the user interface shows of the bridge.
#[derive(Clone, Copy, Debug, PartialEq, Eq)]
pub struct AppStatus {
    /// Whether the indicator is connected.
    pub esp_connected: bool,
    /// Whether a Teams log is being followed.
    pub teams_parsing: bool,
    /// The firmware version that the indicator reported, if connected.
    pub firmware_version: Option<(u8, u8, u8)>,
    /// Whether a newer bridge or firmware release exists.
    pub update_available: bool,
}

impl Default for AppStatus {
    fn default() -> (s: Self)
        ensures
            !s.esp_connected,
            !s.teams_parsing,
            s.firmware_version is None,
            !s.update_available,
    {
        AppStatus {
            esp_connected: false,
            teams_parsing: false,
            firmware_version: None,
            update_available: false,
        }
    }
}

impl AppStatus {
    /// Takes over what the bridge loop published, keeping `update_available`.
    pub fn apply(&mut self, published: &BridgeStatus)
        ensures
            final(self).esp_connected == published.esp_connected,
            final(self).teams_parsing == published.teams_parsing,
            final(self).firmware_version == published.firmware_version,
            final(self).update_available == old(self).update_available,
    {
        self.esp_connected = published.esp_connected;
        self.teams_parsing = published.teams_parsing;
        self.firmware_version = published.firmware_version;
    }
}

/// The part of the status that the bridge loop maintains.
#[derive(Clone, Copy, Debug, PartialEq, Eq)]
pub struct BridgeStatus {
    pub esp_connected: bool,
    pub teams_parsing: bool,
    pub firmware_version: Option<(u8, u8, u8)>,
}

/// Where the machine stands within a tick.
#[derive(Clone, Copy, Debug, PartialEq, Eq, Structural)]
pub enum Phase {
    /// Between ticks.
    Idle,
    /// A reconnection attempt is under way.
    AwaitConnect,
    /// The brightness of a fresh connection is being sent.
    AwaitConnectBrightness,
    /// The crossfade duration of a fresh connection is being sent.
    AwaitConnectTransition,
    /// The firmware version is being asked for.
    AwaitVersion,
    /// The Teams presence is being polled.
    AwaitPresence,
    /// The color of a new presence is being sent.
    AwaitPresenceSend,
    /// A changed brightness is being sent.
    AwaitLiveBrightness,
    /// A changed crossfade duration is being sent.
    AwaitLiveTransition,
    /// A heartbeat is under way.
    AwaitPing,
    /// The loop has shut down.
    Stopped,
}

/// What the caller observed at the start of a tick.
pub struct TickInput {
    /// A firmware flash is in progress: the loop pauses.
    pub flash_pause: bool,
    /// The user asked to put the device into its bootloader.
    pub bootloader_trigger: bool,
    /// The application is quitting.
    pub shutdown: bool,
    /// Whether a device is open.
    pub connected: bool,
    /// Whether the Teams log follower has a log file.
    pub log_valid: bool,
    /// The time, in milliseconds of a monotonic clock.
    pub now_ms: u64,
    /// The current settings.
    pub config: Config,
}

/// An input of the machine: a tick, or the result of the last action.
pub enum BridgeEvent {
    Tick(TickInput),
    /// Result of `Connect`: whether a device is open now.
    Connected(bool),
    /// Result of `Send`: whether the device is still open, and the time
    /// after the write.
    Sent { connected: bool, now_ms: u64 },
    /// Result of `QueryVersion`: the version read, if any, and whether the
    /// device is still open.
    Version { version: Option<(u8, u8, u8)>, connected: bool },
    /// Result of `PollPresence`: the presence, and whether the follower has
    /// a log file.
    Presence { presence: Option<String>, log_valid: bool },
    /// Result of `Ping`: whether the device is still open, and the time
    /// after the heartbeat.
    Pinged { connected: bool, now_ms: u64 },
}

/// What the caller does next.
pub enum BridgeAction {
    /// Sleep until the next tick.
    Sleep,
    /// If `send`, put the device into its bootloader (which drops it); then
    /// clear the bootloader request, pause the loop and sleep.
    EnterBootloader { send: bool },
    /// Write this report if a device is open, and end the loop.
    Shutdown([u8; 6]),
    /// Try to open the device.
    Connect,
    /// Write this report if a device is open.
    Send([u8; 6]),
    /// Ask the device for its firmware version.
    QueryVersion,
    /// Poll the Teams presence.
    PollPresence,
    /// Send a heartbeat.
    Ping,
    /// The tick is over: publish the status, repaint if it `changed`, sleep.
    Publish { status: BridgeStatus, changed: bool },
    /// The event did not fit the machine's state and was ignored.
    Ignored,
}

/// Mathematical value of a tick's input.
pub struct TickSpec {
    pub flash_pause: bool,
    pub bootloader_trigger: bool,
    pub shutdown: bool,
    pub connected: bool,
    pub log_valid: bool,
    pub now_ms: u64,
    pub config: ConfigSpec,
}

/// Mathematical value of an event.
pub enum EventSpec {
    Tick(TickSpec),
    Connected(bool),
    Sent { connected: bool, now_ms: u64 },
    Version { version: Option<(u8, u8, u8)>, connected: bool },
    Presence { presence: Option<Seq<char>>, log_valid: bool },
    Pinged { connected: bool, now_ms: u64 },
}

/// Mathematical value of an action.
pub enum ActionSpec {
    Sleep,
    EnterBootloader { send: bool },
    Shutdown(Seq<u8>),
    Connect,
    Send(Seq<u8>),
    QueryVersion,
    PollPresence,
    Ping,
    Publish { status: BridgeStatus, changed: bool },
    Ignored,
}

impl View for TickInput {
    type V = TickSpec;

    open spec fn view(&self) -> TickSpec {
        TickSpec {
            flash_pause: self.flash_pause,
            bootloader_trigger: self.bootloader_trigger,
            shutdown: self.shutdown,
            connected: self.connected,
            log_valid: self.log_valid,
            now_ms: self.now_ms,
            config: self.config@,
        }
    }
}

impl View for BridgeEvent {
    type V = EventSpec;

    open spec fn view(&self) -> EventSpec {
        match self {
            BridgeEvent::Tick(t) => EventSpec::Tick(t@),
            BridgeEvent::Connected(c) => EventSpec::Connected(*c),
            BridgeEvent::Sent { connected, now_ms } => EventSpec::Sent {
                connected: *connected,
                now_ms: *now_ms,
            },
            BridgeEvent::Version { version, connected } => EventSpec::Version {
                version: *version,
                connected: *connected,
            },
            BridgeEvent::Presence { presence, log_valid } => EventSpec::Presence {
                presence: opt_chars(*presence),
                log_valid: *log_valid,
            },
            BridgeEvent::Pinged { connected, now_ms } => EventSpec::Pinged {
                connected: *connected,
                now_ms: *now_ms,
            },
        }
    }
}

impl View for BridgeAction {
    type V = ActionSpec;

    open spec fn view(&self) -> ActionSpec {
        match self {
            BridgeAction::Sleep => ActionSpec::Sleep,
            BridgeAction::EnterBootloader { send } => ActionSpec::EnterBootloader { send: *send },
            BridgeAction::Shutdown(r) => ActionSpec::Shutdown(r@),
            BridgeAction::Connect => ActionSpec::Connect,
            BridgeAction::Send(r) => ActionSpec::Send(r@),
            BridgeAction::QueryVersion => ActionSpec::QueryVersion,
            BridgeAction::PollPresence => ActionSpec::PollPresence,
            BridgeAction::Ping => ActionSpec::Ping,
            BridgeAction::Publish { status, changed } => ActionSpec::Publish {
                status: *status,
                changed: *changed,
            },
            BridgeAction::Ignored => ActionSpec::Ignored,
        }
    }
}

/// The state of the bridge loop, as mathematical values.
pub struct BridgeState {
    pub phase: Phase,
    /// The presence whose color was last sent (cleared to force a resend).
    pub previous_presence: Option<Seq<char>>,
    pub last_ping_ms: u64,
    pub last_poll_ms: u64,
    pub last_sent_brightness: Option<u8>,
    pub last_sent_transition: Option<u16>,
    /// Whether a device is open, as last observed.
    pub connected: bool,
    /// Whether the Teams log follower has a log file, as last observed.
    pub log_valid: bool,
    /// The time at the start of the current tick.
    pub now_ms: u64,
    /// The settings of the current tick.
    pub config: ConfigSpec,
    /// The published status.
    pub esp_connected: bool,
    pub teams_parsing: bool,
    pub firmware_version: Option<(u8, u8, u8)>,
}

/// Milliseconds from `then` to `now` (zero if `now` is earlier).
pub open spec fn elapsed(now: u64, then: u64) -> int {
    if now >= then {
        now - then
    } else {
        0
    }
}

/// The report that sets the brightness to `b`.
pub open spec fn brightness_bytes(b: u8) -> Seq<u8> {
    report_bytes(CMD_BRIGHTNESS, b, 0, 0, 0)
}

/// The report that sets the crossfade duration to `t`.
pub open spec fn transition_bytes(t: u16) -> Seq<u8> {
    report_bytes(CMD_TRANSITION, (t / 256) as u8, (t % 256) as u8, 0, 0)
}

/// The report that shows a presence under the settings `c`.
pub open spec fn presence_bytes(c: ConfigSpec, presence: Seq<char>) -> Seq<u8> {
    let p = hid_params_of(command_for_spec(c, presence));
    report_bytes(p.0, p.1, p.2, p.3, 0)
}

/// End of a tick: the status follows the connection and the log; a lost
/// connection forgets the firmware version.
pub open spec fn finish(s: BridgeState) -> (BridgeState, ActionSpec) {
    let changed = s.esp_connected != s.connected || s.teams_parsing != s.log_valid;
    let s2 = if changed {
        BridgeState {
            esp_connected: s.connected,
            teams_parsing: s.log_valid,
            firmware_version: if s.connected { s.firmware_version } else { None },
            ..s
        }
    } else {
        s
    };
    (
        BridgeState { phase: Phase::Idle, ..s2 },
        ActionSpec::Publish {
            status: BridgeStatus {
                esp_connected: s2.esp_connected,
                teams_parsing: s2.teams_parsing,
                firmware_version: s2.firmware_version,
            },
            changed,
        },
    )
}

/// A heartbeat when connected and one is due; otherwise the end of the tick.
pub open spec fn ping_check(s: BridgeState) -> (BridgeState, ActionSpec) {
    if s.connected && elapsed(s.now_ms, s.last_ping_ms) >= s.config.ping_interval_ms {
        (BridgeState { phase: Phase::AwaitPing, ..s }, ActionSpec::Ping)
    } else {
        finish(s)
    }
}

/// Sends a crossfade duration that differs from the last one sent.
pub open spec fn live_transition(s: BridgeState) -> (BridgeState, ActionSpec) {
    let t = s.config.transition_duration_ms;
    if s.last_sent_transition != Some(t) {
        (
            BridgeState { phase: Phase::AwaitLiveTransition, last_sent_transition: Some(t), ..s },
            ActionSpec::Send(transition_bytes(t)),
        )
    } else {
        ping_check(s)
    }
}

/// The part of a tick that runs every time: when connected, changed
/// brightness and crossfade settings are sent; then the heartbeat.
pub open spec fn fast_tick(s: BridgeState) -> (BridgeState, ActionSpec) {
    let b = s.config.brightness;
    if s.connected {
        if s.last_sent_brightness != Some(b) {
            (
                BridgeState { phase: Phase::AwaitLiveBrightness, last_sent_brightness: Some(b), ..s },
                ActionSpec::Send(brightness_bytes(b)),
            )
        } else {
            live_transition(s)
        }
    } else {
        ping_check(s)
    }
}

/// Asks for the firmware version when connected and not yet known; then
/// polls the presence.
pub open spec fn version_check(s: BridgeState) -> (BridgeState, ActionSpec) {
    if s.connected && s.firmware_version is None {
        (BridgeState { phase: Phase::AwaitVersion, ..s }, ActionSpec::QueryVersion)
    } else {
        (BridgeState { phase: Phase::AwaitPresence, ..s }, ActionSpec::PollPresence)
    }
}

/// The start of a tick.
pub open spec fn on_tick(s: BridgeState, t: TickSpec) -> (BridgeState, ActionSpec) {
    if t.flash_pause {
        (s, ActionSpec::Sleep)
    } else if t.bootloader_trigger {
        (
            BridgeState { previous_presence: None, ..s },
            ActionSpec::EnterBootloader { send: t.connected },
        )
    } else if t.shutdown {
        (BridgeState { phase: Phase::Stopped, ..s }, ActionSpec::Shutdown(report_bytes(CMD_OFF, 0, 0, 0, 0)))
    } else {
        let s1 = BridgeState {
            config: t.config,
            now_ms: t.now_ms,
            connected: t.connected,
            log_valid: t.log_valid,
            ..s
        };
        if elapsed(t.now_ms, s.last_poll_ms) >= t.config.poll_interval_ms {
            let s2 = BridgeState { last_poll_ms: t.now_ms, ..s1 };
            if !t.connected {
                (BridgeState { phase: Phase::AwaitConnect, ..s2 }, ActionSpec::Connect)
            } else {
                version_check(s2)
            }
        } else {
            fast_tick(s1)
        }
    }
}

/// The result of a presence poll: a presence that differs from the last one
/// is sent, unless it is none.
pub open spec fn on_presence(s: BridgeState, p: Option<Seq<char>>, log_valid: bool) -> (BridgeState, ActionSpec) {
    let s1 = BridgeState { log_valid, ..s };
    if p != s.previous_presence {
        let s2 = BridgeState { previous_presence: p, ..s1 };
        match p {
            Some(name) => (
                BridgeState { phase: Phase::AwaitPresenceSend, ..s2 },
                ActionSpec::Send(presence_bytes(s.config, name)),
            ),
            None => fast_tick(s2),
        }
    } else {
        fast_tick(s1)
    }
}

/// One step of the machine.
pub open spec fn next(s: BridgeState, e: EventSpec) -> (BridgeState, ActionSpec) {
    match (s.phase, e) {
        (Phase::Idle, EventSpec::Tick(t)) => on_tick(s, t),
        (Phase::AwaitConnect, EventSpec::Connected(c)) => {
            let s1 = BridgeState { connected: c, ..s };
            if c {
                let b = s.config.brightness;
                (
                    BridgeState {
                        phase: Phase::AwaitConnectBrightness,
                        last_sent_brightness: Some(b),
                        ..s1
                    },
                    ActionSpec::Send(brightness_bytes(b)),
                )
            } else {
                version_check(s1)
            }
        },
        (Phase::AwaitConnectBrightness, EventSpec::Sent { connected, now_ms }) => {
            let t = s.config.transition_duration_ms;
            (
                BridgeState {
                    phase: Phase::AwaitConnectTransition,
                    connected,
                    last_sent_transition: Some(t),
                    previous_presence: None,
                    ..s
                },
                ActionSpec::Send(transition_bytes(t)),
            )
        },
        (Phase::AwaitConnectTransition, EventSpec::Sent { connected, now_ms }) => version_check(
            BridgeState { connected, ..s },
        ),
        (Phase::AwaitVersion, EventSpec::Version { version, connected }) => (
            BridgeState {
                phase: Phase::AwaitPresence,
                connected,
                firmware_version: if version is Some { version } else { s.firmware_version },
                ..s
            },
            ActionSpec::PollPresence,
        ),
        (Phase::AwaitPresence, EventSpec::Presence { presence, log_valid }) => on_presence(
            s,
            presence,
            log_valid,
        ),
        (Phase::AwaitPresenceSend, EventSpec::Sent { connected, now_ms }) => fast_tick(
            BridgeState { connected, last_ping_ms: now_ms, ..s },
        ),
        (Phase::AwaitLiveBrightness, EventSpec::Sent { connected, now_ms }) => live_transition(
            BridgeState { connected, ..s },
        ),
        (Phase::AwaitLiveTransition, EventSpec::Sent { connected, now_ms }) => ping_check(
            BridgeState { connected, ..s },
        ),
        (Phase::AwaitPing, EventSpec::Pinged { connected, now_ms }) => finish(
            BridgeState { connected, last_ping_ms: now_ms, ..s },
        ),
        _ => (s, ActionSpec::Ignored),
    }
}


/// The state machine of the bridge loop.
pub struct BridgeCore {
    phase: Phase,
    previous_presence: Option<String>,
    last_ping_ms: u64,
    last_poll_ms: u64,
    last_sent_brightness: Option<u8>,
    last_sent_transition: Option<u16>,
    connected: bool,
    log_valid: bool,
    now_ms: u64,
    config: Config,
    esp_connected: bool,
    teams_parsing: bool,
    firmware_version: Option<(u8, u8, u8)>,
}

impl View for BridgeCore {
    type V = BridgeState;

    closed spec fn view(&self) -> BridgeState {
        BridgeState {
            phase: self.phase,
            previous_presence: opt_chars(self.previous_presence),
            last_ping_ms: self.last_ping_ms,
            last_poll_ms: self.last_poll_ms,
            last_sent_brightness: self.last_sent_brightness,
            last_sent_transition: self.last_sent_transition,
            connected: self.connected,
            log_valid: self.log_valid,
            now_ms: self.now_ms,
            config: self.config@,
            esp_connected: self.esp_connected,
            teams_parsing: self.teams_parsing,
            firmware_version: self.firmware_version,
        }
    }
}

impl BridgeCore {
    /// The machine at the start of the loop, at time `now_ms`: nothing sent
    /// yet, heartbeat and poll timers starting now.
    pub fn new(now_ms: u64) -> (c: Self)
        ensures
            c@.phase == Phase::Idle,
            c@.previous_presence is None,
            c@.last_ping_ms == now_ms,
            c@.last_poll_ms == now_ms,
            c@.last_sent_brightness is None,
            c@.last_sent_transition is None,
            !c@.connected,
            !c@.esp_connected,
            !c@.teams_parsing,
            c@.firmware_version is None,
    {
        BridgeCore {
            phase: Phase::Idle,
            previous_presence: None,
            last_ping_ms: now_ms,
            last_poll_ms: now_ms,
            last_sent_brightness: None,
            last_sent_transition: None,
            connected: false,
            log_valid: false,
            now_ms,
            config: Config::default(),
            esp_connected: false,
            teams_parsing: false,
            firmware_version: None,
        }
    }

    /// The status as last published.
    pub fn status(&self) -> (st: BridgeStatus)
        ensures
            st.esp_connected == self@.esp_connected,
            st.teams_parsing == self@.teams_parsing,
            st.firmware_version == self@.firmware_version,
    {
        BridgeStatus {
            esp_connected: self.esp_connected,
            teams_parsing: self.teams_parsing,
            firmware_version: self.firmware_version,
        }
    }

    /// Where the machine stands.
    pub fn phase(&self) -> (p: Phase)
        ensures
            p == self@.phase,
    {
        self.phase
    }

    fn finish(&mut self) -> (a: BridgeAction)
        ensures
            (final(self)@, a@) == finish(old(self)@),
    {
        let changed = self.esp_connected != self.connected || self.teams_parsing != self.log_valid;
        if changed {
            self.esp_connected = self.connected;
            self.teams_parsing = self.log_valid;
            if !self.connected {
                self.firmware_version = None;
            }
        }
        self.phase = Phase::Idle;
        BridgeAction::Publish {
            status: BridgeStatus {
                esp_connected: self.esp_connected,
                teams_parsing: self.teams_parsing,
                firmware_version: self.firmware_version,
            },
            changed,
        }
    }

    fn ping_check(&mut self) -> (a: BridgeAction)
        ensures
            (final(self)@, a@) == ping_check(old(self)@),
    {
        if self.connected && self.now_ms.saturating_sub(self.last_ping_ms) >= self.config.ping_interval_ms {
            self.phase = Phase::AwaitPing;
            BridgeAction::Ping
        } else {
            self.finish()
        }
    }

    fn live_transition(&mut self) -> (a: BridgeAction)
        ensures
            (final(self)@, a@) == live_transition(old(self)@),
    {
        let t = self.config.transition_duration_ms;
        if self.last_sent_transition != Some(t) {
            self.phase = Phase::AwaitLiveTransition;
            self.last_sent_transition = Some(t);
            BridgeAction::Send(transition_report(t))
        } else {
            self.ping_check()
        }
    }

    fn fast_tick(&mut self) -> (a: BridgeAction)
        ensures
            (final(self)@, a@) == fast_tick(old(self)@),
    {
        let b = self.config.brightness;
        if self.connected {
            if self.last_sent_brightness != Some(b) {
                self.phase = Phase::AwaitLiveBrightness;
                self.last_sent_brightness = Some(b);
                BridgeAction::Send(brightness_report(b))
            } else {
                self.live_transition()
            }
        } else {
            self.ping_check()
        }
    }

    fn version_check(&mut self) -> (a: BridgeAction)
        ensures
            (final(self)@, a@) == version_check(old(self)@),
    {
        if self.connected && self.firmware_version.is_none() {
            self.phase = Phase::AwaitVersion;
            BridgeAction::QueryVersion
        } else {
            self.phase = Phase::AwaitPresence;
            BridgeAction::PollPresence
        }
    }

    fn on_tick(&mut self, t: TickInput) -> (a: BridgeAction)
        ensures
            (final(self)@, a@) == on_tick(old(self)@, t@),
    {
        if t.flash_pause {
            BridgeAction::Sleep
        } else if t.bootloader_trigger {
            self.previous_presence = None;
            BridgeAction::EnterBootloader { send: t.connected }
        } else if t.shutdown {
            self.phase = Phase::Stopped;
            BridgeAction::Shutdown(encode_report(CMD_OFF, 0, 0, 0, 0))
        } else {
            let poll_due = t.now_ms.saturating_sub(self.last_poll_ms) >= t.config.poll_interval_ms;
            self.config = t.config;
            self.now_ms = t.now_ms;
            self.connected = t.connected;
            self.log_valid = t.log_valid;
            if poll_due {
                self.last_poll_ms = t.now_ms;
                if !t.connected {
                    self.phase = Phase::AwaitConnect;
                    BridgeAction::Connect
                } else {
                    self.version_check()
                }
            } else {
                self.fast_tick()
            }
        }
    }

    fn on_presence(&mut self, presence: Option<String>, log_valid: bool) -> (a: BridgeAction)
        ensures
            (final(self)@, a@) == on_presence(old(self)@, opt_chars(presence), log_valid),
    {
        self.log_valid = log_valid;
        if !same_opt_text(&presence, &self.previous_presence) {
            self.previous_presence = clone_opt(&presence);
            match presence {
                Some(name) => {
                    let (id, r, g, b) = self.config.command_for(name.as_str()).to_hid_params();
                    self.phase = Phase::AwaitPresenceSend;
                    BridgeAction::Send(color_report(id, r, g, b))
                },
                None => self.fast_tick(),
            }
        } else {
            self.fast_tick()
        }
    }

    /// Feeds one event to the machine and returns the action to perform.
    pub fn step(&mut self, event: BridgeEvent) -> (a: BridgeAction)
        ensures
            (final(self)@, a@) == next(old(self)@, event@),
    {
        match (self.phase, event) {
            (Phase::Idle, BridgeEvent::Tick(t)) => self.on_tick(t),
            (Phase::AwaitConnect, BridgeEvent::Connected(c)) => {
                self.connected = c;
                if c {
                    let b = self.config.brightness;
                    self.phase = Phase::AwaitConnectBrightness;
                    self.last_sent_brightness = Some(b);
                    BridgeAction::Send(brightness_report(b))
                } else {
                    self.version_check()
                }
            },
            (Phase::AwaitConnectBrightness, BridgeEvent::Sent { connected, now_ms }) => {
                let t = self.config.transition_duration_ms;
                self.phase = Phase::AwaitConnectTransition;
                self.connected = connected;
                self.last_sent_transition = Some(t);
                self.previous_presence = None;
                BridgeAction::Send(transition_report(t))
            },
            (Phase::AwaitConnectTransition, BridgeEvent::Sent { connected, now_ms }) => {
                self.connected = connected;
                self.version_check()
            },
            (Phase::AwaitVersion, BridgeEvent::Version { version, connected }) => {
                self.phase = Phase::AwaitPresence;
                self.connected = connected;
                if version.is_some() {
                    self.firmware_version = version;
                }
                BridgeAction::PollPresence
            },
            (Phase::AwaitPresence, BridgeEvent::Presence { presence, log_valid }) => {
                self.on_presence(presence, log_valid)
            },
            (Phase::AwaitPresenceSend, BridgeEvent::Sent { connected, now_ms }) => {
                self.connected = connected;
                self.last_ping_ms = now_ms;
                self.fast_tick()
            },
            (Phase::AwaitLiveBrightness, BridgeEvent::Sent { connected, now_ms }) => {
                self.connected = connected;
                self.live_transition()
            },
            (Phase::AwaitLiveTransition, BridgeEvent::Sent { connected, now_ms }) => {
                self.connected = connected;
                self.ping_check()
            },
            (Phase::AwaitPing, BridgeEvent::Pinged { connected, now_ms }) => {
                self.connected = connected;
                self.last_ping_ms = now_ms;
                self.finish()
            },
            _ => BridgeAction::Ignored,
        }
    }
}


/// The phase that the every-tick part of a tick leaves the machine in is
/// never that of a presence being sent.
proof fn lemma_fast_tick_phase(s: BridgeState)
    ensures
        fast_tick(s).0.phase != Phase::AwaitPresenceSend,
        fast_tick(s).0.previous_presence == s.previous_presence,
{
}

/// A polled presence is sent exactly when it is a presence and differs from
/// the last one sent; it is then sent as its command in the settings, and
/// it becomes the last one sent.
pub proof fn law_presence_sent_on_change(s: BridgeState, presence: Option<Seq<char>>, log_valid: bool)
    requires
        s.phase == Phase::AwaitPresence,
    ensures
        ({
            let (s2, a) = next(s, EventSpec::Presence { presence, log_valid });
            &&& (s2.phase == Phase::AwaitPresenceSend) <==> (presence is Some && presence != s.previous_presence)
            &&& s2.phase == Phase::AwaitPresenceSend ==> a == ActionSpec::Send(
                presence_bytes(s.config, presence.unwrap()),
            )
            &&& s2.previous_presence == presence
        }),
{
    let s1 = BridgeState { log_valid, ..s };
    lemma_fast_tick_phase(s1);
    lemma_fast_tick_phase(BridgeState { previous_presence: presence, ..s1 });
}

/// A presence state that the settings do not map is shown with the
/// watchdog command.
pub proof fn law_unknown_presence_uses_watchdog(c: ConfigSpec, presence: Seq<char>)
    requires
        !c.presence_map.contains_key(presence),
    ensures
        presence_bytes(c, presence) == ({
            let p = hid_params_of(c.watchdog);
            report_bytes(p.0, p.1, p.2, p.3, 0)
        }),
{
}

/// A fresh connection gets the configured brightness, then the configured
/// crossfade duration, and forgets the last presence sent so that the
/// current one is sent again.
pub proof fn law_reconnect_restores_device(s: BridgeState, connected: bool, now_ms: u64)
    requires
        s.phase == Phase::AwaitConnect,
    ensures
        ({
            let (s1, a1) = next(s, EventSpec::Connected(true));
            let (s2, a2) = next(s1, EventSpec::Sent { connected, now_ms });
            &&& a1 == ActionSpec::Send(brightness_bytes(s.config.brightness))
            &&& a2 == ActionSpec::Send(transition_bytes(s.config.transition_duration_ms))
            &&& s2.last_sent_brightness == Some(s.config.brightness)
            &&& s2.last_sent_transition == Some(s.config.transition_duration_ms)
            &&& s2.previous_presence is None
        }),
{
}

/// With no presence sent before (as after a reconnection), any polled
/// presence is sent.
pub proof fn law_presence_resent_after_reset(s: BridgeState, name: Seq<char>, log_valid: bool)
    requires
        s.phase == Phase::AwaitPresence,
        s.previous_presence is None,
    ensures
        next(s, EventSpec::Presence { presence: Some(name), log_valid }).1 == ActionSpec::Send(
            presence_bytes(s.config, name),
        ),
{
}

/// Once shut down, the machine ignores every event.
pub proof fn law_stopped_is_final(s: BridgeState, e: EventSpec)
    requires
        s.phase == Phase::Stopped,
    ensures
        next(s, e) == (s, ActionSpec::Ignored),
{
}

/// A shutdown request turns the LEDs off and stops the machine, unless a
/// flash or a bootloader request comes first.
pub proof fn law_shutdown_turns_off(s: BridgeState, t: TickSpec)
    requires
        s.phase == Phase::Idle,
        !t.flash_pause,
        !t.bootloader_trigger,
        t.shutdown,
    ensures
        next(s, EventSpec::Tick(t)) == (
            BridgeState { phase: Phase::Stopped, ..s },
            ActionSpec::Shutdown(report_bytes(CMD_OFF, 0, 0, 0, 0)),
        ),
{
}

/// While a firmware flash is in progress a tick changes nothing.
pub proof fn law_pause_changes_nothing(s: BridgeState, t: TickSpec)
    requires
        s.phase == Phase::Idle,
        t.flash_pause,
    ensures
        next(s, EventSpec::Tick(t)) == (s, ActionSpec::Sleep),
{
}

/// A bootloader request puts a connected device into its bootloader and
/// forgets the last presence sent, so that it is sent again afterwards.
pub proof fn law_bootloader_forgets_presence(s: BridgeState, t: TickSpec)
    requires
        s.phase == Phase::Idle,
        !t.flash_pause,
        t.bootloader_trigger,
    ensures
        (next(s, EventSpec::Tick(t)).0.previous_presence is None),
        next(s, EventSpec::Tick(t)).1 == (ActionSpec::EnterBootloader { send: t.connected }),
{
}

/// A heartbeat is only sent to a connected device whose heartbeat is due.
pub proof fn law_ping_only_when_due(s: BridgeState, e: EventSpec)
    ensures
        ({
            let (s2, a) = next(s, e);
            a == ActionSpec::Ping ==> s2.connected && elapsed(s2.now_ms, s2.last_ping_ms)
                >= s2.config.ping_interval_ms && s2.phase == Phase::AwaitPing
        }),
{
}

/// The published status is the machine's status; a change to a lost
/// connection publishes no firmware version.
pub proof fn law_publish_matches_state(s: BridgeState, e: EventSpec)
    ensures
        ({
            let (s2, a) = next(s, e);
            a matches ActionSpec::Publish { status, changed } ==> {
                &&& status.esp_connected == s2.esp_connected
                &&& status.teams_parsing == s2.teams_parsing
                &&& status.firmware_version == s2.firmware_version
                &&& s2.phase == Phase::Idle
                &&& (changed && !status.esp_connected ==> status.firmware_version is None)
                &&& (changed <==> (s.esp_connected != s2.esp_connected || s.teams_parsing != s2.teams_parsing))
            }
        }),
{
}

/// On a tick that does not poll, a connected device is sent the configured
/// brightness exactly when it differs from the last one sent.
pub proof fn law_brightness_sent_when_changed(s: BridgeState, t: TickSpec)
    requires
        s.phase == Phase::Idle,
        !t.flash_pause,
        !t.bootloader_trigger,
        !t.shutdown,
        t.connected,
        elapsed(t.now_ms, s.last_poll_ms) < t.config.poll_interval_ms,
    ensures
        ({
            let (s2, a) = next(s, EventSpec::Tick(t));
            &&& (s.last_sent_brightness != Some(t.config.brightness)) ==> (a == ActionSpec::Send(
                brightness_bytes(t.config.brightness),
            ) && s2.phase == Phase::AwaitLiveBrightness)
            &&& (s.last_sent_brightness == Some(t.config.brightness)) ==> s2.phase
                != Phase::AwaitLiveBrightness
            &&& s2.last_sent_brightness == Some(t.config.brightness)
        }),
{
}


/// When a poll is due and no device is open, the machine reconnects.
pub proof fn law_reconnect_when_disconnected(s: BridgeState, t: TickSpec)
    requires
        s.phase == Phase::Idle,
        !t.flash_pause,
        !t.bootloader_trigger,
        !t.shutdown,
        !t.connected,
        elapsed(t.now_ms, s.last_poll_ms) >= t.config.poll_interval_ms,
    ensures
        next(s, EventSpec::Tick(t)).1 == ActionSpec::Connect,
        next(s, EventSpec::Tick(t)).0.last_poll_ms == t.now_ms,
{
}

/// A connected device whose settings are up to date gets a heartbeat as
/// soon as one is due.
pub proof fn law_ping_when_due(s: BridgeState, t: TickSpec)
    requires
        s.phase == Phase::Idle,
        !t.flash_pause,
        !t.bootloader_trigger,
        !t.shutdown,
        t.connected,
        elapsed(t.now_ms, s.last_poll_ms) < t.config.poll_interval_ms,
        s.last_sent_brightness == Some(t.config.brightness),
        s.last_sent_transition == Some(t.config.transition_duration_ms),
        elapsed(t.now_ms, s.last_ping_ms) >= t.config.ping_interval_ms,
    ensures
        next(s, EventSpec::Tick(t)).1 == ActionSpec::Ping,
{
}


/// The state after feeding `events` to the machine one by one.
pub open spec fn run(s: BridgeState, events: Seq<EventSpec>) -> BridgeState
    decreases events.len(),
{
    if events.len() == 0 {
        s
    } else {
        run(next(s, events[0]).0, events.drop_first())
    }
}

/// Whether an event, in state `s`, may change the last presence sent: a
/// polled presence, the brightness write of a fresh connection, or a
/// bootloader request.
pub open spec fn resets_presence(s: BridgeState, e: EventSpec) -> bool {
    ||| (s.phase == Phase::AwaitPresence && e is Presence)
    ||| (s.phase == Phase::AwaitConnectBrightness && e is Sent)
    ||| (s.phase == Phase::Idle && (e matches EventSpec::Tick(t) && !t.flash_pause && t.bootloader_trigger))
}

/// No event of `events`, fed from `s` on, may change the last presence sent.
pub open spec fn keeps_presence(s: BridgeState, events: Seq<EventSpec>) -> bool
    decreases events.len(),
{
    events.len() == 0 || (!resets_presence(s, events[0]) && keeps_presence(
        next(s, events[0]).0,
        events.drop_first(),
    ))
}

proof fn lemma_step_keeps_presence(s: BridgeState, e: EventSpec)
    requires
        !resets_presence(s, e),
    ensures
        next(s, e).0.previous_presence == s.previous_presence,
{
}

proof fn lemma_run_keeps_presence(s: BridgeState, events: Seq<EventSpec>)
    requires
        keeps_presence(s, events),
    ensures
        run(s, events).previous_presence == s.previous_presence,
    decreases events.len(),
{
    if events.len() > 0 {
        lemma_step_keeps_presence(s, events[0]);
        lemma_run_keeps_presence(next(s, events[0]).0, events.drop_first());
    }
}

/// A presence that was sent is not sent again at a later poll that finds
/// the same presence, as long as no reconnection and no bootloader request
/// came in between.
pub proof fn law_same_presence_not_resent(
    s: BridgeState,
    events: Seq<EventSpec>,
    name: Seq<char>,
    log_valid: bool,
)
    requires
        s.previous_presence == Some(name),
        keeps_presence(s, events),
        run(s, events).phase == Phase::AwaitPresence,
    ensures
        ({
            let (s2, a) = next(run(s, events), EventSpec::Presence { presence: Some(name), log_valid });
            &&& s2.phase != Phase::AwaitPresenceSend
            &&& s2.previous_presence == Some(name)
        }),
{
    lemma_run_keeps_presence(s, events);
    law_presence_sent_on_change(run(s, events), Some(name), log_valid);
}

/// Whether an event is a result from a device that stays connected, timed
/// no earlier than `t0`.
pub open spec fn connected_result(e: EventSpec, t0: u64) -> bool {
    match e {
        EventSpec::Tick(_) => false,
        EventSpec::Connected(c) => c,
        EventSpec::Sent { connected, now_ms } => connected && now_ms >= t0,
        EventSpec::Version { version, connected } => connected,
        EventSpec::Presence { presence, log_valid } => true,
        EventSpec::Pinged { connected, now_ms } => connected && now_ms >= t0,
    }
}

/// Within a tick that started at `t0` with heartbeat interval `p`: between
/// ticks, the last heartbeat is less than `p` before `t0`, or not before it.
pub open spec fn heartbeat_inv(x: BridgeState, t0: u64, p: u64) -> bool {
    &&& x.now_ms == t0
    &&& x.config.ping_interval_ms == p
    &&& x.phase != Phase::Stopped
    &&& x.phase != Phase::Idle ==> x.connected
    &&& x.phase == Phase::Idle ==> (elapsed(t0, x.last_ping_ms) < p || x.last_ping_ms >= t0)
}

proof fn lemma_heartbeat_step(x: BridgeState, e: EventSpec, t0: u64, p: u64)
    requires
        heartbeat_inv(x, t0, p),
        connected_result(e, t0),
    ensures
        heartbeat_inv(next(x, e).0, t0, p),
{
}

proof fn lemma_heartbeat_run(x: BridgeState, events: Seq<EventSpec>, t0: u64, p: u64)
    requires
        heartbeat_inv(x, t0, p),
        forall|i: int| 0 <= i < events.len() ==> connected_result(#[trigger] events[i], t0),
    ensures
        heartbeat_inv(run(x, events), t0, p),
    decreases events.len(),
{
    if events.len() > 0 {
        lemma_heartbeat_step(x, events[0], t0, p);
        let rest = events.drop_first();
        assert forall|i: int| 0 <= i < rest.len() implies connected_result(#[trigger] rest[i], t0) by {
            assert(rest[i] == events[i + 1]);
        }
        lemma_heartbeat_run(next(x, events[0]).0, rest, t0, p);
    }
}

/// A tick during which the device stays connected ends with a heartbeat
/// less than one ping interval before the tick's start, or after it: the
/// gap between heartbeats never exceeds the interval by more than a tick.
pub proof fn law_heartbeat_within_interval(s: BridgeState, t: TickSpec, events: Seq<EventSpec>)
    requires
        s.phase == Phase::Idle,
        !t.flash_pause,
        !t.bootloader_trigger,
        !t.shutdown,
        t.connected,
        forall|i: int| 0 <= i < events.len() ==> connected_result(#[trigger] events[i], t.now_ms),
        run(next(s, EventSpec::Tick(t)).0, events).phase == Phase::Idle,
    ensures
        ({
            let s2 = run(next(s, EventSpec::Tick(t)).0, events);
            elapsed(t.now_ms, s2.last_ping_ms) < t.config.ping_interval_ms || s2.last_ping_ms >= t.now_ms
        }),
{
    let p = t.config.ping_interval_ms;
    assert(heartbeat_inv(next(s, EventSpec::Tick(t)).0, t.now_ms, p));
    lemma_heartbeat_run(next(s, EventSpec::Tick(t)).0, events, t.now_ms, p);
}


/// On a tick that does not poll, a connected device whose brightness is up
/// to date is sent the configured crossfade duration whenever it differs
/// from the last one sent (another value as well as none), as the
/// transition report of that duration; the duration is then the last one
/// sent. An unchanged duration is not sent again.
pub proof fn law_transition_sent_when_changed(s: BridgeState, t: TickSpec)
    requires
        s.phase == Phase::Idle,
        !t.flash_pause,
        !t.bootloader_trigger,
        !t.shutdown,
        t.connected,
        elapsed(t.now_ms, s.last_poll_ms) < t.config.poll_interval_ms,
        s.last_sent_brightness == Some(t.config.brightness),
    ensures
        ({
            let d = t.config.transition_duration_ms;
            let (s2, a) = next(s, EventSpec::Tick(t));
            &&& s.last_sent_transition != Some(d) ==> a == ActionSpec::Send(
                report_bytes(CMD_TRANSITION, (d / 256) as u8, (d % 256) as u8, 0, 0),
            )
            &&& s.last_sent_transition != Some(d) ==> s2.phase == Phase::AwaitLiveTransition
            &&& s2.last_sent_transition == Some(d)
            &&& s.last_sent_transition == Some(d) ==> !(a is Send)
        }),
{
}


/// A presence that the settings map is sent as the report of its own
/// command; one mapped to `OFF` turns the LEDs off.
pub proof fn law_mapped_presence_report(c: ConfigSpec, presence: Seq<char>)
    requires
        c.presence_map.contains_key(presence),
    ensures
        ({
            let m = c.presence_map[presence];
            let p = hid_params_of(m);
            &&& presence_bytes(c, presence) == report_bytes(p.0, p.1, p.2, p.3, 0)
            &&& m.0 == "OFF"@ ==> presence_bytes(c, presence) == report_bytes(CMD_OFF, 0, 0, 0, 0)
        }),
{
}

} // verus!
