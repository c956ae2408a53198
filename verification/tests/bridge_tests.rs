use teams_presence_bridge::bridge::{AppStatus, BridgeAction, BridgeCore, BridgeEvent, BridgeStatus, Phase, TickInput};
use teams_presence_bridge::config::{ColorCommand, Config};

fn tick(core: &mut BridgeCore, now_ms: u64, connected: bool, config: &Config) -> BridgeAction {
    core.step(BridgeEvent::Tick(TickInput {
        flash_pause: false,
        bootloader_trigger: false,
        shutdown: false,
        connected,
        log_valid: true,
        now_ms,
        config: config.clone(),
    }))
}

fn sent(core: &mut BridgeCore, connected: bool, now_ms: u64) -> BridgeAction {
    core.step(BridgeEvent::Sent { connected, now_ms })
}

fn expect_send(a: BridgeAction) -> [u8; 6] {
    match a {
        BridgeAction::Send(r) => r,
        _ => panic!("expected a report"),
    }
}

#[test]
fn fresh_connection_sends_brightness_transition_and_presence() {
    let mut config = Config::default();
    config.brightness = 128;
    config.transition_duration_ms = 1500;
    let mut core = BridgeCore::new(0);
    // Not yet time to poll, not connected: publish only.
    match tick(&mut core, 100, false, &config) {
        BridgeAction::Publish { status, changed } => {
            assert!(changed);
            assert!(!status.esp_connected);
            assert!(status.teams_parsing);
        }
        _ => panic!("expected publish"),
    }
    // Poll due, disconnected: reconnect.
    assert!(matches!(tick(&mut core, 5000, false, &config), BridgeAction::Connect));
    assert_eq!(expect_send(core.step(BridgeEvent::Connected(true))), [6, 0x06, 128, 0, 0, 0]);
    assert_eq!(expect_send(sent(&mut core, true, 5001)), [6, 0x07, 5, 220, 0, 0]);
    assert!(matches!(sent(&mut core, true, 5002), BridgeAction::QueryVersion));
    assert!(matches!(
        core.step(BridgeEvent::Version { version: Some((1, 2, 3)), connected: true }),
        BridgeAction::PollPresence
    ));
    let report = expect_send(core.step(BridgeEvent::Presence { presence: Some("Busy".to_string()), log_valid: true }));
    assert_eq!(report, [6, 0x03, 200, 0, 0, 0]);
    // Brightness and transition were already sent: the heartbeat is not due
    // (the presence write counts as one), so the tick ends.
    match sent(&mut core, true, 5003) {
        BridgeAction::Publish { status, changed } => {
            assert!(changed);
            assert!(status.esp_connected);
            assert_eq!(status.firmware_version, Some((1, 2, 3)));
        }
        _ => panic!("expected publish"),
    }
}

#[test]
fn unchanged_presence_is_not_resent_and_unknown_gets_watchdog() {
    let mut config = Config::default();
    config.watchdog = ColorCommand::new("BREATHE".to_string(), 80, 80, 80);
    let mut core = BridgeCore::new(0);
    // Connected from the start: the first tick sends brightness and transition.
    assert_eq!(expect_send(tick(&mut core, 10, true, &config))[1], 0x06);
    assert_eq!(expect_send(sent(&mut core, true, 10))[1], 0x07);
    assert!(matches!(sent(&mut core, true, 10), BridgeAction::Publish { .. }));
    // Poll: version query, then presence.
    assert!(matches!(tick(&mut core, 5000, true, &config), BridgeAction::QueryVersion));
    let _ = core.step(BridgeEvent::Version { version: None, connected: true });
    let r = expect_send(core.step(BridgeEvent::Presence { presence: Some("Presenting".to_string()), log_valid: true }));
    assert_eq!(r, [6, 0x04, 80, 80, 80, 0]);
    assert!(matches!(sent(&mut core, true, 5000), BridgeAction::Publish { .. }));
    // Same presence again: nothing sent.
    assert!(matches!(tick(&mut core, 10000, true, &config), BridgeAction::QueryVersion));
    let _ = core.step(BridgeEvent::Version { version: None, connected: true });
    let a = core.step(BridgeEvent::Presence { presence: Some("Presenting".to_string()), log_valid: true });
    assert!(matches!(a, BridgeAction::Ping) || matches!(a, BridgeAction::Publish { .. }));
}

#[test]
fn ping_when_due_and_lost_device_forgets_version() {
    let mut config = Config::default();
    config.ping_interval_ms = 10000;
    let mut core = BridgeCore::new(0);
    let _ = tick(&mut core, 1, true, &config);
    let _ = sent(&mut core, true, 1);
    let _ = sent(&mut core, true, 1);
    assert!(matches!(tick(&mut core, 5000, true, &config), BridgeAction::QueryVersion));
    let _ = core.step(BridgeEvent::Version { version: Some((2, 0, 0)), connected: true });
    let a = core.step(BridgeEvent::Presence { presence: None, log_valid: false });
    assert!(matches!(a, BridgeAction::Publish { .. }));
    // 10 s after start the poll runs again and the heartbeat is due.
    assert!(matches!(tick(&mut core, 10000, true, &config), BridgeAction::PollPresence));
    assert!(matches!(core.step(BridgeEvent::Presence { presence: None, log_valid: false }), BridgeAction::Ping));
    match core.step(BridgeEvent::Pinged { connected: false, now_ms: 10001 }) {
        BridgeAction::Publish { status, changed } => {
            assert!(changed);
            assert_eq!(status.firmware_version, None);
        }
        _ => panic!("expected publish"),
    }
    let status = core.status();
    assert!(!status.esp_connected);
    assert_eq!(status.firmware_version, None);
}

#[test]
fn pause_bootloader_and_shutdown() {
    let config = Config::default();
    let mut core = BridgeCore::new(0);
    let pause = TickInput { flash_pause: true, bootloader_trigger: true, shutdown: true, connected: true, log_valid: true, now_ms: 1, config: config.clone() };
    assert!(matches!(core.step(BridgeEvent::Tick(pause)), BridgeAction::Sleep));
    let boot = TickInput { flash_pause: false, bootloader_trigger: true, shutdown: true, connected: true, log_valid: true, now_ms: 2, config: config.clone() };
    assert!(matches!(core.step(BridgeEvent::Tick(boot)), BridgeAction::EnterBootloader { send: true }));
    let quit = TickInput { flash_pause: false, bootloader_trigger: false, shutdown: true, connected: true, log_valid: true, now_ms: 3, config: config.clone() };
    match core.step(BridgeEvent::Tick(quit)) {
        BridgeAction::Shutdown(r) => assert_eq!(r, [6, 0x02, 0, 0, 0, 0]),
        _ => panic!("expected shutdown"),
    }
    assert_eq!(core.phase(), Phase::Stopped);
    assert!(matches!(tick(&mut core, 4, true, &config), BridgeAction::Ignored));
}

#[test]
fn out_of_order_event_is_ignored() {
    let mut core = BridgeCore::new(0);
    assert!(matches!(core.step(BridgeEvent::Connected(true)), BridgeAction::Ignored));
    assert_eq!(core.phase(), Phase::Idle);
}

#[test]
fn app_status_keeps_update_flag() {
    let mut s = AppStatus::default();
    s.update_available = true;
    s.apply(&BridgeStatus { esp_connected: true, teams_parsing: false, firmware_version: Some((1, 0, 0)) });
    assert!(s.esp_connected && s.update_available);
    assert_eq!(s.firmware_version, Some((1, 0, 0)));
}
