use teams_presence_bridge::config::{ColorCommand, Config, PresenceMap};
use teams_presence_bridge::protocol::{CMD_BREATHE, CMD_BREATHE_SLOW, CMD_OFF, CMD_SOLID};

fn cmd(name: &str, r: u8, g: u8, b: u8) -> ColorCommand {
    ColorCommand::new(name.to_string(), r, g, b)
}

#[test]
fn serial_command_is_name_and_decimal_color() {
    assert_eq!(cmd("SOLID", 0, 255, 0).to_serial_command(), "SOLID:0,255,0\n");
    assert_eq!(cmd("BREATHE", 255, 120, 0).to_serial_command(), "BREATHE:255,120,0\n");
    assert_eq!(cmd("OFF", 0, 0, 0).to_serial_command(), "OFF\n");
    assert_eq!(cmd("OFF", 9, 8, 7).to_serial_command(), "OFF\n");
    assert_eq!(cmd("BREATHE", 80, 7, 100).to_serial_command(), "BREATHE:80,7,100\n");
}

#[test]
fn hid_params_follow_the_protocol() {
    assert_eq!(cmd("SOLID", 1, 2, 3).to_hid_params(), (CMD_SOLID, 1, 2, 3));
    assert_eq!(cmd("BREATHE", 255, 120, 0).to_hid_params(), (CMD_BREATHE, 255, 120, 0));
    assert_eq!(cmd("BREATHE_SLOW", 80, 80, 80).to_hid_params(), (CMD_BREATHE_SLOW, 80, 80, 80));
    assert_eq!(cmd("OFF", 9, 9, 9).to_hid_params(), (CMD_OFF, 0, 0, 0));
    assert_eq!(cmd("RAINBOW", 4, 5, 6).to_hid_params(), (CMD_SOLID, 4, 5, 6));
    assert_eq!(CMD_OFF, 0x02);
    assert_eq!(CMD_SOLID, 0x03);
    assert_eq!(CMD_BREATHE, 0x04);
    assert_eq!(CMD_BREATHE_SLOW, 0x05);
}

#[test]
fn default_config_maps_every_presence() {
    let c = Config::default();
    assert_eq!(c.com_port, "AUTO");
    assert_eq!(c.poll_interval_ms, 5000);
    assert_eq!(c.ping_interval_ms, 15000);
    assert_eq!(c.presence_map.len(), 6);
    let check = |state: &str, name: &str, r: u8, g: u8, b: u8| {
        let e = c.presence_map.get(state).expect("mapped");
        assert_eq!((e.command.as_str(), e.r, e.g, e.b), (name, r, g, b));
    };
    check("Available", "SOLID", 0, 200, 0);
    check("Busy", "SOLID", 200, 0, 0);
    check("DoNotDisturb", "SOLID", 200, 0, 0);
    check("Away", "BREATHE", 255, 120, 0);
    check("BeRightBack", "BREATHE", 255, 80, 0);
    check("Offline", "OFF", 0, 0, 0);
    assert!(c.presence_map.get("InAMeeting").is_none());
    assert_eq!((c.watchdog.command.as_str(), c.watchdog.r, c.watchdog.g, c.watchdog.b), ("BREATHE", 80, 80, 80));
    // The default map's lines of the text protocol.
    assert_eq!(c.presence_map.get("Available").unwrap().to_serial_command(), "SOLID:0,200,0\n");
    assert_eq!(c.presence_map.get("Away").unwrap().to_serial_command(), "BREATHE:255,120,0\n");
    assert_eq!(c.presence_map.get("Offline").unwrap().to_serial_command(), "OFF\n");
}

#[test]
fn unknown_presence_gets_watchdog_command() {
    let mut c = Config::default();
    c.watchdog = cmd("BREATHE", 80, 80, 80);
    let w = c.command_for("Presenting");
    assert_eq!((w.command.as_str(), w.r), ("BREATHE", 80));
    let a = c.command_for("Available");
    assert_eq!((a.command.as_str(), a.g), ("SOLID", 200));
}

#[test]
fn presence_map_insert_replaces() {
    let mut m = PresenceMap::new();
    assert_eq!(m.len(), 0);
    m.insert("Busy".to_string(), cmd("SOLID", 1, 0, 0));
    m.insert("Away".to_string(), cmd("BREATHE", 2, 0, 0));
    m.insert("Busy".to_string(), cmd("BREATHE_SLOW", 3, 0, 0));
    assert_eq!(m.len(), 2);
    let busy = m.get("Busy").unwrap();
    assert_eq!((busy.command.as_str(), busy.r), ("BREATHE_SLOW", 3));
    let (k, v) = m.entry(1);
    assert_eq!((k.as_str(), v.r), ("Away", 2));
    let copy = m.clone();
    assert_eq!(copy.get("Away").unwrap().r, 2);
    assert!(copy.get("away").is_none());
}

#[test]
fn config_clone_keeps_settings() {
    let mut c = Config::default();
    c.brightness = 42;
    c.transition_duration_ms = 750;
    let d = c.clone();
    assert_eq!(d.brightness, 42);
    assert_eq!(d.transition_duration_ms, 750);
    assert_eq!(d.presence_map.len(), 6);
}
