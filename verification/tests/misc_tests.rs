use teams_presence_bridge::autostart::{autostart_command, autostart_matches};
use teams_presence_bridge::bridge::AppStatus;
use teams_presence_bridge::flasher::{bootloader_usb_ids, find_bootloader_port, flash_stage_text, still_waiting, FlashStage};
use teams_presence_bridge::icon::icon_rgba;
use teams_presence_bridge::serial::{auto_detect_port, brightness_command, is_auto_port, transition_command, PortEntry};
use teams_presence_bridge::text::{join_text, push_decimal, same_text, string_from_chars};
use teams_presence_bridge::update_ui::{tray_texts, FirmwareOffer, UpdateUiState};
use teams_presence_bridge::updater::{release_info_from, GithubAsset, GithubRelease, SemVer};

fn port(name: &str, ids: Option<(u16, u16)>) -> PortEntry {
    PortEntry { port_name: name.to_string(), usb_ids: ids }
}

#[test]
fn serial_lines() {
    assert_eq!(brightness_command(0), "BRIGHTNESS:0\n");
    assert_eq!(brightness_command(255), "BRIGHTNESS:255\n");
    assert_eq!(transition_command(10000), "TRANSITION:10000\n");
    assert!(is_auto_port("AUTO"));
    assert!(!is_auto_port("COM3"));
}

#[test]
fn auto_detection_prefers_usb() {
    let ports = vec![
        port("COM1", None),
        port("COM3", Some((0x2886, 0x57))),
        port("COM4", Some((0x2886, 0x56))),
        port("COM5", Some((0x2886, 0x56))),
    ];
    assert_eq!(auto_detect_port(&ports), Some("COM4".to_string()));
    let ports = vec![port("COM1", None), port("COM2", Some((0x303a, 0x1001)))];
    assert_eq!(auto_detect_port(&ports), None);
    assert_eq!(auto_detect_port(&Vec::new()), None);
}

#[test]
fn bootloader_port_by_vendor() {
    let ports = vec![port("COM1", Some((0x2886, 0x56))), port("COM7", Some((0x303a, 0x1001))), port("COM8", Some((0x303a, 2)))];
    assert_eq!(find_bootloader_port(&ports), Some(1));
    assert_eq!(find_bootloader_port(&vec![port("COM1", None)]), None);
    assert_eq!(bootloader_usb_ids(&ports[2]), (0x303a, 2));
    assert_eq!(bootloader_usb_ids(&port("X", None)), (0x303a, 0x1001));
}

#[test]
fn waits_end_at_their_limit() {
    assert!(still_waiting(1000, 1000, 5000));
    assert!(still_waiting(1000, 5999, 5000));
    assert!(!still_waiting(1000, 6000, 5000));
    assert!(still_waiting(1000, 10, 5000));
}

#[test]
fn stage_texts() {
    assert_eq!(flash_stage_text(&None), "Initializing...");
    assert_eq!(flash_stage_text(&Some(FlashStage::Connecting)), "Downloading firmware...");
    assert_eq!(flash_stage_text(&Some(FlashStage::Flashing { percent: 42 })), "Flashing firmware... 42%");
    assert_eq!(flash_stage_text(&Some(FlashStage::Error("boom".to_string()))), "Error: boom");
    assert_eq!(flash_stage_text(&Some(FlashStage::Done)), "Done!");
}

#[test]
fn autostart_value_is_quoted_path() {
    assert_eq!(autostart_command("C:\\a b\\x.exe"), "\"C:\\a b\\x.exe\"");
    assert!(autostart_matches("\"C:\\x.exe\"", Some("C:\\x.exe")));
    assert!(!autostart_matches("C:\\x.exe", Some("C:\\x.exe")));
    assert!(!autostart_matches("\"C:\\x.exe\"", None));
}

#[test]
fn icon_is_teams_blue() {
    let px = icon_rgba();
    assert_eq!(px.len(), 32 * 32 * 4);
    assert_eq!(&px[0..8], &[0, 120, 215, 255, 0, 120, 215, 255]);
}

#[test]
fn text_helpers() {
    assert_eq!(join_text("ab", "cé"), "abcé");
    assert!(same_text("é", "é"));
    assert!(!same_text("a", "ab"));
    let mut v = vec!['x'];
    push_decimal(&mut v, 1234567890123);
    push_decimal(&mut v, 0);
    assert_eq!(string_from_chars(&v), "x12345678901230");
}

#[test]
fn tray_menu_texts() {
    let mut s = AppStatus::default();
    assert_eq!(tray_texts(&s), ("🔴 ESP32: Disconnected", "🔴 Teams: Log Not Found", "Check for Updates"));
    s.esp_connected = true;
    s.teams_parsing = true;
    s.update_available = true;
    assert_eq!(tray_texts(&s), ("🟢 ESP32: Connected (USB HID)", "🟢 Teams: Log Parsing Active", "⬆ Update Available!"));
}

fn latest(tag: &str, with_fw: bool) -> teams_presence_bridge::updater::ReleaseInfo {
    let assets = if with_fw {
        vec![GithubAsset { name: "firmware.bin".to_string(), browser_download_url: "fw-url".to_string() }]
    } else {
        Vec::new()
    };
    release_info_from(GithubRelease { tag_name: tag.to_string(), html_url: "page".to_string(), assets }).unwrap()
}

#[test]
fn update_window_flow() {
    let mut s = UpdateUiState::new(SemVer::parse("1.0.0").unwrap());
    assert!(matches!(s.firmware_offer(), FirmwareOffer::NoRelease));
    assert!(s.can_check());
    s.begin_check();
    assert!(s.checking && !s.can_check());
    s.fail_check("offline");
    assert_eq!(s.error_message.as_deref(), Some("Failed to fetch release: offline"));
    s.begin_check();
    s.finish_check(latest("v1.1.0", true));
    assert!(!s.checking && s.bridge_update_available && !s.firmware_update_available);
    assert!(matches!(s.firmware_offer(), FirmwareOffer::Offer { enabled: true, needs_device_hint: true }));
    // The device reports an old firmware.
    assert_eq!(s.sync_firmware(Some((1, 0, 0))), Some(true));
    assert!(s.firmware_update_available);
    assert_eq!(s.sync_firmware(Some((1, 0, 0))), None);
    // Flash it.
    assert_eq!(s.begin_flash().as_deref(), Some("fw-url"));
    assert!(s.flash_in_progress && !s.can_check());
    assert!(matches!(s.firmware_offer(), FirmwareOffer::Offer { enabled: false, needs_device_hint: false }));
    s.set_flash_stage(FlashStage::Flashing { percent: 50 });
    s.flash_finished(Ok(()));
    assert!(!s.flash_in_progress && !s.firmware_update_available && s.flash_stage.is_none());
    // The device reconnects with the new version.
    assert_eq!(s.sync_firmware(Some((1, 1, 0))), Some(true));
    assert!(matches!(s.firmware_offer(), FirmwareOffer::UpToDate));
    // It disconnects.
    assert_eq!(s.sync_firmware(None), Some(true));
    assert!(s.firmware_current.is_none());
    assert_eq!(s.sync_firmware(None), None);
}

#[test]
fn flash_failures_are_reported() {
    let mut s = UpdateUiState::new(SemVer::parse("1.0.0").unwrap());
    assert_eq!(s.begin_flash(), None);
    assert_eq!(s.error_message.as_deref(), Some("No firmware binary found in latest release."));
    let _ = s.apply_release(latest("v1.0.0", false));
    assert!(matches!(s.firmware_offer(), FirmwareOffer::NoBinary));
    let _ = s.apply_release(latest("v1.0.0", true));
    assert!(s.begin_flash().is_some());
    s.download_failed("404");
    assert_eq!(s.error_message.as_deref(), Some("Download failed: 404"));
    assert!(s.begin_flash().is_some());
    s.bootloader_timed_out();
    assert_eq!(s.error_message.as_deref(), Some("Failed to enter bootloader mode (bridge timed out)."));
    assert!(s.begin_flash().is_some());
    s.flash_finished(Err("no sync".to_string()));
    assert_eq!(s.error_message.as_deref(), Some("Flash failed: no sync"));
    assert!(!s.flash_in_progress);
}
