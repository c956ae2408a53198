use teams_presence_bridge::protocol::{
    answer_is_pong, bootloader_report, brightness_report, color_report, encode_report, is_target_device,
    parse_version_answer, ping_keeps_connection, ping_report, transition_params, transition_report,
    version_query_report, ReadOutcome, CMD_OFF, CMD_SOLID,
};

#[test]
fn reports_start_with_vendor_report_id() {
    assert_eq!(ping_report(), [0x06, 0x01, 0, 0, 0, 0]);
    assert_eq!(brightness_report(200), [0x06, 0x06, 200, 0, 0, 0]);
    assert_eq!(color_report(CMD_SOLID, 10, 20, 30), [0x06, 0x03, 10, 20, 30, 0]);
    assert_eq!(version_query_report(), [0x06, 0x0A, 0, 0, 0, 0]);
    assert_eq!(bootloader_report(), [0x06, 0x09, 0, 0, 0, 0]);
    assert_eq!(encode_report(CMD_OFF, 0, 0, 0, 0), [0x06, 0x02, 0, 0, 0, 0]);
}

#[test]
fn transition_is_sent_high_byte_first() {
    assert_eq!(transition_params(1500), (5, 220));
    assert_eq!(transition_params(0), (0, 0));
    assert_eq!(transition_params(65535), (255, 255));
    assert_eq!(transition_report(10000), [0x06, 0x07, 0x27, 0x10, 0, 0]);
    for v in [0u16, 1, 255, 256, 2000, 10000, 65535] {
        let (hi, lo) = transition_params(v);
        assert_eq!(((hi as u16) << 8) | lo as u16, v);
    }
}

#[test]
fn only_the_indicator_matches() {
    assert!(is_target_device(0xFF00, 0x2886, 0x0056));
    assert!(!is_target_device(0x0001, 0x2886, 0x0056));
    assert!(!is_target_device(0xFF00, 0x303a, 0x0056));
    assert!(!is_target_device(0xFF00, 0x2886, 0x0057));
}

#[test]
fn version_answer_needs_four_bytes_and_tag() {
    let buf = [0x0A, 1, 4, 2, 0, 0];
    assert_eq!(parse_version_answer(&ReadOutcome::Received(6), &buf), Some((1, 4, 2)));
    assert_eq!(parse_version_answer(&ReadOutcome::Received(3), &buf), None);
    assert_eq!(parse_version_answer(&ReadOutcome::Failed, &buf), None);
    let other = [0x02, 1, 4, 2, 0, 0];
    assert_eq!(parse_version_answer(&ReadOutcome::Received(6), &other), None);
}

#[test]
fn only_a_failed_read_drops_the_device() {
    assert!(!ping_keeps_connection(&ReadOutcome::Failed));
    assert!(ping_keeps_connection(&ReadOutcome::Received(0)));
    assert!(ping_keeps_connection(&ReadOutcome::Received(6)));
    assert!(answer_is_pong(1, &[0x01, 0]));
    assert!(!answer_is_pong(0, &[0x01, 0]));
    assert!(!answer_is_pong(1, &[0xFF, 0]));
}
