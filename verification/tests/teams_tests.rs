use teams_presence_bridge::teams::{
    is_teams_log_name, newest_log_file, presence_from_log, LogFileEntry, OpenOutcome, TeamsClient, TeamsStep,
};

const P: &str = "UserPresenceAction: {cloud_context: https://teams.microsoft.com, availability: ";

fn line(status: &str) -> String {
    format!("2024-01-01T10:00:00 Info {}{}}} extra\n", P, status)
}

#[test]
fn last_presence_line_wins() {
    let text = format!("{}noise\n{}{}", line("Available"), line("Busy"), "tail without newline");
    assert_eq!(presence_from_log(&text), Some("Busy".to_string()));
}

#[test]
fn presence_unknown_is_ignored() {
    let text = format!("{}{}", line("Away"), line("PresenceUnknown"));
    assert_eq!(presence_from_log(&text), Some("Away".to_string()));
    assert_eq!(presence_from_log(&line("PresenceUnknown")), None);
}

#[test]
fn no_presence_lines_means_none() {
    assert_eq!(presence_from_log(""), None);
    assert_eq!(presence_from_log("hello\nworld\n"), None);
    // A presence line without its closing brace reports nothing.
    assert_eq!(presence_from_log(&format!("{}Busy\n", P)), None);
}

#[test]
fn presence_handles_crlf_and_unicode() {
    let text = format!("é {}DoNotDisturb}}\r\n", P);
    assert_eq!(presence_from_log(&text), Some("DoNotDisturb".to_string()));
    let text = format!("{}BeRightBack}}", P);
    assert_eq!(presence_from_log(&text), Some("BeRightBack".to_string()));
}

#[test]
fn log_names() {
    assert!(is_teams_log_name("MSTeams_2024-01-01.log"));
    assert!(is_teams_log_name("MSTeams_.log"));
    assert!(!is_teams_log_name("MSTeams_2024.txt"));
    assert!(!is_teams_log_name("teams_2024.log"));
    assert!(!is_teams_log_name("MSTeams_"));
}

fn entry(path: &str, name: Option<&str>, is_file: bool, t: Option<u128>) -> LogFileEntry {
    LogFileEntry { path: path.to_string(), file_name: name.map(|n| n.to_string()), is_file, modified_nanos: t }
}

#[test]
fn newest_log_is_chosen() {
    let entries = vec![
        entry("d/MSTeams_a.log", Some("MSTeams_a.log"), true, Some(100)),
        entry("d/MSTeams_b.log", Some("MSTeams_b.log"), true, Some(300)),
        entry("d/MSTeams_c.log", Some("MSTeams_c.log"), true, Some(300)),
        entry("d/other.log", Some("other.log"), true, Some(900)),
        entry("d/MSTeams_dir.log", Some("MSTeams_dir.log"), false, Some(999)),
        entry("d/MSTeams_x.log", Some("MSTeams_x.log"), true, None),
    ];
    assert_eq!(newest_log_file(&entries, &None), Some("d/MSTeams_b.log".to_string()));
    let none: Vec<LogFileEntry> = vec![entry("d/MSTeams_z.log", Some("MSTeams_z.log"), true, Some(0))];
    assert_eq!(newest_log_file(&none, &Some("cur".to_string())), Some("cur".to_string()));
    assert_eq!(newest_log_file(&Vec::new(), &None), None);
}

#[test]
fn client_follows_and_reads_incrementally() {
    let mut c = TeamsClient::new("logs".to_string());
    assert!(!c.has_valid_log());
    match c.begin_poll(false, 0) {
        TeamsStep::Done(p) => assert_eq!(p, None),
        _ => panic!("expected done"),
    }
    assert!(matches!(c.begin_poll(true, 0), TeamsStep::ScanDirectory));
    let entries = vec![entry("logs/MSTeams_1.log", Some("MSTeams_1.log"), true, Some(5))];
    match c.scanned(&entries, 0) {
        TeamsStep::OpenFile(f) => assert_eq!(f, "logs/MSTeams_1.log"),
        _ => panic!("expected open"),
    }
    assert!(c.has_valid_log());
    match c.opened(&OpenOutcome::Opened(Some(100))) {
        TeamsStep::ReadFrom(off) => assert_eq!(off, 0),
        _ => panic!("expected read"),
    }
    let first = line("Busy");
    match c.read(Some(&first)) {
        TeamsStep::Done(p) => assert_eq!(p, Some("Busy".to_string())),
        _ => panic!("expected done"),
    }
    assert_eq!(c.last_position(), first.len() as u64);
    // Within a minute, the directory is not scanned again.
    match c.begin_poll(true, 60_000) {
        TeamsStep::OpenFile(f) => assert_eq!(f, "logs/MSTeams_1.log"),
        _ => panic!("expected open"),
    }
    match c.opened(&OpenOutcome::Opened(Some(first.len() as u64))) {
        TeamsStep::ReadFrom(off) => assert_eq!(off, first.len() as u64),
        _ => panic!("expected read"),
    }
    // Nothing new: the last presence stays.
    match c.read(Some("")) {
        TeamsStep::Done(p) => assert_eq!(p, Some("Busy".to_string())),
        _ => panic!("expected done"),
    }
    // After more than a minute the directory is scanned again.
    assert!(matches!(c.begin_poll(true, 60_001), TeamsStep::ScanDirectory));
}

#[test]
fn shrunk_file_is_read_from_start() {
    let mut c = TeamsClient::new("logs".to_string());
    let entries = vec![entry("logs/MSTeams_1.log", Some("MSTeams_1.log"), true, Some(5))];
    let _ = c.begin_poll(true, 0);
    let _ = c.scanned(&entries, 0);
    let _ = c.opened(&OpenOutcome::Opened(None));
    let _ = c.read(Some(&line("Away")));
    assert!(c.last_position() > 10);
    match c.opened(&OpenOutcome::Opened(Some(10))) {
        TeamsStep::ReadFrom(off) => assert_eq!(off, 0),
        _ => panic!("expected read"),
    }
    match c.opened(&OpenOutcome::Failed) {
        TeamsStep::Done(p) => assert_eq!(p, Some("Away".to_string())),
        _ => panic!("expected done"),
    }
}

#[test]
fn rotation_to_a_newer_log_resets_the_offset() {
    let mut c = TeamsClient::new("logs".to_string());
    let first = vec![entry("logs/MSTeams_1.log", Some("MSTeams_1.log"), true, Some(5))];
    let _ = c.begin_poll(true, 0);
    let _ = c.scanned(&first, 0);
    let _ = c.opened(&OpenOutcome::Opened(None));
    let _ = c.read(Some(&line("Available")));
    let both = vec![
        entry("logs/MSTeams_1.log", Some("MSTeams_1.log"), true, Some(5)),
        entry("logs/MSTeams_2.log", Some("MSTeams_2.log"), true, Some(7)),
    ];
    match c.begin_poll(true, 70_000) {
        TeamsStep::ScanDirectory => {}
        _ => panic!("expected scan"),
    }
    match c.scanned(&both, 70_000) {
        TeamsStep::OpenFile(f) => assert_eq!(f, "logs/MSTeams_2.log"),
        _ => panic!("expected open"),
    }
    assert_eq!(c.last_position(), 0);
    assert_eq!(c.current_file().as_deref(), Some("logs/MSTeams_2.log"));
    assert_eq!(c.last_presence(), Some("Available".to_string()));
    assert_eq!(c.log_directory(), "logs");
}
