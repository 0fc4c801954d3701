use ostui::module::host::log_panel::{LogLevel, LogPanel, MAX_ENTRIES};

#[test]
fn test_log_panel_push_and_len() {
    let mut panel = LogPanel::new();
    assert!(panel.is_empty());

    panel.push("10:00".into(), LogLevel::Info, "Started".into());
    assert_eq!(panel.len(), 1);

    panel.push("10:01".into(), LogLevel::Error, "Failed".into());
    assert_eq!(panel.len(), 2);
}

#[test]
fn test_log_panel_ring_buffer_limit() {
    let mut panel = LogPanel::new();
    for i in 0..250 {
        panel.push(format!("{i}"), LogLevel::Info, format!("msg-{i}"));
    }
    assert_eq!(panel.len(), MAX_ENTRIES);
    assert_eq!(panel.entries().front().unwrap().timestamp, "50");
    assert_eq!(panel.entries().back().unwrap().timestamp, "249");
}

#[test]
fn test_log_panel_clear() {
    let mut panel = LogPanel::new();
    panel.push("10:00".into(), LogLevel::Info, "test".into());
    panel.clear();
    assert!(panel.is_empty());
}

#[test]
fn test_log_level_labels() {
    assert_eq!(LogLevel::Info.label(), "INFO");
    assert_eq!(LogLevel::Success.label(), " OK ");
    assert_eq!(LogLevel::Warning.label(), "WARN");
    assert_eq!(LogLevel::Error.label(), "ERR ");
}

#[test]
fn pushing_keeps_the_most_recent_entries_in_order() {
    let mut panel = LogPanel::new();
    for i in 0..(MAX_ENTRIES + 3) {
        panel.push(format!("{i}"), LogLevel::Warning, format!("m{i}"));
    }
    let stamps: Vec<String> = panel.entries().iter().map(|e| e.timestamp.clone()).collect();
    assert_eq!(stamps.len(), MAX_ENTRIES);
    assert_eq!(stamps[0], "3");
    assert_eq!(stamps[MAX_ENTRIES - 1], format!("{}", MAX_ENTRIES + 2));
    assert_eq!(panel.entries().back().unwrap().message, format!("m{}", MAX_ENTRIES + 2));
}
