use std::time::{Duration, SystemTime};

use senseshift::tui::{
    packet_text, retry_text, ConnectionStatus, KeyCode, LogEntry, StatusColor, TargetInfo,
    TuiState, UiEvent, DEFAULT_MAX_LOGS, PAGE_LINES,
};

fn target(name: &str) -> (String, TargetInfo) {
    (
        name.to_string(),
        TargetInfo {
            name: name.to_string(),
            address: "127.0.0.1:9000".to_string(),
            transport: "UDP".to_string(),
            status: ConnectionStatus::Offline,
            last_packet_time: None,
            packet_count: 0,
            next_attempt_at: None,
        },
    )
}

fn log(message: &str) -> UiEvent {
    UiEvent::LogEntry(LogEntry {
        timestamp_millis: 0,
        level: "INFO".to_string(),
        target: "test".to_string(),
        message: message.to_string(),
    })
}

#[test]
fn status_labels() {
    assert_eq!(ConnectionStatus::Online.text(), "Online");
    assert_eq!(ConnectionStatus::Offline.text(), "Offline");
    assert_eq!(ConnectionStatus::Reconnecting.text(), "Reconnecting...");
    assert_eq!(ConnectionStatus::Failed.text(), "Failed");
    assert_eq!(ConnectionStatus::Online.emoji(), "🟢");
    assert_eq!(ConnectionStatus::Failed.emoji(), "🔴");
}

#[test]
fn new_state_is_empty() {
    let state = TuiState::new(vec![target("vrchat")]);
    assert_eq!(state.targets.len(), 1);
    assert!(state.logs.is_empty());
    assert_eq!(state.max_logs, DEFAULT_MAX_LOGS);
    assert_eq!(state.log_scroll, 0);
    assert!(!state.should_quit());
    assert!(!state.show_help);
}

#[test]
fn keys_quit_and_toggle_help() {
    let mut state = TuiState::new(vec![]);
    state.handle_key(KeyCode::Char('h'), false);
    assert!(state.show_help);
    state.handle_key(KeyCode::F(1), false);
    assert!(!state.show_help);
    state.handle_key(KeyCode::Char('c'), false);
    assert!(!state.should_quit());
    state.handle_key(KeyCode::Char('c'), true);
    assert!(state.should_quit());
}

#[test]
fn scrolling_stays_on_a_line() {
    let mut state = TuiState::new(vec![]);
    for i in 0..25 {
        state.handle_ui_event(log(&format!("line {i}")), SystemTime::UNIX_EPOCH);
    }
    assert_eq!(state.logs.len(), 25);
    state.handle_key(KeyCode::Up, false);
    assert_eq!(state.log_scroll, 0);
    state.handle_key(KeyCode::Down, false);
    assert_eq!(state.log_scroll, 1);
    state.handle_key(KeyCode::PageDown, false);
    assert_eq!(state.log_scroll, 1 + PAGE_LINES);
    state.handle_key(KeyCode::PageDown, false);
    assert_eq!(state.log_scroll, 21);
    state.handle_key(KeyCode::PageDown, false);
    assert_eq!(state.log_scroll, 24);
    state.handle_key(KeyCode::Down, false);
    assert_eq!(state.log_scroll, 24);
    state.handle_key(KeyCode::PageUp, false);
    assert_eq!(state.log_scroll, 14);
    state.handle_key(KeyCode::Home, false);
    assert_eq!(state.log_scroll, 0);
    state.handle_key(KeyCode::End, false);
    assert_eq!(state.log_scroll, 24);
    state.handle_ui_event(log("newest"), SystemTime::UNIX_EPOCH);
    assert_eq!(state.log_scroll, 0);
    assert_eq!(state.logs[0].message, "newest");
}

#[test]
fn logs_are_capped_latest_first() {
    let mut state = TuiState::new(vec![]);
    state.max_logs = 3;
    for i in 0..5 {
        state.handle_ui_event(log(&format!("line {i}")), SystemTime::UNIX_EPOCH);
    }
    let messages: Vec<&str> = state.logs.iter().map(|l| l.message.as_str()).collect();
    assert_eq!(messages, vec!["line 4", "line 3", "line 2"]);
}

#[test]
fn target_info_updates_or_adds() {
    let mut state = TuiState::new(vec![target("vrchat")]);
    state.handle_ui_event(
        UiEvent::TargetInfo {
            name: "vrchat".to_string(),
            address: "127.0.0.1:9100".to_string(),
            transport: "TCP".to_string(),
            status: ConnectionStatus::Online,
            next_attempt_at: None,
        },
        SystemTime::UNIX_EPOCH,
    );
    assert_eq!(state.targets.len(), 1);
    assert_eq!(state.targets[0].1.address, "127.0.0.1:9100");
    assert_eq!(state.targets[0].1.status, ConnectionStatus::Online);

    state.handle_ui_event(
        UiEvent::TargetInfo {
            name: "ableton".to_string(),
            address: "127.0.0.1:9002".to_string(),
            transport: "UDP".to_string(),
            status: ConnectionStatus::Reconnecting,
            next_attempt_at: None,
        },
        SystemTime::UNIX_EPOCH,
    );
    assert_eq!(state.targets.len(), 2);
    assert_eq!(state.targets[1].0, "ableton");
    assert_eq!(state.targets[1].1.packet_count, 0);
}

#[test]
fn packets_are_counted_for_known_targets() {
    let mut state = TuiState::new(vec![target("vrchat")]);
    let now = SystemTime::UNIX_EPOCH + Duration::from_secs(42);
    state.handle_ui_event(
        UiEvent::PacketReceived { target: "vrchat".to_string(), packet: "/a".to_string() },
        now,
    );
    state.handle_ui_event(
        UiEvent::PacketReceived { target: "unknown".to_string(), packet: "/b".to_string() },
        now,
    );
    assert_eq!(state.targets.len(), 1);
    assert_eq!(state.targets[0].1.packet_count, 1);
    assert_eq!(state.targets[0].1.last_packet_time, Some(now));
}

#[test]
fn status_colors() {
    assert_eq!(ConnectionStatus::Online.color(), StatusColor::Green);
    assert_eq!(ConnectionStatus::Offline.color(), StatusColor::Red);
    assert_eq!(ConnectionStatus::Reconnecting.color(), StatusColor::Yellow);
    assert_eq!(ConnectionStatus::Failed.color(), StatusColor::Red);
}

#[test]
fn target_annotations() {
    assert_eq!(packet_text(0), "");
    assert_eq!(packet_text(42), " (42)");
    assert_eq!(retry_text(None), "");
    assert_eq!(retry_text(Some(0)), " (retrying...)");
    assert_eq!(retry_text(Some(15)), " (retry in 15s)");
}

#[test]
fn draining_events_keeps_latest_lines_first() {
    let mut state = TuiState::new(vec![target("vrchat")]);
    state.max_logs = 3;
    state.handle_ui_event(log("old"), SystemTime::UNIX_EPOCH);
    state.handle_key(KeyCode::Down, false);
    state.handle_ui_events(
        vec![
            log("a"),
            UiEvent::PacketReceived { target: "vrchat".to_string(), packet: "p".to_string() },
            UiEvent::PacketReceived { target: "unknown".to_string(), packet: "p".to_string() },
            log("b"),
            log("c"),
        ],
        SystemTime::UNIX_EPOCH,
    );
    let messages: Vec<&str> = state.logs.iter().map(|l| l.message.as_str()).collect();
    assert_eq!(messages, vec!["c", "b", "a"]);
    assert_eq!(state.log_scroll, 0);
    assert_eq!(state.targets.len(), 1);
    assert_eq!(state.targets[0].1.packet_count, 1);

    let mut quiet = TuiState::new(vec![target("vrchat")]);
    quiet.handle_ui_event(log("one"), SystemTime::UNIX_EPOCH);
    quiet.handle_ui_event(log("two"), SystemTime::UNIX_EPOCH);
    quiet.handle_key(KeyCode::Down, false);
    quiet.handle_ui_events(
        vec![UiEvent::PacketReceived { target: "unknown".to_string(), packet: "p".to_string() }],
        SystemTime::UNIX_EPOCH,
    );
    assert_eq!(quiet.log_scroll, 1);
    assert_eq!(quiet.logs.len(), 2);
}
