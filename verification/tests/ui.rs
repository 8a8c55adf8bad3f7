use tortuga::config::{Config, EndpointConfig, GlobalConfig};
use tortuga::state::{EndpointState, EventLog, LogEvent, Status};
use tortuga::ui::{
    clock_cell, clock_time, dashboard_rows, endpoint_row, event_line, event_text, is_quit_key,
    recent_events, status_color, time_of_day_text, StatusColor,
};

fn make_ep(name: &str, url: &str) -> EndpointConfig {
    EndpointConfig {
        name: name.to_string(),
        url: url.to_string(),
        interval_secs: 30,
        expected_status: None,
        timeout_secs: 10,
        webhook_url: None,
        telegram_chat_id: None,
    }
}

#[test]
fn status_color_up_is_green() {
    assert_eq!(status_color(Some(&Status::Up)), StatusColor::Green);
}

#[test]
fn status_color_down_is_red() {
    assert_eq!(status_color(Some(&Status::Down)), StatusColor::Red);
}

#[test]
fn status_color_unknown_is_yellow() {
    assert_eq!(status_color(Some(&Status::Unknown)), StatusColor::Yellow);
}

#[test]
fn status_color_none_is_yellow() {
    assert_eq!(status_color(None), StatusColor::Yellow);
}

#[test]
fn row_without_state_shows_placeholders() {
    let ep = make_ep("svc", "https://x.com");
    let row = endpoint_row(&ep, None);
    assert_eq!(row.name, "svc");
    assert_eq!(row.url, "https://x.com");
    assert_eq!(row.status_label, "---");
    assert_eq!(row.color, StatusColor::Yellow);
    assert_eq!(row.http, "---");
    assert_eq!(row.response_ms, "---");
    assert_eq!(row.last_checked, "---");
}

#[test]
fn row_of_up_endpoint_shows_code_and_time() {
    let ep = make_ep("svc", "https://x.com");
    let es = EndpointState {
        status: Status::Up,
        last_code: Some(200),
        last_checked: Some(0),
        response_ms: Some(42),
        total_checks: 5,
        up_checks: 5,
    };
    let row = endpoint_row(&ep, Some(&es));
    assert_eq!(row.status_label, "UP");
    assert_eq!(row.color, StatusColor::Green);
    assert_eq!(row.http, "200");
    assert_eq!(row.response_ms, "42");
    assert_eq!(row.last_checked, "00:00:00");
}

#[test]
fn row_of_down_endpoint_without_code() {
    let ep = make_ep("svc", "https://x.com");
    let es = EndpointState {
        status: Status::Down,
        last_code: None,
        last_checked: None,
        response_ms: Some(18446744073709551615),
        total_checks: 3,
        up_checks: 0,
    };
    let row = endpoint_row(&ep, Some(&es));
    assert_eq!(row.status_label, "DOWN");
    assert_eq!(row.color, StatusColor::Red);
    assert_eq!(row.http, "---");
    assert_eq!(row.response_ms, "18446744073709551615");
}

#[test]
fn recent_events_newest_first_and_limited() {
    let mut log = EventLog::new();
    for i in 0..5 {
        log.record(LogEvent { ts: i, message: format!("m{}", i) });
    }
    let shown = recent_events(&log, 3);
    let ts: Vec<i64> = shown.iter().map(|e| e.ts).collect();
    assert_eq!(ts, vec![4, 3, 2]);
    assert_eq!(recent_events(&log, 10).len(), 5);
    assert!(recent_events(&log, 0).is_empty());
}

#[test]
fn quit_keys() {
    assert!(is_quit_key(Some('q'), false));
    assert!(is_quit_key(Some('Q'), true));
    assert!(is_quit_key(Some('c'), true));
    assert!(!is_quit_key(Some('c'), false));
    assert!(!is_quit_key(Some('x'), true));
    assert!(!is_quit_key(None, true));
}

#[test]
fn row_shows_time_of_last_check() {
    let ep = make_ep("svc", "https://x.com");
    // 2026-05-21 12:34:56.789 UTC
    let es = EndpointState { last_checked: Some(1_779_366_896_789), ..EndpointState::new() };
    assert_eq!(endpoint_row(&ep, Some(&es)).last_checked, "12:34:56");
}

#[test]
fn timed_out_endpoint_is_yellow() {
    let ep = make_ep("svc", "https://x.com");
    let es = EndpointState { status: Status::Unknown, total_checks: 1, ..EndpointState::new() };
    assert_eq!(endpoint_row(&ep, Some(&es)).color, StatusColor::Yellow);
}

#[test]
fn event_lines_start_with_time_of_day() {
    let ev = LogEvent { ts: 45_296_000, message: "[svc] --- → UP (HTTP 200)".to_string() };
    assert_eq!(event_text(&ev), "12:34:56 [svc] --- → UP (HTTP 200)");
    assert_eq!(event_line(None, "m"), " m");
    assert_eq!(event_line(Some("01:02:03".to_string()), "m"), "01:02:03 m");
    assert_eq!(clock_cell(None), "---");
    assert_eq!(clock_cell(Some("01:02:03".to_string())), "01:02:03");
}

#[test]
fn clock_time_is_utc_time_of_day() {
    assert_eq!(clock_time(0).as_deref(), Some("00:00:00"));
    assert_eq!(clock_time(45_296_999).as_deref(), Some("12:34:56"));
    assert_eq!(clock_time(86_399_000).as_deref(), Some("23:59:59"));
    assert_eq!(clock_time(-1).as_deref(), Some("23:59:59"));
    assert_eq!(clock_time(8_210_266_876_799_999).as_deref(), Some("23:59:59"));
    assert_eq!(clock_time(8_210_266_876_800_000), None);
    assert_eq!(clock_time(-8_334_601_228_800_000).as_deref(), Some("00:00:00"));
    assert_eq!(clock_time(-8_334_601_228_800_001), None);
    assert_eq!(clock_time(i64::MAX), None);
    assert_eq!(clock_time(i64::MIN), None);
}

#[test]
fn time_of_day_is_zero_padded() {
    assert_eq!(time_of_day_text(0), "00:00:00");
    assert_eq!(time_of_day_text(3_661), "01:01:01");
    assert_eq!(time_of_day_text(86_399), "23:59:59");
}

#[test]
fn dashboard_has_a_row_per_endpoint_in_order() {
    let cfg = Config {
        global: GlobalConfig::default(),
        endpoints: vec![make_ep("alpha", "https://alpha.example.com"), make_ep("beta", "https://beta.example.com")],
    };
    let mut state = tortuga::state::StateMap::new();
    state.insert(
        "beta".to_string(),
        EndpointState { status: Status::Down, last_code: Some(503), ..EndpointState::new() },
    );
    let rows = dashboard_rows(&cfg, &state);
    assert_eq!(rows.len(), 2);
    assert_eq!(rows[0].name, "alpha");
    assert_eq!(rows[0].status_label, "---");
    assert_eq!(rows[1].name, "beta");
    assert_eq!(rows[1].url, "https://beta.example.com");
    assert_eq!(rows[1].status_label, "DOWN");
    assert_eq!(rows[1].http, "503");
    assert_eq!(rows[1].color, StatusColor::Red);
}
