use tortuga::state::{EndpointState, EventLog, LogEvent, StateMap, Status, LOG_CAPACITY};

#[test]
fn status_labels() {
    assert_eq!(Status::Up.label(), "UP");
    assert_eq!(Status::Down.label(), "DOWN");
    assert_eq!(Status::Unknown.label(), "---");
}

#[test]
fn new_endpoint_state_is_unknown_and_unchecked() {
    let s = EndpointState::new();
    assert_eq!(s.status, Status::Unknown);
    assert_eq!(s.last_code, None);
    assert_eq!(s.last_checked, None);
    assert_eq!(s.response_ms, None);
    assert_eq!(s.total_checks, 0);
    assert_eq!(s.up_checks, 0);
}

#[test]
fn state_map_insert_get_replace() {
    let mut m = StateMap::new();
    assert!(m.is_empty());
    assert!(m.get("api").is_none());
    let a = EndpointState { total_checks: 10, up_checks: 9, ..EndpointState::new() };
    assert_eq!(m.insert("api".to_string(), a), None);
    let b = EndpointState { status: Status::Down, total_checks: 3, ..EndpointState::new() };
    assert_eq!(m.insert("broken".to_string(), b), None);
    assert_eq!(m.len(), 2);
    assert_eq!(*m.get("api").unwrap(), a);
    assert_eq!(*m.get("broken").unwrap(), b);
    assert_eq!(m.insert("api".to_string(), b), Some(a));
    assert_eq!(m.len(), 2);
    assert_eq!(*m.get("api").unwrap(), b);
    let mut pairs = m.pairs();
    pairs.sort_by(|x, y| x.0.cmp(&y.0));
    assert_eq!(pairs, vec![("api".to_string(), b), ("broken".to_string(), b)]);
}

#[test]
fn event_log_keeps_the_newest_events() {
    let mut log = EventLog::new();
    assert!(log.is_empty());
    for i in 0..(LOG_CAPACITY as i64 + 5) {
        log.record(LogEvent { ts: i, message: format!("event {}", i) });
    }
    assert_eq!(log.len(), LOG_CAPACITY);
    assert_eq!(log.events()[0].ts, 5);
    assert_eq!(log.events()[0].message, "event 5");
    assert_eq!(log.events()[LOG_CAPACITY - 1].ts, LOG_CAPACITY as i64 + 4);
}
