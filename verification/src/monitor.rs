//! Turning one HTTP check into a status, and recording it.
use vstd::prelude::*;

use crate::state::{
    EndpointState, EventLog, LOG_CAPACITY, LogEvent, StateMap, Status, kept_before_push,
    status_text, unchecked_state,
};
use crate::config::EndpointConfig;
use crate::text::{decimal, decimal_string};

verus! {

/// The status that an HTTP response code means: with an expected code, only
/// that exact code is up; without one, any 2xx code is up.
pub open spec fn status_for(code: u16, expected: Option<u16>) -> Status {
    match expected {
        Some(exp) => if code == exp {
            Status::Up
        } else {
            Status::Down
        },
        None => if 200 <= code < 300 {
            Status::Up
        } else {
            Status::Down
        },
    }
}

/// Determines `Up`/`Down` from an HTTP response code.
/// `None` for `expected` means any 2xx is `Up`; otherwise an exact match is
/// required.
pub fn determine_status(code: u16, expected: Option<u16>) -> (s: Status)
    ensures
        s == status_for(code, expected),
        s != Status::Unknown,
        s == Status::Up <==> match expected {
            Some(exp) => code == exp,
            None => 200 <= code && code < 300,
        },
{
    match expected {
        Some(exp) => {
            if code == exp {
                Status::Up
            } else {
                Status::Down
            }
        },
        None => {
            if 200 <= code && code < 300 {
                Status::Up
            } else {
                Status::Down
            }
        },
    }
}

/// How one poll ended: with an HTTP response, by timing out, or by failing
/// in another way (connection refused, bad address, ...).
#[derive(Debug, Clone, Copy, PartialEq, Eq, Structural)]
pub enum PollOutcome {
    Response(u16),
    TimedOut,
    Failed,
}

/// The status and code recorded for a poll: the status that the response code
/// means when a response came; `Unknown` with no code when the request timed
/// out (the dashboard shows unknown and timed-out endpoints alike, in
/// yellow); `Down` with no code when the request failed otherwise.
pub open spec fn outcome_for(outcome: PollOutcome, expected: Option<u16>) -> (Status, Option<u16>) {
    match outcome {
        PollOutcome::Response(code) => (status_for(code, expected), Some(code)),
        PollOutcome::TimedOut => (Status::Unknown, None),
        PollOutcome::Failed => (Status::Down, None),
    }
}

/// Classifies the result of one poll.
pub fn check_outcome(outcome: PollOutcome, expected: Option<u16>) -> (r: (Status, Option<u16>))
    ensures
        r == outcome_for(outcome, expected),
        r.0 == Status::Unknown <==> outcome == PollOutcome::TimedOut,
        r.0 == Status::Up <==> match outcome {
            PollOutcome::Response(c) => match expected {
                Some(exp) => c == exp,
                None => 200 <= c && c < 300,
            },
            _ => false,
        },
        r.1 == match outcome {
            PollOutcome::Response(c) => Some(c),
            _ => None::<u16>,
        },
{
    match outcome {
        PollOutcome::Response(code) => (determine_status(code, expected), Some(code)),
        PollOutcome::TimedOut => (Status::Unknown, None),
        PollOutcome::Failed => (Status::Down, None),
    }
}

/// The state that `name` has before a check: its recorded state, or the state
/// of a never-checked endpoint.
pub open spec fn state_before(m: Map<Seq<char>, EndpointState>, name: Seq<char>) -> EndpointState {
    if m.contains_key(name) {
        m[name]
    } else {
        unchecked_state()
    }
}

/// The state of an endpoint after a check at time `t` (ms since the epoch)
/// that found `status`, with response `code`, in `response_ms` milliseconds.
pub open spec fn after_check(
    e: EndpointState,
    status: Status,
    code: Option<u16>,
    response_ms: u64,
    t: i64,
) -> EndpointState {
    EndpointState {
        status: status,
        last_code: code,
        last_checked: Some(t),
        response_ms: Some(response_ms),
        total_checks: (e.total_checks + 1) as u64,
        up_checks: if status == Status::Up {
            (e.up_checks + 1) as u64
        } else {
            e.up_checks
        },
    }
}

/// A check of `name` that found `status` fits the counters: neither counter
/// that it increments is already at its maximum.
pub open spec fn check_fits(m: Map<Seq<char>, EndpointState>, name: Seq<char>, status: Status) -> bool {
    let e = state_before(m, name);
    &&& e.total_checks < u64::MAX
    &&& (status == Status::Up ==> e.up_checks < u64::MAX)
}

/// The text of the suffix naming the HTTP code, if there is one.
pub open spec fn code_suffix(code: Option<u16>) -> Seq<char> {
    match code {
        Some(c) => " (HTTP "@ + decimal(c as nat) + ")"@,
        None => Seq::empty(),
    }
}

/// The event-log message for a change of `name` from `prev` to `next`, such as
/// `[api] UP → DOWN (HTTP 500)`.
pub open spec fn transition_text(name: Seq<char>, prev: Status, next: Status, code: Option<u16>) -> Seq<char> {
    "["@ + name + "] "@ + status_text(prev) + " → "@ + status_text(next) + code_suffix(code)
}

/// How one check of `name` at time `t` moves the table from `m0` to `m1` and
/// the log from `l0` to `l1`, and what it reports: the entry is updated, and a
/// change of status is reported and logged, once.
pub open spec fn check_recorded(
    m0: Map<Seq<char>, EndpointState>,
    l0: Seq<LogEvent>,
    m1: Map<Seq<char>, EndpointState>,
    l1: Seq<LogEvent>,
    name: Seq<char>,
    status: Status,
    code: Option<u16>,
    response_ms: u64,
    t: i64,
    changed: bool,
) -> bool {
    let prev = state_before(m0, name);
    &&& m1 == m0.insert(name, after_check(prev, status, code, response_ms, t))
    &&& changed == (prev.status != status)
    &&& if changed {
        &&& l1.len() > 0
        &&& l1.drop_last() == kept_before_push(l0)
        &&& l1.last().ts == t
        &&& l1.last().message@ == transition_text(name, prev.status, status, code)
    } else {
        l1 == l0
    }
}

/// Builds the event-log message for a change of `name` from `prev` to `next`.
pub fn transition_message(name: &str, prev: Status, next: Status, code: Option<u16>) -> (m: String)
    ensures
        m@ == transition_text(name@, prev, next, code),
{
    let mut m = String::from_str("[");
    m.append(name);
    m.append("] ");
    m.append(prev.label());
    m.append(" → ");
    m.append(next.label());
    match code {
        Some(c) => {
            m.append(" (HTTP ");
            let digits = decimal_string(c as u64);
            m.append(digits.as_str());
            m.append(")");
        },
        None => {},
    }
    m
}

/// Records one check of `name`, made at `now` (ms since the epoch), in the
/// table and the log. Returns `true` when the endpoint's status changed (the
/// caller should then fire an alert).
pub fn record_check(
    name: &str,
    new_status: Status,
    code: Option<u16>,
    response_ms: u64,
    now: i64,
    state: &mut StateMap,
    log: &mut EventLog,
) -> (changed: bool)
    requires
        check_fits(old(state)@, name@, new_status),
    ensures
        check_recorded(
            old(state)@,
            old(log)@,
            final(state)@,
            final(log)@,
            name@,
            new_status,
            code,
            response_ms,
            now,
            changed,
        ),
        final(state)@.contains_key(name@),
        final(state)@[name@].status == new_status,
        final(state)@[name@].last_code == code,
        final(state)@[name@].last_checked == Some(now),
        final(state)@[name@].response_ms == Some(response_ms),
        final(state)@[name@].total_checks == (if old(state)@.contains_key(name@) {
            old(state)@[name@].total_checks + 1
        } else {
            1
        }),
        final(state)@[name@].up_checks == (if old(state)@.contains_key(name@) {
            old(state)@[name@].up_checks
        } else {
            0
        }) + (if new_status == Status::Up {
            1int
        } else {
            0
        }),
{
    let prev = match state.get(name) {
        Some(e) => *e,
        None => EndpointState::new(),
    };
    let up_checks = if new_status == Status::Up {
        prev.up_checks + 1
    } else {
        prev.up_checks
    };
    let next = EndpointState {
        status: new_status,
        last_code: code,
        last_checked: Some(now),
        response_ms: Some(response_ms),
        total_checks: prev.total_checks + 1,
        up_checks: up_checks,
    };
    state.insert(name.to_owned(), next);
    let changed = prev.status != new_status;
    if changed {
        let message = transition_message(name, prev.status, new_status, code);
        log.record(LogEvent { ts: now, message });
        proof {
            assert(final(log)@.drop_last() =~= kept_before_push(old(log)@));
        }
    }
    changed
}

/// The current time in milliseconds since the Unix epoch, read from the
/// system clock (`std::time::SystemTime::now`) and converted by chrono's
/// `From<SystemTime> for DateTime<Utc>` and `DateTime::timestamp_millis`.
/// Nothing is said of the value: it is whatever the clock shows. The
/// conversion handles clocks set before the epoch; it fails only for a clock
/// beyond chrono's range of years -262143 to 262142.
#[verifier::external_body]
fn current_time_millis() -> (ms: i64) {
    chrono::DateTime::<chrono::Utc>::from(std::time::SystemTime::now()).timestamp_millis()
}

/// Applies one HTTP check result to the table and the log, stamped with the
/// current time. Returns `true` when the endpoint's status changed (the caller
/// should then fire an alert).
pub fn apply_check_result(
    name: &str,
    new_status: Status,
    code: Option<u16>,
    response_ms: u64,
    state: &mut StateMap,
    log: &mut EventLog,
) -> (changed: bool)
    requires
        check_fits(old(state)@, name@, new_status),
    ensures
        final(state)@.contains_key(name@),
        final(state)@[name@].last_checked is Some,
        check_recorded(
            old(state)@,
            old(log)@,
            final(state)@,
            final(log)@,
            name@,
            new_status,
            code,
            response_ms,
            final(state)@[name@].last_checked.unwrap(),
            changed,
        ),
{
    let now = current_time_millis();
    record_check(name, new_status, code, response_ms, now, state, log)
}

/// Whether a check of `name` that finds `status` can be recorded without a
/// counter overflowing; callers test this before recording.
pub fn can_record(state: &StateMap, name: &str, status: Status) -> (ok: bool)
    ensures
        ok == check_fits(state@, name@, status),
        ok <==> (state@.contains_key(name@) ==> (state@[name@].total_checks < u64::MAX && (
        status == Status::Up ==> state@[name@].up_checks < u64::MAX))),
{
    match state.get(name) {
        Some(e) => e.total_checks < u64::MAX && (status != Status::Up || e.up_checks < u64::MAX),
        None => true,
    }
}

/// Records the result of one poll of `ep`: how the request ended and the time
/// it took. A timed-out poll counts as a check that is not up and leaves the
/// endpoint `Unknown` (shown in yellow). Every change of status is logged;
/// alerts are for an endpoint going up or down, so the status to alert on is
/// returned when the status changed to `Up` or `Down`, and `None` is returned
/// otherwise (no change, or a change into a timeout).
pub fn poll_step(
    ep: &EndpointConfig,
    outcome: PollOutcome,
    elapsed_ms: u64,
    state: &mut StateMap,
    log: &mut EventLog,
) -> (alert: Option<Status>)
    requires
        check_fits(old(state)@, ep.name@, outcome_for(outcome, ep.expected_status).0),
    ensures
        ({
            let (status, code) = outcome_for(outcome, ep.expected_status);
            &&& final(state)@.contains_key(ep.name@)
            &&& final(state)@[ep.name@].last_checked is Some
            &&& check_recorded(
                old(state)@,
                old(log)@,
                final(state)@,
                final(log)@,
                ep.name@,
                status,
                code,
                elapsed_ms,
                final(state)@[ep.name@].last_checked.unwrap(),
                state_before(old(state)@, ep.name@).status != status,
            )
            &&& alert == if state_before(old(state)@, ep.name@).status != status
                && status != Status::Unknown {
                Some(status)
            } else {
                None
            }
        }),
{
    let (status, code) = check_outcome(outcome, ep.expected_status);
    let changed = apply_check_result(ep.name.as_str(), status, code, elapsed_ms, state, log);
    if changed && status != Status::Unknown {
        Some(status)
    } else {
        None
    }
}

/// A check never breaks the counters: if up checks did not outnumber checks
/// before, they do not after (uptime stays within 0..=100%).
pub proof fn lemma_check_keeps_counters_consistent(
    e: EndpointState,
    status: Status,
    code: Option<u16>,
    response_ms: u64,
    t: i64,
)
    requires
        e.counters_consistent(),
        e.total_checks < u64::MAX,
    ensures
        after_check(e, status, code, response_ms, t).counters_consistent(),
{
}

/// The first check of an endpoint that has no state yet always reports a
/// change, because a check finds `Up` or `Down` and a new endpoint is
/// `Unknown`; the change is logged as coming from the unknown status.
pub proof fn lemma_first_check_signals_change(
    m0: Map<Seq<char>, EndpointState>,
    l0: Seq<LogEvent>,
    m1: Map<Seq<char>, EndpointState>,
    l1: Seq<LogEvent>,
    name: Seq<char>,
    status: Status,
    code: Option<u16>,
    response_ms: u64,
    t: i64,
    changed: bool,
)
    requires
        check_recorded(m0, l0, m1, l1, name, status, code, response_ms, t, changed),
        !m0.contains_key(name),
        status != Status::Unknown,
    ensures
        changed,
        l1.len() > 0,
        l1.last().message@ == transition_text(name, Status::Unknown, status, code),
        m1[name].total_checks == 1,
{
}

/// Finding the same status twice in a row reports no change the second
/// time, and the second check adds nothing to the log.
pub proof fn lemma_same_status_again_no_change(
    m0: Map<Seq<char>, EndpointState>,
    l0: Seq<LogEvent>,
    m1: Map<Seq<char>, EndpointState>,
    l1: Seq<LogEvent>,
    m2: Map<Seq<char>, EndpointState>,
    l2: Seq<LogEvent>,
    name: Seq<char>,
    status: Status,
    code1: Option<u16>,
    ms1: u64,
    t1: i64,
    changed1: bool,
    code2: Option<u16>,
    ms2: u64,
    t2: i64,
    changed2: bool,
)
    requires
        check_recorded(m0, l0, m1, l1, name, status, code1, ms1, t1, changed1),
        check_recorded(m1, l1, m2, l2, name, status, code2, ms2, t2, changed2),
    ensures
        !changed2,
        l2 == l1,
{
}

/// A check of one endpoint leaves every other endpoint's state as it was.
pub proof fn lemma_check_leaves_others(
    m0: Map<Seq<char>, EndpointState>,
    l0: Seq<LogEvent>,
    m1: Map<Seq<char>, EndpointState>,
    l1: Seq<LogEvent>,
    name: Seq<char>,
    status: Status,
    code: Option<u16>,
    response_ms: u64,
    t: i64,
    changed: bool,
    other: Seq<char>,
)
    requires
        check_recorded(m0, l0, m1, l1, name, status, code, response_ms, t, changed),
        other != name,
    ensures
        m1.contains_key(other) == m0.contains_key(other),
        m0.contains_key(other) ==> m1[other] == m0[other],
{
}

/// One check: the status found, the response code, the response time and the
/// time of the check.
pub type CheckResult = (Status, Option<u16>, u64, i64);

/// The state of an endpoint after the checks `checks`, in order.
pub open spec fn after_checks(e: EndpointState, checks: Seq<CheckResult>) -> EndpointState
    decreases checks.len(),
{
    if checks.len() == 0 {
        e
    } else {
        let c = checks.last();
        after_check(after_checks(e, checks.drop_last()), c.0, c.1, c.2, c.3)
    }
}

/// How many of `checks` found the endpoint up.
pub open spec fn up_count(checks: Seq<CheckResult>) -> nat
    decreases checks.len(),
{
    if checks.len() == 0 {
        0
    } else {
        up_count(checks.drop_last()) + if checks.last().0 == Status::Up {
            1nat
        } else {
            0nat
        }
    }
}

/// Recording checks one after another on the same endpoint gives the state
/// of those checks applied in order to the endpoint's state before them.
pub proof fn lemma_checks_compose(
    tables: Seq<Map<Seq<char>, EndpointState>>,
    logs: Seq<Seq<LogEvent>>,
    changes: Seq<bool>,
    name: Seq<char>,
    checks: Seq<CheckResult>,
)
    requires
        tables.len() == checks.len() + 1,
        logs.len() == checks.len() + 1,
        changes.len() == checks.len(),
        forall|i: int|
            0 <= i < checks.len() ==> check_recorded(
                #[trigger] tables[i],
                logs[i],
                tables[i + 1],
                logs[i + 1],
                name,
                checks[i].0,
                checks[i].1,
                checks[i].2,
                checks[i].3,
                changes[i],
            ),
    ensures
        state_before(tables.last(), name) == after_checks(state_before(tables[0], name), checks),
    decreases checks.len(),
{
    if checks.len() > 0 {
        let n = checks.len() - 1;
        assert(check_recorded(
            tables[n],
            logs[n],
            tables[n + 1],
            logs[n + 1],
            name,
            checks[n].0,
            checks[n].1,
            checks[n].2,
            checks[n].3,
            changes[n],
        ));
        lemma_checks_compose(tables.drop_last(), logs.drop_last(), changes.drop_last(), name, checks.drop_last());
        assert(tables.drop_last().last() == tables[n]);
    }
}

/// Counters accumulate: after a series of checks, the check count has grown by
/// the number of checks and the up count by the number of checks that found
/// the endpoint up.
pub proof fn lemma_counters_accumulate(e: EndpointState, checks: Seq<CheckResult>)
    requires
        e.total_checks + checks.len() <= u64::MAX,
        e.up_checks + checks.len() <= u64::MAX,
    ensures
        after_checks(e, checks).total_checks == e.total_checks + checks.len(),
        after_checks(e, checks).up_checks == e.up_checks + up_count(checks),
        up_count(checks) <= checks.len(),
    decreases checks.len(),
{
    if checks.len() > 0 {
        lemma_counters_accumulate(e, checks.drop_last());
    }
}

/// A check never makes the log exceed `LOG_CAPACITY` events.
pub proof fn lemma_check_keeps_log_bounded(
    m0: Map<Seq<char>, EndpointState>,
    l0: Seq<LogEvent>,
    m1: Map<Seq<char>, EndpointState>,
    l1: Seq<LogEvent>,
    name: Seq<char>,
    status: Status,
    code: Option<u16>,
    response_ms: u64,
    t: i64,
    changed: bool,
)
    requires
        check_recorded(m0, l0, m1, l1, name, status, code, response_ms, t, changed),
        l0.len() <= LOG_CAPACITY,
    ensures
        l1.len() <= LOG_CAPACITY,
        changed && l0.len() < LOG_CAPACITY ==> l1.len() == l0.len() + 1,
{
    if changed {
        assert(l1.len() == l1.drop_last().len() + 1);
    }
}

/// A response is up exactly when it carries the expected code, or, with no
/// expected code, any 2xx code; a poll without a response is never up.
/// Whatever the expected code (2xx or not), it is matched exactly.
pub proof fn lemma_up_exactly_on_expected_code(outcome: PollOutcome, expected: Option<u16>)
    ensures
        outcome_for(outcome, expected).0 == Status::Up <==> (exists|c: u16|
            outcome == PollOutcome::Response(c) && match expected {
                Some(e) => c == e,
                None => 200 <= c < 300,
            }),
        forall|c: u16, e: u16|
            (#[trigger] status_for(c, Some(e)) == Status::Up) == (c == e),
        forall|c: u16|
            (#[trigger] status_for(c, None) == Status::Up) == (200 <= c < 300),
        forall|c: u16, e: Option<u16>| #[trigger] status_for(c, e) != Status::Unknown,
        outcome matches PollOutcome::Response(c) ==> outcome_for(outcome, expected).1 == Some(c),
{
    if let PollOutcome::Response(c) = outcome {
        assert(outcome == PollOutcome::Response(c));
    }
}

/// Every recorded check stamps the endpoint with its own time, status, code
/// and response time, whether or not the status changed, and counts one more
/// check (and one more up check when it found the endpoint up).
pub proof fn lemma_check_updates_entry(
    m0: Map<Seq<char>, EndpointState>,
    l0: Seq<LogEvent>,
    m1: Map<Seq<char>, EndpointState>,
    l1: Seq<LogEvent>,
    name: Seq<char>,
    status: Status,
    code: Option<u16>,
    response_ms: u64,
    t: i64,
    changed: bool,
)
    requires
        check_recorded(m0, l0, m1, l1, name, status, code, response_ms, t, changed),
        check_fits(m0, name, status),
    ensures
        m1.contains_key(name),
        m1[name].last_checked == Some(t),
        m1[name].status == status,
        m1[name].last_code == code,
        m1[name].response_ms == Some(response_ms),
        m0.contains_key(name) ==> m1[name].total_checks == m0[name].total_checks + 1,
        !m0.contains_key(name) ==> m1[name].total_checks == 1,
        m0.contains_key(name) ==> m1[name].up_checks == m0[name].up_checks + if status == Status::Up {
            1int
        } else {
            0
        },
        !m0.contains_key(name) ==> m1[name].up_checks == if status == Status::Up {
            1int
        } else {
            0
        },
{
}

/// Only full counters refuse a check: a check fits exactly when the counters
/// it increments are below their maximum; in particular any check of an
/// endpoint with no recorded state fits, whatever it found.
pub proof fn lemma_fits_unless_counter_full(m: Map<Seq<char>, EndpointState>, name: Seq<char>, status: Status)
    ensures
        !m.contains_key(name) ==> check_fits(m, name, status),
        m.contains_key(name) ==> (check_fits(m, name, status) <==> (m[name].total_checks < u64::MAX && (
        status == Status::Up ==> m[name].up_checks < u64::MAX))),
{
}

} // verus!
