//! What the dashboard shows: row texts, colours, the visible events, and the
//! keys that quit.
use vstd::prelude::*;

use crate::alert::opt_view;
use crate::config::{Config, EndpointConfig};
use crate::monitor::{PollOutcome, check_fits, check_recorded, outcome_for, state_before};
use crate::state::{EndpointState, EventLog, LogEvent, StateMap, Status, status_text};
use crate::text::{decimal, decimal_string, two_digit_string, two_digits};

verus! {

/// The colour a status is drawn in.
#[derive(Debug, Clone, Copy, PartialEq, Eq, Structural)]
pub enum StatusColor {
    Green,
    Red,
    Yellow,
}

/// Green for up, red for down, yellow when unknown or never checked.
pub open spec fn color_of(status: Option<Status>) -> StatusColor {
    match status {
        Some(Status::Up) => StatusColor::Green,
        Some(Status::Down) => StatusColor::Red,
        _ => StatusColor::Yellow,
    }
}

/// The colour of a status cell; `None` when the endpoint has no state yet.
pub fn status_color(status: Option<&Status>) -> (c: StatusColor)
    ensures
        c == color_of(match status {
            Some(s) => Some(*s),
            None => None,
        }),
{
    match status {
        Some(Status::Up) => StatusColor::Green,
        Some(Status::Down) => StatusColor::Red,
        _ => StatusColor::Yellow,
    }
}

/// Whether a key press ends the dashboard: `q` or `Q` with any modifiers, or
/// `c` with exactly the Control modifier. `key` is the character of the key,
/// `None` for a key that is not a character.
pub fn is_quit_key(key: Option<char>, control_only: bool) -> (quit: bool)
    ensures
        quit == (key == Some('q') || key == Some('Q') || (key == Some('c') && control_only)),
{
    match key {
        Some('q') => true,
        Some('Q') => true,
        Some('c') => control_only,
        _ => false,
    }
}

/// The text shown in a cell that has no value yet.
pub open spec fn placeholder() -> Seq<char> {
    "---"@
}

/// A number cell: the number in decimal, or the placeholder when absent.
pub open spec fn number_cell(n: Option<nat>) -> Seq<char> {
    match n {
        Some(v) => decimal(v),
        None => placeholder(),
    }
}

/// The earliest time, in milliseconds since the Unix epoch, that chrono can
/// hold: January 1 of the year -262143, 00:00:00.000 UTC.
pub open spec fn chrono_min_millis() -> int {
    -8_334_601_228_800_000
}

/// The latest time, in milliseconds since the Unix epoch, that chrono can
/// hold: December 31 of the year 262142, 23:59:59.999 UTC.
pub open spec fn chrono_max_millis() -> int {
    8_210_266_876_799_999
}

/// Whether chrono can hold the time `ms` milliseconds after the Unix epoch.
pub open spec fn chrono_in_range(ms: i64) -> bool {
    chrono_min_millis() <= ms <= chrono_max_millis()
}

/// The seconds since midnight (UTC) of the time `ms` milliseconds after the
/// Unix epoch.
pub open spec fn seconds_of_day_of(ms: i64) -> int {
    (ms as int / 1000) % 86400
}

/// A time of day, given in seconds since midnight, written `HH:MM:SS`.
pub open spec fn hms_text(secs: nat) -> Seq<char> {
    two_digits(secs / 3600) + ":"@ + two_digits((secs % 3600) / 60) + ":"@ + two_digits(secs % 60)
}

/// The time of day (UTC) shown for `ms` milliseconds after the Unix epoch:
/// `HH:MM:SS`, or none for a time that chrono cannot hold.
pub open spec fn clock_text(ms: i64) -> Option<Seq<char>> {
    if chrono_in_range(ms) {
        Some(hms_text(seconds_of_day_of(ms) as nat))
    } else {
        None
    }
}

/// The seconds since midnight (UTC) of `ms` milliseconds after the Unix epoch,
/// from `chrono::DateTime::<Utc>::from_timestamp_millis` and
/// `Timelike::num_seconds_from_midnight`. `from_timestamp_millis` gives `None`
/// exactly for the times outside chrono's range (years -262143 to 262142);
/// inside it, the time of day is the whole seconds of `ms` modulo one day.
#[verifier::external_body]
fn seconds_of_day(ms: i64) -> (r: Option<u32>)
    ensures
        r is Some <==> chrono_in_range(ms),
        r matches Some(secs) ==> secs == seconds_of_day_of(ms),
{
    match chrono::DateTime::<chrono::Utc>::from_timestamp_millis(ms) {
        Some(dt) => Some(chrono::Timelike::num_seconds_from_midnight(&dt)),
        None => None,
    }
}

/// Writes a time of day, given in seconds since midnight, as `HH:MM:SS`.
pub fn time_of_day_text(secs: u32) -> (t: String)
    requires
        secs < 86400,
    ensures
        t@ == hms_text(secs as nat),
{
    let mut t = two_digit_string(secs / 3600);
    t.append(":");
    let minutes = two_digit_string((secs % 3600) / 60);
    t.append(minutes.as_str());
    t.append(":");
    let seconds = two_digit_string(secs % 60);
    t.append(seconds.as_str());
    t
}

/// The time of day (UTC) of `ms` milliseconds after the Unix epoch, written
/// `HH:MM:SS`; `None` for a time that chrono cannot hold.
pub fn clock_time(ms: i64) -> (t: Option<String>)
    ensures
        opt_view(t) == clock_text(ms),
{
    match seconds_of_day(ms) {
        Some(secs) => Some(time_of_day_text(secs)),
        None => None,
    }
}

/// A time cell: the time of day, or the placeholder when there is none.
pub open spec fn clock_cell_text(clock: Option<Seq<char>>) -> Seq<char> {
    match clock {
        Some(t) => t,
        None => placeholder(),
    }
}

/// The "last checked" cell of an endpoint whose recorded state is `es`.
pub open spec fn last_checked_text(es: Option<EndpointState>) -> Seq<char> {
    match es {
        Some(e) => match e.last_checked {
            Some(ms) => clock_cell_text(clock_text(ms)),
            None => placeholder(),
        },
        None => placeholder(),
    }
}

/// A line of the events panel: the time of day (empty when there is none),
/// a space, and the message.
pub open spec fn event_line_text(clock: Option<Seq<char>>, message: Seq<char>) -> Seq<char> {
    let prefix = match clock {
        Some(t) => t,
        None => Seq::<char>::empty(),
    };
    prefix + " "@ + message
}

/// Fills a time cell from a time of day that was written out, or from none.
pub fn clock_cell(clock: Option<String>) -> (t: String)
    ensures
        t@ == clock_cell_text(opt_view(clock)),
{
    match clock {
        Some(c) => c,
        None => String::from_str("---"),
    }
}

/// Builds a line of the events panel from the event's time of day, written
/// out (or none), and its message.
pub fn event_line(clock: Option<String>, message: &str) -> (t: String)
    ensures
        t@ == event_line_text(opt_view(clock), message@),
{
    let mut t = match clock {
        Some(c) => c,
        None => String::new(),
    };
    t.append(" ");
    t.append(message);
    t
}

/// The line that the events panel shows for `ev`: its time of day and its
/// message.
pub fn event_text(ev: &LogEvent) -> (t: String)
    ensures
        t@ == event_line_text(clock_text(ev.ts), ev.message@),
{
    let clock = clock_time(ev.ts);
    event_line(clock, ev.message.as_str())
}

/// The texts of one endpoint row of the table that do not depend on floating
/// point: name, URL, status label and colour, last HTTP code, last response
/// time and time of the last check.
#[derive(Debug, Clone)]
pub struct DashboardRow {
    pub name: String,
    pub url: String,
    pub status_label: &'static str,
    pub color: StatusColor,
    pub http: String,
    pub response_ms: String,
    pub last_checked: String,
}

fn number_text(n: Option<u64>) -> (t: String)
    ensures
        t@ == number_cell(match n {
            Some(v) => Some(v as nat),
            None => None,
        }),
{
    match n {
        Some(v) => decimal_string(v),
        None => String::from_str("---"),
    }
}

/// `row` is the row of endpoint `ep` whose recorded state is `es`: its name
/// and URL, the status label and colour (placeholder and yellow without a
/// state), the last HTTP code and response time in decimal, and the time of
/// day of the last check (placeholders where a value is missing).
pub open spec fn row_shows(row: DashboardRow, ep: EndpointConfig, es: Option<EndpointState>) -> bool {
    &&& row.name@ == ep.name@
    &&& row.url@ == ep.url@
    &&& row.status_label@ == match es {
        Some(e) => status_text(e.status),
        None => placeholder(),
    }
    &&& row.color == color_of(match es {
        Some(e) => Some(e.status),
        None => None,
    })
    &&& row.http@ == number_cell(match es {
        Some(e) => match e.last_code {
            Some(c) => Some(c as nat),
            None => None,
        },
        None => None,
    })
    &&& row.response_ms@ == number_cell(match es {
        Some(e) => match e.response_ms {
            Some(ms) => Some(ms as nat),
            None => None,
        },
        None => None,
    })
    &&& row.last_checked@ == last_checked_text(es)
}

/// The recorded state of `name` in table `m`, if any.
pub open spec fn lookup(m: Map<Seq<char>, EndpointState>, name: Seq<char>) -> Option<EndpointState> {
    if m.contains_key(name) {
        Some(m[name])
    } else {
        None
    }
}

/// Builds the endpoints table: one row per configured endpoint, in the
/// configuration's order, each from the endpoint's recorded state.
pub fn dashboard_rows(config: &Config, state: &StateMap) -> (rows: Vec<DashboardRow>)
    ensures
        rows.len() == config.endpoints.len(),
        forall|i: int|
            0 <= i < rows.len() ==> row_shows(
                #[trigger] rows[i],
                config.endpoints[i],
                lookup(state@, config.endpoints[i].name@),
            ),
{
    let n = config.endpoints.len();
    let mut rows: Vec<DashboardRow> = Vec::new();
    let mut i: usize = 0;
    while i < n
        invariant
            n == config.endpoints.len(),
            i <= n,
            rows.len() == i,
            forall|j: int|
                0 <= j < i ==> row_shows(
                    #[trigger] rows[j],
                    config.endpoints[j],
                    lookup(state@, config.endpoints[j].name@),
                ),
        decreases n - i,
    {
        let ep = &config.endpoints[i];
        let row = endpoint_row(ep, state.get(ep.name.as_str()));
        rows.push(row);
        i = i + 1;
    }
    rows
}

/// Builds the row of `ep`, whose recorded state is `es` (`None` when it has
/// none yet).
pub fn endpoint_row(ep: &EndpointConfig, es: Option<&EndpointState>) -> (row: DashboardRow)
    ensures
        row_shows(row, *ep, match es {
            Some(e) => Some(*e),
            None => None,
        }),
        (es is Some && es->0.last_checked is Some && chrono_in_range(es->0.last_checked->0))
            ==> row.last_checked@ == hms_text(
            ((es->0.last_checked->0 as int / 1000) % 86400) as nat,
        ),
        (es is None || es->0.last_checked is None) ==> row.last_checked@ == "---"@,
{
    let checked = match es {
        Some(e) => match e.last_checked {
            Some(t) => clock_cell(clock_time(t)),
            None => String::from_str("---"),
        },
        None => String::from_str("---"),
    };
    let (status_label, color, code, ms) = match es {
        Some(e) => (e.status.label(), status_color(Some(&e.status)), e.last_code, e.response_ms),
        None => ("---", status_color(None), None, None),
    };
    let code64: Option<u64> = match code {
        Some(c) => Some(c as u64),
        None => None,
    };
    DashboardRow {
        name: ep.name.clone(),
        url: ep.url.clone(),
        status_label,
        color,
        http: number_text(code64),
        response_ms: number_text(ms),
        last_checked: checked,
    }
}

/// A poll that timed out leaves the endpoint drawn in yellow, counted as one
/// more check that was not up.
pub proof fn lemma_timed_out_poll_is_yellow(
    m0: Map<Seq<char>, EndpointState>,
    l0: Seq<LogEvent>,
    m1: Map<Seq<char>, EndpointState>,
    l1: Seq<LogEvent>,
    name: Seq<char>,
    expected: Option<u16>,
    response_ms: u64,
    t: i64,
    changed: bool,
)
    requires
        check_recorded(
            m0,
            l0,
            m1,
            l1,
            name,
            outcome_for(PollOutcome::TimedOut, expected).0,
            outcome_for(PollOutcome::TimedOut, expected).1,
            response_ms,
            t,
            changed,
        ),
        check_fits(m0, name, Status::Unknown),
    ensures
        color_of(Some(m1[name].status)) == StatusColor::Yellow,
        m1[name].total_checks == state_before(m0, name).total_checks + 1,
        m1[name].up_checks == state_before(m0, name).up_checks,
        m1[name].last_code is None,
{
}

/// The events shown in a panel with room for `n` lines: the newest first, at
/// most `n` of them.
pub fn recent_events<'a>(log: &'a EventLog, n: usize) -> (r: Vec<&'a LogEvent>)
    ensures
        r.len() == if n < log@.len() {
            n as int
        } else {
            log@.len() as int
        },
        forall|i: int| 0 <= i < r.len() ==> *r[i] == log@[log@.len() - 1 - i],
{
    let events = log.events();
    let len = events.len();
    let count = if n < len {
        n
    } else {
        len
    };
    let mut r: Vec<&'a LogEvent> = Vec::new();
    let mut i: usize = 0;
    while i < count
        invariant
            events@ == log@,
            len == events.len(),
            count <= len,
            i <= count,
            r.len() == i,
            forall|j: int| 0 <= j < i ==> *r[j] == log@[len - 1 - j],
        decreases count - i,
    {
        r.push(&events[len - 1 - i]);
        i = i + 1;
    }
    r
}

/// The last-checked cell of a row shows the UTC time of day of the last
/// check whenever there is one that chrono can hold, whatever the endpoint's
/// status; two states with the same check time show the same cell.
pub proof fn lemma_row_shows_last_check_time(
    row: DashboardRow,
    other: DashboardRow,
    ep: EndpointConfig,
    e: EndpointState,
    f: EndpointState,
    ms: i64,
)
    requires
        row_shows(row, ep, Some(e)),
        row_shows(other, ep, Some(f)),
        e.last_checked == Some(ms),
        f.last_checked == e.last_checked,
    ensures
        chrono_in_range(ms) ==> row.last_checked@ == hms_text(((ms as int / 1000) % 86400) as nat),
        row.last_checked@ == other.last_checked@,
{
}

/// A time of day is written as two-digit hours, minutes and seconds separated
/// by colons: eight characters, with `:` third and sixth.
pub proof fn lemma_time_of_day_shape(secs: nat)
    requires
        secs < 86400,
    ensures
        hms_text(secs).len() == 8,
        hms_text(secs)[2] == ':',
        hms_text(secs)[5] == ':',
{
    reveal_strlit(":");
    assert(forall|d: nat| #[trigger] crate::text::digit_text(d).len() == 1) by {
        reveal_strlit("0");
        reveal_strlit("1");
        reveal_strlit("2");
        reveal_strlit("3");
        reveal_strlit("4");
        reveal_strlit("5");
        reveal_strlit("6");
        reveal_strlit("7");
        reveal_strlit("8");
        reveal_strlit("9");
    }
    let h = two_digits(secs / 3600);
    let m = two_digits((secs % 3600) / 60);
    assert(h.len() == 2);
    assert(m.len() == 2);
}

} // verus!
