//! Endpoint status, per-endpoint counters, the state table and the event log.
use vstd::prelude::*;

verus! {

/// The last known health of an endpoint.
#[derive(Debug, Clone, Copy, PartialEq, Eq, Structural)]
pub enum Status {
    Unknown,
    Up,
    Down,
}

/// The text shown for a status.
pub open spec fn status_text(s: Status) -> Seq<char> {
    match s {
        Status::Up => "UP"@,
        Status::Down => "DOWN"@,
        Status::Unknown => "---"@,
    }
}

impl Status {
    /// The dashboard label of the status: `UP`, `DOWN`, or `---` when unknown.
    pub fn label(&self) -> (s: &'static str)
        ensures
            s@ == status_text(*self),
    {
        match self {
            Status::Up => "UP",
            Status::Down => "DOWN",
            Status::Unknown => "---",
        }
    }
}


/// What the monitor knows of one endpoint. `last_checked` is the time of the
/// last check, in milliseconds since the Unix epoch (UTC).
#[derive(Debug, Clone, Copy, PartialEq, Eq, Structural)]
pub struct EndpointState {
    pub status: Status,
    pub last_code: Option<u16>,
    pub last_checked: Option<i64>,
    pub response_ms: Option<u64>,
    pub total_checks: u64,
    pub up_checks: u64,
}

/// The state of an endpoint that has never been checked.
pub open spec fn unchecked_state() -> EndpointState {
    EndpointState {
        status: Status::Unknown,
        last_code: None,
        last_checked: None,
        response_ms: None,
        total_checks: 0,
        up_checks: 0,
    }
}

impl EndpointState {
    /// A state with unknown status, no observations and zero counters.
    pub fn new() -> (s: Self)
        ensures
            s == unchecked_state(),
    {
        EndpointState {
            status: Status::Unknown,
            last_code: None,
            last_checked: None,
            response_ms: None,
            total_checks: 0,
            up_checks: 0,
        }
    }

    /// Up checks never outnumber checks, so the uptime is at most 100%.
    pub open spec fn counters_consistent(self) -> bool {
        self.up_checks <= self.total_checks
    }
}

/// The state of every endpoint that has been checked or loaded, keyed by the
/// endpoint's name; no name occurs twice.
pub struct StateMap {
    names: Vec<String>,
    states: Vec<EndpointState>,
}

impl StateMap {
    #[verifier::type_invariant]
    spec fn well_formed(self) -> bool {
        &&& self.names.len() == self.states.len()
        &&& forall|i: int, j: int|
            0 <= i < j < self.names.len() ==> #[trigger] self.names@[i]@ != #[trigger] self.names@[j]@
    }

    spec fn has_name_at(self, k: Seq<char>, i: int) -> bool {
        0 <= i < self.names.len() && self.names@[i]@ == k
    }
}

impl View for StateMap {
    type V = Map<Seq<char>, EndpointState>;

    closed spec fn view(&self) -> Map<Seq<char>, EndpointState> {
        Map::new(
            |k: Seq<char>| exists|i: int| self.has_name_at(k, i),
            |k: Seq<char>| self.states@[choose|i: int| self.has_name_at(k, i)],
        )
    }
}

impl StateMap {
    proof fn lemma_view_at(self, i: int)
        requires
            self.well_formed(),
            0 <= i < self.names.len(),
        ensures
            self@.contains_key(self.names@[i]@),
            self@[self.names@[i]@] == self.states@[i],
    {
        let k = self.names@[i]@;
        assert(self.has_name_at(k, i));
        let j = choose|j: int| self.has_name_at(k, j);
        assert(self.has_name_at(k, j));
        if j < i {
            assert(self.names@[j]@ != self.names@[i]@);
        } else if i < j {
            assert(self.names@[i]@ != self.names@[j]@);
        }
    }

    /// An empty table.
    pub fn new() -> (m: Self)
        ensures
            m@ == Map::<Seq<char>, EndpointState>::empty(),
    {
        let m = StateMap { names: Vec::new(), states: Vec::new() };
        assert(m@ =~= Map::<Seq<char>, EndpointState>::empty());
        m
    }

    /// The number of endpoints in the table.
    pub fn len(&self) -> (n: usize)
        ensures
            n == self@.len(),
    {
        proof {
            use_type_invariant(self);
            self.lemma_len();
        }
        self.names.len()
    }

    /// Whether the table holds no endpoint.
    pub fn is_empty(&self) -> (b: bool)
        ensures
            b == (self@.len() == 0),
    {
        self.len() == 0
    }

    proof fn lemma_len(self)
        requires
            self.well_formed(),
        ensures
            self@.dom().finite(),
            self@.len() == self.names.len(),
        decreases self.names.len(),
    {
        let keys = self.names@.map_values(|s: String| s@);
        assert(self@.dom() =~= keys.to_set()) by {
            assert forall|k: Seq<char>| self@.dom().contains(k) implies keys.to_set().contains(k) by {
                let i = choose|i: int| self.has_name_at(k, i);
                assert(keys[i] == k);
            }
            assert forall|k: Seq<char>| keys.to_set().contains(k) implies self@.dom().contains(k) by {
                let i = choose|i: int| 0 <= i < keys.len() && keys[i] == k;
                assert(self.has_name_at(k, i));
            }
        }
        assert(keys.no_duplicates()) by {
            assert forall|i: int, j: int| 0 <= i < keys.len() && 0 <= j < keys.len() && i != j
                implies keys[i] != keys[j] by {
                if i < j {
                    assert(self.names@[i]@ != self.names@[j]@);
                } else {
                    assert(self.names@[j]@ != self.names@[i]@);
                }
            }
        }
        keys.unique_seq_to_set();
    }

    fn find(&self, key: &String) -> (r: Option<usize>)
        ensures
            match r {
                Some(i) => i < self.names.len() && self.names@[i as int]@ == key@,
                None => !self@.contains_key(key@),
            },
    {
        let n = self.names.len();
        let mut i: usize = 0;
        while i < n
            invariant
                n == self.names.len(),
                i <= n,
                forall|j: int| 0 <= j < i ==> self.names@[j]@ != key@,
            decreases n - i,
        {
            if self.names[i].eq(key) {
                return Some(i);
            }
            i = i + 1;
        }
        assert(!self@.contains_key(key@)) by {
            if self@.contains_key(key@) {
                let j = choose|j: int| self.has_name_at(key@, j);
                assert(self.names@[j]@ != key@);
            }
        }
        None
    }

    /// The state recorded for `name`, if any.
    pub fn get(&self, name: &str) -> (r: Option<&EndpointState>)
        ensures
            r == (if self@.contains_key(name@) {
                Some(&self@[name@])
            } else {
                None
            }),
    {
        proof {
            use_type_invariant(self);
        }
        let key = name.to_owned();
        match self.find(&key) {
            Some(i) => {
                proof {
                    self.lemma_view_at(i as int);
                }
                Some(&self.states[i])
            },
            None => None,
        }
    }

    /// Records `state` under `name`, replacing what was there; returns the
    /// state it replaced.
    pub fn insert(&mut self, name: String, state: EndpointState) -> (previous: Option<EndpointState>)
        ensures
            final(self)@ == old(self)@.insert(name@, state),
            previous == (if old(self)@.contains_key(name@) {
                Some(old(self)@[name@])
            } else {
                None
            }),
    {
        let mut taken = StateMap::new();
        std::mem::swap(self, &mut taken);
        proof {
            use_type_invariant(&taken);
        }
        let ghost before = taken;
        let found = taken.find(&name);
        let StateMap { mut names, mut states } = taken;
        let ghost key = name@;
        let previous = match found {
            Some(i) => {
                proof {
                    before.lemma_view_at(i as int);
                }
                let prev = states[i];
                states.set(i, state);
                assert(names@ == before.names@);
                assert(states@ == before.states@.update(i as int, state));
                Some(prev)
            },
            None => {
                names.push(name);
                states.push(state);
                assert(names@.drop_last() =~= before.names@);
                None
            },
        };
        proof {
            Self::lemma_insert_view(before, StateMap { names, states }, key, state, found);
        }
        *self = StateMap { names, states };
        previous
    }

    proof fn lemma_insert_view(
        before: StateMap,
        after: StateMap,
        key: Seq<char>,
        state: EndpointState,
        found: Option<usize>,
    )
        requires
            before.well_formed(),
            match found {
                Some(i) => i < before.names.len() && before.names@[i as int]@ == key
                    && after.names@ == before.names@
                    && after.states@ == before.states@.update(i as int, state),
                None => !before@.contains_key(key)
                    && after.names@.len() == before.names@.len() + 1
                    && after.names@.drop_last() == before.names@
                    && after.names@.last()@ == key
                    && after.states@ == before.states@.push(state),
            },
        ensures
            after.well_formed(),
            after@ == before@.insert(key, state),
    {
        let n = before.names.len() as int;
        match found {
            Some(i) => {
                let i = i as int;
                assert(after.well_formed()) by {
                    assert forall|a: int, b: int| 0 <= a < b < after.names.len()
                        implies #[trigger] after.names@[a]@ != #[trigger] after.names@[b]@ by {
                        assert(before.names@[a]@ != before.names@[b]@);
                    }
                }
                assert forall|k: Seq<char>| #[trigger] after@.contains_key(k)
                    == before@.insert(key, state).contains_key(k) by {
                    if after@.contains_key(k) {
                        let j = choose|j: int| after.has_name_at(k, j);
                        assert(before.has_name_at(k, j));
                    }
                    if before@.contains_key(k) {
                        let j = choose|j: int| before.has_name_at(k, j);
                        assert(after.has_name_at(k, j));
                    }
                    if k == key {
                        assert(after.has_name_at(k, i));
                    }
                }
                assert forall|k: Seq<char>| #[trigger] after@.contains_key(k)
                    implies after@[k] == before@.insert(key, state)[k] by {
                    let j = choose|j: int| after.has_name_at(k, j);
                    after.lemma_view_at(j);
                    before.lemma_view_at(j);
                    if j < i {
                        assert(before.names@[j]@ != before.names@[i]@);
                    } else if i < j {
                        assert(before.names@[i]@ != before.names@[j]@);
                    }
                }
                assert(after@ =~= before@.insert(key, state));
            },
            None => {
                assert forall|a: int| 0 <= a < n implies after.names@[a] == before.names@[a] by {
                    assert(after.names@.drop_last()[a] == after.names@[a]);
                }
                assert(after.well_formed()) by {
                    assert forall|a: int, b: int| 0 <= a < b < after.names.len()
                        implies #[trigger] after.names@[a]@ != #[trigger] after.names@[b]@ by {
                        if b == n {
                            if after.names@[a]@ == key {
                                assert(before.has_name_at(key, a));
                            }
                        } else {
                            assert(before.names@[a]@ != before.names@[b]@);
                        }
                    }
                }
                assert forall|k: Seq<char>| #[trigger] after@.contains_key(k)
                    == before@.insert(key, state).contains_key(k) by {
                    if after@.contains_key(k) {
                        let j = choose|j: int| after.has_name_at(k, j);
                        if j < n {
                            assert(before.has_name_at(k, j));
                        }
                    }
                    if before@.contains_key(k) {
                        let j = choose|j: int| before.has_name_at(k, j);
                        assert(after.has_name_at(k, j));
                    }
                    if k == key {
                        assert(after.has_name_at(k, n));
                    }
                }
                assert forall|k: Seq<char>| #[trigger] after@.contains_key(k)
                    implies after@[k] == before@.insert(key, state)[k] by {
                    let j = choose|j: int| after.has_name_at(k, j);
                    after.lemma_view_at(j);
                    if j < n {
                        before.lemma_view_at(j);
                    }
                }
                assert(after@ =~= before@.insert(key, state));
            },
        }
    }
}

impl StateMap {
    /// Every endpoint of the table with its state, each name once.
    pub fn pairs(&self) -> (r: Vec<(String, EndpointState)>)
        ensures
            r.len() == self@.len(),
            forall|i: int| 0 <= i < r.len() ==> #[trigger] self@.contains_key(r[i].0@)
                && self@[r[i].0@] == r[i].1,
            forall|k: Seq<char>| #[trigger] self@.contains_key(k)
                ==> exists|i: int| 0 <= i < r.len() && r[i].0@ == k,
    {
        proof {
            use_type_invariant(self);
            self.lemma_len();
        }
        let n = self.names.len();
        let mut r: Vec<(String, EndpointState)> = Vec::new();
        let mut i: usize = 0;
        while i < n
            invariant
                n == self.names.len(),
                self.well_formed(),
                i <= n,
                r.len() == i,
                forall|j: int| 0 <= j < i ==> #[trigger] r[j].0@ == self.names@[j]@
                    && r[j].1 == self.states@[j],
            decreases n - i,
        {
            r.push((self.names[i].clone(), self.states[i]));
            i = i + 1;
        }
        proof {
            assert forall|j: int| 0 <= j < r.len() implies #[trigger] self@.contains_key(r[j].0@)
                && self@[r[j].0@] == r[j].1 by {
                assert(r[j].0@ == self.names@[j]@);
                self.lemma_view_at(j);
            }
            assert forall|k: Seq<char>| #[trigger] self@.contains_key(k)
                implies exists|j: int| 0 <= j < r.len() && r[j].0@ == k by {
                let j = choose|j: int| self.has_name_at(k, j);
                assert(r[j].0@ == self.names@[j]@);
            }
        }
        r
    }
}

/// The most events the log keeps; older ones are dropped first.
pub const LOG_CAPACITY: usize = 200;

/// A status change, stamped with its time in milliseconds since the Unix
/// epoch (UTC).
#[derive(Debug, Clone)]
pub struct LogEvent {
    pub ts: i64,
    pub message: String,
}

/// What is kept of `events` when one more event arrives: everything, or all
/// but the oldest event when the log is full.
pub open spec fn kept_before_push(events: Seq<LogEvent>) -> Seq<LogEvent> {
    if events.len() >= LOG_CAPACITY {
        events.drop_first()
    } else {
        events
    }
}

/// The log after `event` is appended to `events`, the oldest event being
/// dropped first if the log is full.
pub open spec fn capped_push(events: Seq<LogEvent>, event: LogEvent) -> Seq<LogEvent> {
    kept_before_push(events).push(event)
}

/// The recent status changes, oldest first, at most `LOG_CAPACITY` of them.
pub struct EventLog {
    events: Vec<LogEvent>,
}

impl EventLog {
    #[verifier::type_invariant]
    spec fn bounded(self) -> bool {
        self.events.len() <= LOG_CAPACITY
    }
}

impl View for EventLog {
    type V = Seq<LogEvent>;

    closed spec fn view(&self) -> Seq<LogEvent> {
        self.events@
    }
}

impl EventLog {
    /// An empty log.
    pub fn new() -> (log: Self)
        ensures
            log@ == Seq::<LogEvent>::empty(),
    {
        EventLog { events: Vec::new() }
    }

    /// The number of events held; never more than `LOG_CAPACITY`.
    pub fn len(&self) -> (n: usize)
        ensures
            n == self@.len(),
            n <= LOG_CAPACITY,
    {
        proof {
            use_type_invariant(self);
        }
        self.events.len()
    }

    /// Whether the log holds no event.
    pub fn is_empty(&self) -> (b: bool)
        ensures
            b == (self@.len() == 0),
    {
        self.events.len() == 0
    }

    /// The events held, oldest first.
    pub fn events(&self) -> (r: &Vec<LogEvent>)
        ensures
            r@ == self@,
    {
        &self.events
    }

    /// Appends `event`, dropping the oldest event first when the log is full.
    pub fn record(&mut self, event: LogEvent)
        ensures
            final(self)@ == capped_push(old(self)@, event),
            final(self)@.len() <= LOG_CAPACITY,
    {
        proof {
            use_type_invariant(&*self);
        }
        let mut events: Vec<LogEvent> = Vec::new();
        std::mem::swap(&mut events, &mut self.events);
        if events.len() >= LOG_CAPACITY {
            events.remove(0);
        }
        events.push(event);
        proof {
            assert(events@ =~= capped_push(old(self)@, event));
        }
        self.events = events;
    }
}

} // verus!
