//! Housekeeping decisions: which port a new container gets, which ports
//! the scanner probes, which containers are orphans to clean up, how
//! recorded container ids are kept in step with Docker, and when a slot's
//! running state is reported.
use vstd::prelude::*;
use crate::events::Event;
use crate::models::{Project, Slot, slot_text};
use crate::text::{chars, from_chars, join, join_seq, slice_range, split_char, split_seq, starts_with_seq, starts_with_str, str_eq, views, lemma_split_nonempty, lemma_views_push, append_str, append_chars, i64_text, int_text};
use crate::proxy::{trim_leading};

verus! {

// ---------------------------------------------------------------------------
// Integers in text
// ---------------------------------------------------------------------------

/// The value of a string of ASCII digits.
pub open spec fn digits_value(d: Seq<char>) -> int
    decreases d.len(),
{
    if d.len() == 0 {
        0
    } else {
        digits_value(d.drop_last()) * 10 + ((d.last() as u32) - 48)
    }
}

/// All characters are ASCII digits.
pub open spec fn all_digits(d: Seq<char>) -> bool {
    forall|i: int| 0 <= i < d.len() ==> '0' <= #[trigger] d[i] && d[i] <= '9'
}

/// The `i64` a text denotes as `str::parse::<i64>` reads it: an optional
/// `+` or `-`, then one or more ASCII digits, within range.
pub open spec fn i64_of_text(s: Seq<char>) -> Option<i64> {
    let neg = s.len() > 0 && s[0] == '-';
    let signed = s.len() > 0 && (s[0] == '-' || s[0] == '+');
    let d = if signed {
        s.drop_first()
    } else {
        s
    };
    let v = if neg {
        -digits_value(d)
    } else {
        digits_value(d)
    };
    if d.len() > 0 && all_digits(d) && i64::MIN <= v <= i64::MAX {
        Some(v as i64)
    } else {
        None
    }
}

/// Reads an `i64` from text.
///
/// Trusted: `str::parse::<i64>`, documented (for `from_str_radix`) to take
/// an optional `+` or `-` followed by digits only, and to fail on anything
/// else or on overflow.
#[verifier::external_body]
fn parse_i64(s: &str) -> (r: Option<i64>)
    ensures
        r == i64_of_text(s@),
{
    s.parse::<i64>().ok()
}

// ---------------------------------------------------------------------------
// Ports
// ---------------------------------------------------------------------------

/// The first port of 15000..20000 not in `unavailable`.
pub open spec fn first_free_port_of(unavailable: Seq<i32>) -> Option<i32> {
    if exists|p: i32| 15000 <= p < 20000 && !unavailable.contains(p) {
        Some(choose|p: i32| 15000 <= p < 20000 && !unavailable.contains(p) && forall|q: i32|
            15000 <= q < p ==> unavailable.contains(q))
    } else {
        None
    }
}

/// The port a new standalone container gets: the lowest of 15000..20000
/// that is neither allocated nor held by another program.
pub fn first_free_port(unavailable: &Vec<i32>) -> (r: Option<i32>)
    ensures
        match r {
            Some(p) => 15000 <= p < 20000 && !unavailable@.contains(p) && forall|q: i32|
                15000 <= q < p ==> unavailable@.contains(q),
            None => forall|q: i32| 15000 <= q < 20000 ==> unavailable@.contains(q),
        },
{
    let mut port: i32 = 15000;
    while port < 20000
        invariant
            15000 <= port <= 20000,
            forall|q: i32| 15000 <= q < port ==> unavailable@.contains(q),
        decreases 20000 - port,
    {
        let mut found = false;
        let mut i: usize = 0;
        while i < unavailable.len()
            invariant
                i <= unavailable@.len(),
                found <==> exists|j: int| 0 <= j < i && unavailable@[j] == port,
            decreases unavailable@.len() - i,
        {
            if unavailable[i] == port {
                found = true;
            }
            i = i + 1;
        }
        if !found {
            return Some(port);
        }
        port = port + 1;
    }
    None
}

/// The error when every container port is taken.
pub open spec fn no_free_port_error() -> Seq<char> {
    "No available ports in Container range (15000-19999)"@
}

/// The port for a new standalone container (see `first_free_port`), or the
/// error that the range is full.
pub fn allocate_container_port(unavailable: &Vec<i32>) -> (r: Result<i32, String>)
    ensures
        match first_free_port_of(unavailable@) {
            Some(p) => r == Ok::<i32, String>(p),
            None => r matches Err(e) && e@ == no_free_port_error(),
        },
{
    match first_free_port(unavailable) {
        Some(p) => {
            proof {
                assert(exists|q: i32| 15000 <= q < 20000 && !unavailable@.contains(q));
            }
            Ok(p)
        },
        None => Err("No available ports in Container range (15000-19999)".to_owned()),
    }
}

/// The ports of `start..=end` the scanner probes: those not allocated.
pub fn ports_to_probe(start: u16, end: u16, allocated: &Vec<i32>) -> (r: Vec<u16>)
    ensures
        forall|k: int| 0 <= k < r@.len() ==> start <= #[trigger] r@[k] <= end && !allocated@.contains(
            r@[k] as i32,
        ),
        forall|p: u16| start <= p <= end && !allocated@.contains(p as i32) ==> r@.contains(p),
        forall|k: int, l: int| 0 <= k < l < r@.len() ==> r@[k] < r@[l],
{
    let mut out: Vec<u16> = Vec::new();
    if start > end {
        return out;
    }
    let mut p: u16 = start;
    loop
        invariant
            start <= p <= end,
            forall|k: int| 0 <= k < out@.len() ==> start <= #[trigger] out@[k] < p && !allocated@.contains(
                out@[k] as i32,
            ),
            forall|q: u16| start <= q < p && !allocated@.contains(q as i32) ==> out@.contains(q),
            forall|k: int, l: int| 0 <= k < l < out@.len() ==> out@[k] < out@[l],
        decreases end - p,
    {
        let mut taken = false;
        let mut i: usize = 0;
        while i < allocated.len()
            invariant
                i <= allocated@.len(),
                taken <==> exists|j: int| 0 <= j < i && allocated@[j] == p as i32,
            decreases allocated@.len() - i,
        {
            if allocated[i] == p as i32 {
                taken = true;
            }
            i = i + 1;
        }
        let ghost before = out@;
        assert(forall|q: u16| start <= q < p && !allocated@.contains(q as i32) ==> before.contains(q));
        if !taken {
            out.push(p);
            assert(out@[out@.len() - 1] == p);
            assert forall|q: u16| start <= q < p + 1 && !allocated@.contains(q as i32) implies out@.contains(q) by {
                if q < p {
                    assert(before.contains(q));
                    let k = choose|k: int| 0 <= k < before.len() && before[k] == q;
                    assert(out@[k] == q);
                } else {
                    assert(out@[out@.len() - 1] == q);
                }
            }
        } else {
            assert(allocated@.contains(p as i32));
        }
        if p == end {
            return out;
        }
        p = p + 1;
    }
}

// ---------------------------------------------------------------------------
// Orphan containers
// ---------------------------------------------------------------------------

/// A Docker state of a container that is not running.
pub open spec fn is_stopped_state(state: Seq<char>) -> bool {
    state == "exited"@ || state == "dead"@ || state == "created"@
}

/// Whether `ids` lists `id`.
pub open spec fn has_id(ids: Seq<i64>, id: i64) -> bool {
    ids.contains(id)
}

/// The texts of a vector of strings.
pub open spec fn texts(v: Seq<String>) -> Seq<Seq<char>> {
    v.map_values(|s: String| s@)
}

/// Whether the periodic cleanup removes a container: only stopped ones, and
/// of those every build container, project containers of projects that no
/// longer exist, and standalone containers no longer recorded.
pub open spec fn cleanup_removes(name: Seq<char>, state: Seq<char>, project_ids: Seq<i64>, names: Seq<Seq<char>>) -> bool {
    let n = trim_leading(name, '/');
    if !is_stopped_state(state) {
        false
    } else if starts_with_seq(n, "build-"@) {
        true
    } else if starts_with_seq(n, "project-"@) {
        let parts = split_seq(n.skip(8), '-');
        parts.len() == 2 && match i64_of_text(parts[0]) {
            Some(id) => (parts[1] == "blue"@ || parts[1] == "green"@) && !project_ids.contains(id),
            None => false,
        }
    } else if starts_with_seq(n, "container-"@) {
        !names.contains(n.skip(10))
    } else {
        false
    }
}

/// Whether the startup check removes a container (running or not): a
/// `project-{id}-{blue|green}` container of a project that no longer
/// exists, or a `container-{name}` container no longer recorded.
pub open spec fn startup_removes(name: Seq<char>, project_ids: Seq<i64>, names: Seq<Seq<char>>) -> bool {
    let n = trim_leading(name, '/');
    let parts = split_seq(n, '-');
    if parts.len() == 3 && parts[0] == "project"@ {
        match i64_of_text(parts[1]) {
            Some(id) => (parts[2] == "blue"@ || parts[2] == "green"@) && !project_ids.contains(id),
            None => false,
        }
    } else if parts.len() >= 2 && parts[0] == "container"@ {
        !names.contains(join_seq(parts.skip(1), "-"@))
    } else {
        false
    }
}

/// `s` without its leading `c`s.
fn trim_leading_exec(s: &[char], c: char) -> (r: Vec<char>)
    ensures
        r@ == trim_leading(s@, c),
{
    let n = s.len();
    let mut i: usize = 0;
    assert(s@.subrange(0, n as int) =~= s@);
    while i < n && s[i] == c
        invariant
            n == s@.len(),
            i <= n,
            trim_leading(s@, c) == trim_leading(s@.subrange(i as int, n as int), c),
        decreases n - i,
    {
        assert(s@.subrange(i as int, n as int).drop_first() =~= s@.subrange(i + 1, n as int));
        i = i + 1;
    }
    slice_range(s, i, n)
}

/// Whether `ids` lists `id`.
fn contains_id(ids: &Vec<i64>, id: i64) -> (r: bool)
    ensures
        r == ids@.contains(id),
{
    let mut i: usize = 0;
    while i < ids.len()
        invariant
            i <= ids@.len(),
            forall|j: int| 0 <= j < i ==> ids@[j] != id,
        decreases ids@.len() - i,
    {
        if ids[i] == id {
            assert(ids@[i as int] == id);
            return true;
        }
        i = i + 1;
    }
    false
}

/// Whether `names` lists `name`.
fn contains_name(names: &Vec<String>, name: &[char]) -> (r: bool)
    ensures
        r == texts(names@).contains(name@),
{
    let ghost ns = texts(names@);
    let mut i: usize = 0;
    while i < names.len()
        invariant
            i <= names@.len(),
            ns == texts(names@),
            forall|j: int| 0 <= j < i ==> ns[j] != name@,
        decreases names@.len() - i,
    {
        assert(ns[i as int] == names@[i as int]@);
        if crate::text::chars_eq(chars(names[i].as_str()).as_slice(), name) {
            return true;
        }
        i = i + 1;
    }
    false
}

/// The state of a container is a stopped one.
fn stopped_state(state: &str) -> (r: bool)
    ensures
        r == is_stopped_state(state@),
{
    str_eq(state, "exited") || str_eq(state, "dead") || str_eq(state, "created")
}

/// Decides which containers are orphans.
pub struct ContainerJanitor;

impl ContainerJanitor {
    /// Whether the periodic cleanup removes a container (see `cleanup_removes`).
    pub fn cleanup_removes(name: &str, state: &str, project_ids: &Vec<i64>, names: &Vec<String>) -> (r: bool)
        ensures
            r == cleanup_removes(name@, state@, project_ids@, texts(names@)),
    {
        let n = trim_leading_exec(chars(name).as_slice(), '/');
        if !stopped_state(state) {
            return false;
        }
        proof {
            reveal_strlit("project-");
            reveal_strlit("container-");
        }
        if starts_with_str(n.as_slice(), "build-") {
            true
        } else if starts_with_str(n.as_slice(), "project-") {
            let rest = slice_range(n.as_slice(), 8, n.len());
            assert(rest@ =~= n@.skip(8));
            let parts = split_char(rest.as_slice(), '-');
            if parts.len() != 2 {
                return false;
            }
            assert(views(parts@)[0] == parts@[0]@);
            assert(views(parts@)[1] == parts@[1]@);
            let first = from_chars(parts[0].as_slice());
            match parse_i64(first.as_str()) {
                Some(id) => {
                    let slot = from_chars(parts[1].as_slice());
                    (str_eq(slot.as_str(), "blue") || str_eq(slot.as_str(), "green")) && !contains_id(
                        project_ids,
                        id,
                    )
                },
                None => false,
            }
        } else if starts_with_str(n.as_slice(), "container-") {
            let rest = slice_range(n.as_slice(), 10, n.len());
            assert(rest@ =~= n@.skip(10));
            !contains_name(names, rest.as_slice())
        } else {
            false
        }
    }

    /// Whether the startup check removes a container (see `startup_removes`).
    pub fn startup_removes(name: &str, project_ids: &Vec<i64>, names: &Vec<String>) -> (r: bool)
        ensures
            r == startup_removes(name@, project_ids@, texts(names@)),
    {
        let n = trim_leading_exec(chars(name).as_slice(), '/');
        let parts = split_char(n.as_slice(), '-');
        proof {
            lemma_split_nonempty(n@, '-');
        }
        assert(views(parts@)[0] == parts@[0]@);
        let p0 = from_chars(parts[0].as_slice());
        if parts.len() == 3 && str_eq(p0.as_str(), "project") {
            assert(views(parts@)[1] == parts@[1]@);
            assert(views(parts@)[2] == parts@[2]@);
            let p1 = from_chars(parts[1].as_slice());
            match parse_i64(p1.as_str()) {
                Some(id) => {
                    let p2 = from_chars(parts[2].as_slice());
                    (str_eq(p2.as_str(), "blue") || str_eq(p2.as_str(), "green")) && !contains_id(
                        project_ids,
                        id,
                    )
                },
                None => false,
            }
        } else if parts.len() >= 2 && str_eq(p0.as_str(), "container") {
            let mut rest: Vec<Vec<char>> = Vec::new();
            let mut i: usize = 1;
            assert(views(parts@).skip(1).take(0) =~= views(rest@));
            while i < parts.len()
                invariant
                    1 <= i <= parts@.len(),
                    views(rest@) == views(parts@).skip(1).take(i - 1),
                decreases parts@.len() - i,
            {
                let piece = slice_range(parts[i].as_slice(), 0, parts[i].len());
                proof {
                    lemma_views_push(rest@, piece);
                    assert(piece@ =~= parts@[i as int]@);
                    assert(views(parts@).skip(1).take(i as int) =~= views(parts@).skip(1).take(i - 1).push(
                        parts@[i as int]@,
                    ));
                }
                rest.push(piece);
                i = i + 1;
            }
            assert(views(parts@).skip(1).take(parts@.len() - 1) =~= views(parts@).skip(1));
            let joined = join(&rest, "-");
            !contains_name(names, joined.as_slice())
        } else {
            false
        }
    }
}


// ---------------------------------------------------------------------------
// Slot states
// ---------------------------------------------------------------------------

/// The key of a project's slot.
pub open spec fn slot_key(project_id: i64, slot: Slot) -> (i64, Slot) {
    (project_id, slot)
}

/// Observing a slot's running state: whether it is reported (it differs
/// from the last one seen, or none was), and the states after.
pub open spec fn observe_model(m: Map<(i64, Slot), bool>, key: (i64, Slot), running: bool) -> (bool, Map<(i64, Slot), bool>) {
    (!(m.contains_key(key) && m[key] == running), m.insert(key, running))
}

/// The lowercase name of a slot.
pub open spec fn slot_lower(s: Slot) -> Seq<char> {
    match s {
        Slot::Blue => "blue"@,
        Slot::Green => "green"@,
    }
}

/// The last running state seen of each project slot.
pub struct SlotStateTracker {
    seen: Vec<(i64, Slot, bool)>,
}

/// The keys of the states seen.
pub open spec fn seen_keys(v: Seq<(i64, Slot, bool)>) -> Seq<(i64, Slot)> {
    v.map_values(|e: (i64, Slot, bool)| (e.0, e.1))
}

impl SlotStateTracker {
    /// Each slot occurs once.
    pub closed spec fn wf(&self) -> bool {
        seen_keys(self.seen@).no_duplicates()
    }

    /// The last state seen of each slot.
    pub closed spec fn states(&self) -> Map<(i64, Slot), bool> {
        Map::new(
            |k: (i64, Slot)| seen_keys(self.seen@).contains(k),
            |k: (i64, Slot)| self.seen@[seen_keys(self.seen@).index_of(k)].2,
        )
    }

    /// Nothing seen yet.
    pub fn new() -> (r: SlotStateTracker)
        ensures
            r.wf(),
            r.states() == Map::<(i64, Slot), bool>::empty(),
    {
        let r = SlotStateTracker { seen: Vec::new() };
        assert(seen_keys(r.seen@) =~= Seq::<(i64, Slot)>::empty());
        assert(r.states() =~= Map::<(i64, Slot), bool>::empty());
        r
    }

    /// Records a slot's running state; gives the event that reports it
    /// (`running` or `stopped`, for the container `project-{id}-{slot}`)
    /// when it differs from the last one seen.
    pub fn observe(&mut self, project_id: i64, slot: Slot, running: bool) -> (r: Option<Event>)
        requires
            old(self).wf(),
        ensures
            final(self).wf(),
            final(self).states() == observe_model(old(self).states(), slot_key(project_id, slot), running).1,
            r is Some == observe_model(old(self).states(), slot_key(project_id, slot), running).0,
            r matches Some(e) ==> (e matches Event::ContainerStatus { project_id: p, container_id: c, slot: s, status: st, .. }
                && p == project_id && s == slot && c@ == "project-"@ + int_text(project_id as int) + "-"@
                + slot_lower(slot) && st@ == if running {
                "running"@
            } else {
                "stopped"@
            }),
    {
        let ghost old_states = self.states();
        let ghost old_keys = seen_keys(self.seen@);
        let key = (project_id, slot);
        let mut idx: Option<usize> = None;
        let mut i: usize = 0;
        while i < self.seen.len()
            invariant
                i <= self.seen@.len(),
                old_keys == seen_keys(self.seen@),
                old_keys.no_duplicates(),
                match idx {
                    Some(j) => j < i && self.seen@[j as int].0 == project_id && self.seen@[j as int].1 == slot,
                    None => forall|j: int| 0 <= j < i ==> !(self.seen@[j].0 == project_id && self.seen@[j].1 == slot),
                },
            decreases self.seen@.len() - i,
        {
            if idx.is_none() && self.seen[i].0 == project_id && self.seen[i].1 == slot {
                idx = Some(i);
            }
            i = i + 1;
        }
        let changed = match idx {
            Some(j) => {
                proof {
                    assert(old_keys[j as int] == key);
                    assert(old_keys.contains(key));
                    let jj = old_keys.index_of(key);
                    assert(0 <= jj < old_keys.len() && old_keys[jj] == key);
                    if jj != j as int {
                        assert(old_keys[jj] != old_keys[j as int]);
                    }
                }
                let was = self.seen[j].2;
                self.seen.set(j, (project_id, slot, running));
                assert(seen_keys(self.seen@) =~= old_keys);
                assert forall|k: (i64, Slot)| #[trigger] seen_keys(self.seen@).contains(k) implies self.seen@[seen_keys(self.seen@).index_of(k)].2 == if k == key {
                    running
                } else {
                    old_states[k]
                } by {
                    let jj = old_keys.index_of(k);
                    assert(0 <= jj < old_keys.len() && old_keys[jj] == k);
                    if k == key {
                        if jj != j as int {
                            assert(old_keys[jj] != old_keys[j as int]);
                        }
                    } else {
                        assert(jj != j as int);
                    }
                }
                assert(self.states() =~= old_states.insert(key, running));
                was != running
            },
            None => {
                proof {
                    if old_keys.contains(key) {
                        let jj = choose|jj: int| 0 <= jj < old_keys.len() && old_keys[jj] == key;
                        assert(self.seen@[jj].0 == project_id && self.seen@[jj].1 == slot);
                    }
                }
                self.seen.push((project_id, slot, running));
                let ghost nk = seen_keys(self.seen@);
                assert(nk =~= old_keys.push(key));
                assert forall|a: int, b: int| 0 <= a < nk.len() && 0 <= b < nk.len() && a != b implies nk[a] != nk[b] by {
                    if a < old_keys.len() && b < old_keys.len() {
                        assert(old_keys[a] != old_keys[b]);
                    } else if a < old_keys.len() {
                        assert(old_keys[a] != key);
                    } else {
                        assert(old_keys[b] != key);
                    }
                }
                assert forall|k: (i64, Slot)| nk.contains(k) <==> (old_keys.contains(k) || k == key) by {
                    if nk.contains(k) {
                        let j = choose|j: int| 0 <= j < nk.len() && nk[j] == k;
                        if j < old_keys.len() {
                            assert(old_keys[j] == k);
                        }
                    }
                    if old_keys.contains(k) {
                        let j = choose|j: int| 0 <= j < old_keys.len() && old_keys[j] == k;
                        assert(nk[j] == k);
                    }
                    if k == key {
                        assert(nk[old_keys.len() as int] == k);
                    }
                }
                assert forall|k: (i64, Slot)| #[trigger] nk.contains(k) implies self.seen@[nk.index_of(k)].2 == if k == key {
                    running
                } else {
                    old_states[k]
                } by {
                    let j = nk.index_of(k);
                    assert(0 <= j < nk.len() && nk[j] == k);
                    if k != key {
                        assert(j < old_keys.len()) by {
                            if j == old_keys.len() {
                                assert(nk[j] == key);
                            }
                        }
                        assert(old_keys[j] == k);
                        let jj = old_keys.index_of(k);
                        assert(0 <= jj < old_keys.len() && old_keys[jj] == k);
                        if jj != j {
                            assert(old_keys[jj] != old_keys[j]);
                        }
                    } else {
                        if j != old_keys.len() {
                            assert(old_keys[j] == key);
                        }
                    }
                }
                assert(self.states() =~= old_states.insert(key, running));
                true
            },
        };
        if !changed {
            return None;
        }
        let mut name = chars("project-");
        append_chars(&mut name, i64_text(project_id).as_slice());
        append_str(&mut name, "-");
        match slot {
            Slot::Blue => append_str(&mut name, "blue"),
            Slot::Green => append_str(&mut name, "green"),
        }
        let status = if running {
            "running"
        } else {
            "stopped"
        };
        Some(Event::container_status(project_id, from_chars(name.as_slice()), slot, status.to_owned()))
    }
}

/// Reporting the same running state of a slot twice in a row reports it
/// only the first time.
pub proof fn law_repeated_state_is_silent(m: Map<(i64, Slot), bool>, key: (i64, Slot), running: bool)
    ensures
        !observe_model(observe_model(m, key, running).1, key, running).0,
{
}

/// The recorded container of a slot once Docker was asked about it: kept
/// when it runs, cleared when it does not; and whether that changed it.
pub fn reconcile_slot(recorded: &Option<String>, running: bool) -> (r: (Option<String>, bool))
    ensures
        match recorded {
            Some(c) => if running {
                r.0 == Some(*c) && !r.1
            } else {
                r.0 is None && r.1
            },
            None => r.0 is None && !r.1,
        },
{
    match recorded {
        Some(c) => {
            if running {
                (Some(c.clone()), false)
            } else {
                (None, true)
            }
        },
        None => (None, false),
    }
}

} // verus!
