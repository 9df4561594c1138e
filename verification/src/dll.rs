//! The loaded-module table: one row per library-load origin, keyed by
//! the loaded path (or by the event summary when the path is unknown),
//! counting repeat loads and keeping the latest sighting.

use vstd::prelude::*;
use vstd::string::StringExecFns;
use crate::event::Event;
use crate::text::{spec_trim, str_eq, trim_spaces};

verus! {

/// One library-load origin as the table shows it.
#[derive(Debug, Clone)]
pub struct LoadedDll {
    pub name: String,
    pub path: String,
    pub first_seen_ms: u64,
    pub last_seen_ms: u64,
    pub count: u32,
    pub last_summary: String,
}

/// Only library-load events feed the table.
pub open spec fn spec_tracked(e: Event) -> bool {
    e.api@ == "DllLoad"@
}

/// The event's loaded path, whitespace trimmed.
pub open spec fn spec_event_path(e: Event) -> Seq<char> {
    spec_trim(e.result@)
}

/// The path tells nothing: empty, or the load-failure marker.
pub open spec fn spec_unknown_origin(e: Event) -> bool {
    spec_event_path(e).len() == 0 || spec_event_path(e) == "(failed)"@
}

/// The row key: the loaded path, or the event summary when the path
/// tells nothing.
pub open spec fn spec_event_key(e: Event) -> Seq<char> {
    if spec_unknown_origin(e) {
        e.summary@
    } else {
        spec_event_path(e)
    }
}

/// Start of the final path component: the index after the last path
/// separator, or zero when there is none.
pub open spec fn spec_base_start(p: Seq<char>) -> int
    decreases p.len(),
{
    if p.len() == 0 {
        0
    } else if p.last() == '\\' || p.last() == '/' {
        p.len() as int
    } else {
        spec_base_start(p.drop_last())
    }
}

/// The final component of a path, after the last `\` or `/`.
pub open spec fn spec_basename(p: Seq<char>) -> Seq<char> {
    p.subrange(spec_base_start(p), p.len() as int)
}

/// The display name of a fresh row.
pub open spec fn spec_new_name(e: Event) -> Seq<char> {
    if spec_unknown_origin(e) {
        "<unknown>"@
    } else {
        spec_basename(spec_event_path(e))
    }
}

fn is_separator(c: char) -> (r: bool)
    ensures
        r == (c == '\\' || c == '/'),
{
    c == '\\' || c == '/'
}

/// The final component of a path, after the last `\` or `/`.
pub fn basename<'a>(path: &'a str) -> (r: &'a str)
    ensures
        r@ == spec_basename(path@),
{
    let n = path.unicode_len();
    proof {
        assert(path@.take(n as int) =~= path@);
    }
    let mut k: usize = n;
    while k > 0 && !is_separator(path.get_char(k - 1))
        invariant
            k <= n == path@.len(),
            spec_base_start(path@) == spec_base_start(path@.take(k as int)),
        decreases k,
    {
        proof {
            assert(path@.take(k as int).drop_last() =~= path@.take(k as int - 1));
        }
        k -= 1;
    }
    proof {
        assert(spec_base_start(path@) == k as int);
        assert(path@.subrange(k as int, n as int) == path@.subrange(
            spec_base_start(path@),
            path@.len() as int,
        ));
    }
    path.substring_char(k, n)
}

/// The fields of one row, as mathematical values.
pub ghost struct DllRow {
    pub name: Seq<char>,
    pub path: Seq<char>,
    pub first_seen_ms: u64,
    pub last_seen_ms: u64,
    pub count: u32,
    pub last_summary: Seq<char>,
}

pub open spec fn spec_row_of(d: LoadedDll) -> DllRow {
    DllRow {
        name: d.name@,
        path: d.path@,
        first_seen_ms: d.first_seen_ms,
        last_seen_ms: d.last_seen_ms,
        count: d.count,
        last_summary: d.last_summary@,
    }
}

/// Index of the first key equal to `key`, if any.
pub open spec fn spec_find_key(keys: Seq<Seq<char>>, key: Seq<char>, i: int) -> Option<int>
    decreases keys.len() - i when 0 <= i <= keys.len()
{
    if i >= keys.len() {
        None
    } else if keys[i] == key {
        Some(i)
    } else {
        spec_find_key(keys, key, i + 1)
    }
}

proof fn lemma_find_key_none(keys: Seq<Seq<char>>, key: Seq<char>, i: int)
    requires
        0 <= i <= keys.len(),
        spec_find_key(keys, key, i) is None,
    ensures
        forall|k: int| i <= k < keys.len() ==> keys[k] != key,
    decreases keys.len() - i,
{
    if i < keys.len() {
        lemma_find_key_none(keys, key, i + 1);
    }
}

/// How a repeat load changes its row: the sighting time and summary are
/// replaced, the count saturates upward, and a non-empty path replaces
/// the stored one.
pub open spec fn spec_updated_row(was: DllRow, e: Event) -> DllRow {
    DllRow {
        name: was.name,
        path: if spec_event_path(e).len() > 0 {
            spec_event_path(e)
        } else {
            was.path
        },
        first_seen_ms: was.first_seen_ms,
        last_seen_ms: e.timestamp_ms,
        count: if was.count < u32::MAX {
            (was.count + 1) as u32
        } else {
            u32::MAX
        },
        last_summary: e.summary@,
    }
}

/// The row a load from a new origin appends.
pub open spec fn spec_new_row(e: Event) -> DllRow {
    DllRow {
        name: spec_new_name(e),
        path: spec_event_path(e),
        first_seen_ms: e.timestamp_ms,
        last_seen_ms: e.timestamp_ms,
        count: 1,
        last_summary: e.summary@,
    }
}

/// The whole table after one event: anything but a library-load event
/// changes nothing; a known origin's row is updated in place; a new
/// origin appends a row.
pub open spec fn spec_observe(keys: Seq<Seq<char>>, rows: Seq<DllRow>, e: Event) -> (Seq<
    Seq<char>,
>, Seq<DllRow>) {
    if !spec_tracked(e) {
        (keys, rows)
    } else {
        let key = spec_event_key(e);
        match spec_find_key(keys, key, 0) {
            Some(i) => (keys, rows.update(i, spec_updated_row(rows[i], e))),
            None => (keys.push(key), rows.push(spec_new_row(e))),
        }
    }
}

/// The table after a whole batch of events, oldest first.
pub open spec fn spec_observe_all(
    keys: Seq<Seq<char>>,
    rows: Seq<DllRow>,
    events: Seq<Event>,
) -> (Seq<Seq<char>>, Seq<DllRow>)
    decreases events.len(),
{
    if events.len() == 0 {
        (keys, rows)
    } else {
        let (k, r) = spec_observe(keys, rows, events[0]);
        spec_observe_all(k, r, events.drop_first())
    }
}

/// The loaded-module table. Rows are stored beside their keys; keys are
/// unique, so each origin has exactly one row.
#[derive(Debug)]
pub struct LoadedDlls {
    keys: Vec<String>,
    rows: Vec<LoadedDll>,
}

impl LoadedDlls {
    /// The row keys, as character sequences.
    pub closed spec fn spec_keys(&self) -> Seq<Seq<char>> {
        Seq::new(self.keys@.len(), |i: int| self.keys@[i]@)
    }

    /// The rows themselves.
    pub closed spec fn spec_rows(&self) -> Seq<LoadedDll> {
        self.rows@
    }

    /// The rows as mathematical values.
    pub open spec fn row_views(&self) -> Seq<DllRow> {
        self.spec_rows().map_values(|d: LoadedDll| spec_row_of(d))
    }

    /// One row per key, and no key twice.
    pub open spec fn wf(&self) -> bool {
        &&& self.spec_keys().len() == self.spec_rows().len()
        &&& forall|i: int, j: int|
            0 <= i < j < self.spec_keys().len() ==> self.spec_keys()[i] != self.spec_keys()[j]
    }

    /// The index of the row keyed `key`, if one exists.
    pub open spec fn spec_index_of(&self, key: Seq<char>) -> Option<int> {
        if exists|i: int| 0 <= i < self.spec_keys().len() && self.spec_keys()[i] == key {
            Some(choose|i: int| 0 <= i < self.spec_keys().len() && self.spec_keys()[i] == key)
        } else {
            None
        }
    }

    pub fn new() -> (t: LoadedDlls)
        ensures
            t.wf(),
            t.spec_rows().len() == 0,
    {
        LoadedDlls { keys: Vec::new(), rows: Vec::new() }
    }

    /// The rows, in insertion order.
    pub fn values(&self) -> (r: &Vec<LoadedDll>)
        ensures
            r@ == self.spec_rows(),
    {
        &self.rows
    }

    /// How many distinct origins have been seen.
    pub fn len(&self) -> (n: usize)
        ensures
            n == self.spec_rows().len(),
    {
        self.rows.len()
    }

    /// Feed one event into the table. Anything but a library-load event
    /// changes nothing. A load from a known origin updates that row; a
    /// load from a new origin appends one.
    pub fn observe_event(&mut self, event: &Event)
        requires
            old(self).wf(),
        ensures
            final(self).wf(),
            (final(self).spec_keys(), final(self).row_views()) == spec_observe(
                old(self).spec_keys(),
                old(self).row_views(),
                *event,
            ),
    {
        if !str_eq(event.api.as_str(), "DllLoad") {
            return ;
        }
        let path: String = String::from_str(trim_spaces(event.result.as_str()));
        let unknown = path.as_str().is_empty() || str_eq(path.as_str(), "(failed)");
        let key: String = if unknown {
            event.summary.clone()
        } else {
            path.clone()
        };
        proof {
            assert(key@ == spec_event_key(*event));
        }

        let mut i: usize = 0;
        while i < self.keys.len()
            invariant
                self.wf(),
                *self == *old(self),
                spec_tracked(*event),
                path@ == spec_event_path(*event),
                unknown == spec_unknown_origin(*event),
                key@ == spec_event_key(*event),
                i <= self.spec_keys().len(),
                spec_find_key(self.spec_keys(), key@, 0) == spec_find_key(
                    self.spec_keys(),
                    key@,
                    i as int,
                ),
            decreases self.keys@.len() - i,
        {
            if self.keys[i].eq(&key) {
                proof {
                    assert(self.spec_keys()[i as int] == key@);
                    assert(spec_find_key(old(self).spec_keys(), key@, 0) == Some(i as int));
                }
                let was = &self.rows[i];
                let new_count: u32 = if was.count < u32::MAX {
                    was.count + 1
                } else {
                    u32::MAX
                };
                let new_path: String = if path.as_str().is_empty() {
                    was.path.clone()
                } else {
                    path
                };
                let row = LoadedDll {
                    name: was.name.clone(),
                    path: new_path,
                    first_seen_ms: was.first_seen_ms,
                    last_seen_ms: event.timestamp_ms,
                    count: new_count,
                    last_summary: event.summary.clone(),
                };
                self.rows.set(i, row);
                proof {
                    assert(final(self).spec_keys() =~= old(self).spec_keys());
                    assert(final(self).row_views() =~= old(self).row_views().update(
                        i as int,
                        spec_updated_row(old(self).row_views()[i as int], *event),
                    ));
                }
                return ;
            }
            i += 1;
        }
        proof {
            assert(spec_find_key(old(self).spec_keys(), key@, 0) is None);
            lemma_find_key_none(old(self).spec_keys(), key@, 0);
        }
        let name: String = if unknown {
            String::from_str("<unknown>")
        } else {
            String::from_str(basename(path.as_str()))
        };
        let row = LoadedDll {
            name,
            path,
            first_seen_ms: event.timestamp_ms,
            last_seen_ms: event.timestamp_ms,
            count: 1,
            last_summary: event.summary.clone(),
        };
        self.keys.push(key);
        self.rows.push(row);
        proof {
            assert(final(self).spec_keys() =~= old(self).spec_keys().push(spec_event_key(*event)));
            assert(final(self).row_views() =~= old(self).row_views().push(spec_new_row(*event)));
        }
    }
}

} // verus!
