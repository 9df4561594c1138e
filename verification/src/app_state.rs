//! The controller's view state: the process list, the live event log
//! with its filtered and sorted view, and the attach decisions.

use vstd::prelude::*;
use vstd::seq_lib::lemma_multiset_commutative;
use vstd::string::StringExecFns;
use vstd::string::StringSliceAdditionalSpecFns;
use vstd::utf8::encode_utf8;
use crate::bytes::compare_bytes;
use crate::dll::{spec_observe_all, LoadedDlls};
use crate::event::Event;
use crate::filters::{EventFilters, EventSort, EventSortColumn, spec_matches};
use crate::order::{
    bytes_lt,
    lemma_bytes_lt_asym,
    lemma_bytes_lt_irrefl,
    lemma_bytes_lt_trans,
    spec_bytes_lt,
};
use crate::text::{contains_str, spec_occurs, str_eq};

verus! {

/// One process of the system process list.
#[derive(Debug, Clone)]
pub struct ProcessEntry {
    pub pid: u32,
    pub name: String,
}

/// What the target-process panel asks the controller to do.
#[derive(Debug, Clone, Copy, PartialEq, Eq, Structural)]
pub enum LeftPanelAction {
    Attach(u32),
    RefreshProcesses,
    LaunchAndAttach,
}

/// Attaching to the controller's own process installs hooks in-process,
/// synchronously; any other target takes remote injection.
#[derive(Debug, Clone, Copy, PartialEq, Eq, Structural)]
pub enum AttachPlan {
    InstallLocalHooks,
    InjectRemote,
}

pub fn attach_plan(pid: u32, current_pid: u32) -> (r: AttachPlan)
    ensures
        r == (if pid == current_pid {
            AttachPlan::InstallLocalHooks
        } else {
            AttachPlan::InjectRemote
        }),
{
    if pid == current_pid {
        AttachPlan::InstallLocalHooks
    } else {
        AttachPlan::InjectRemote
    }
}

/// A numeric sort key with an index tiebreak, a total order.
pub open spec fn spec_num_key_lt(ta: u64, ia: int, tb: u64, ib: int) -> bool {
    ta < tb || (ta == tb && ia < ib)
}

/// A string sort key, then timestamp, then index: a total order.
pub open spec fn spec_str_key_lt(
    ka: Seq<u8>,
    ta: u64,
    ia: int,
    kb: Seq<u8>,
    tb: u64,
    ib: int,
) -> bool {
    spec_bytes_lt(ka, kb) || (ka == kb && spec_num_key_lt(ta, ia, tb, ib))
}

/// The ascending order of the event table on one column: the column's
/// key, ties broken by timestamp and then by event index, so the order
/// is total and the sorted view is unique.
pub open spec fn spec_asc_lt(events: Seq<Event>, column: EventSortColumn, a: int, b: int) -> bool {
    match column {
        EventSortColumn::Time => spec_num_key_lt(
            events[a].timestamp_ms,
            a,
            events[b].timestamp_ms,
            b,
        ),
        EventSortColumn::Api => spec_str_key_lt(
            encode_utf8(events[a].api@),
            events[a].timestamp_ms,
            a,
            encode_utf8(events[b].api@),
            events[b].timestamp_ms,
            b,
        ),
        EventSortColumn::Caller => spec_str_key_lt(
            encode_utf8(events[a].caller@),
            events[a].timestamp_ms,
            a,
            encode_utf8(events[b].caller@),
            events[b].timestamp_ms,
            b,
        ),
    }
}

/// The event table's order: descending reverses the whole comparison,
/// tiebreaks included.
pub open spec fn spec_event_lt(events: Seq<Event>, sort: EventSort, a: int, b: int) -> bool {
    if sort.descending {
        spec_asc_lt(events, sort.column, b, a)
    } else {
        spec_asc_lt(events, sort.column, a, b)
    }
}

proof fn lemma_asc_lt_asym(events: Seq<Event>, column: EventSortColumn, a: int, b: int)
    ensures
        !(spec_asc_lt(events, column, a, b) && spec_asc_lt(events, column, b, a)),
{
    match column {
        EventSortColumn::Time => {},
        EventSortColumn::Api => {
            let ka = encode_utf8(events[a].api@);
            let kb = encode_utf8(events[b].api@);
            if spec_bytes_lt(ka, kb) {
                lemma_bytes_lt_asym(ka, kb);
            }
            lemma_bytes_lt_irrefl(ka);
        },
        EventSortColumn::Caller => {
            let ka = encode_utf8(events[a].caller@);
            let kb = encode_utf8(events[b].caller@);
            if spec_bytes_lt(ka, kb) {
                lemma_bytes_lt_asym(ka, kb);
            }
            lemma_bytes_lt_irrefl(ka);
        },
    }
}

proof fn lemma_asc_lt_trans(events: Seq<Event>, column: EventSortColumn, a: int, b: int, c: int)
    requires
        spec_asc_lt(events, column, a, b),
        spec_asc_lt(events, column, b, c),
    ensures
        spec_asc_lt(events, column, a, c),
{
    match column {
        EventSortColumn::Time => {},
        EventSortColumn::Api => {
            let ka = encode_utf8(events[a].api@);
            let kb = encode_utf8(events[b].api@);
            let kc = encode_utf8(events[c].api@);
            if spec_bytes_lt(ka, kb) && spec_bytes_lt(kb, kc) {
                lemma_bytes_lt_trans(ka, kb, kc);
            }
        },
        EventSortColumn::Caller => {
            let ka = encode_utf8(events[a].caller@);
            let kb = encode_utf8(events[b].caller@);
            let kc = encode_utf8(events[c].caller@);
            if spec_bytes_lt(ka, kb) && spec_bytes_lt(kb, kc) {
                lemma_bytes_lt_trans(ka, kb, kc);
            }
        },
    }
}

/// The event order never holds both ways.
pub proof fn lemma_event_lt_asym(events: Seq<Event>, sort: EventSort, a: int, b: int)
    ensures
        !(spec_event_lt(events, sort, a, b) && spec_event_lt(events, sort, b, a)),
{
    lemma_asc_lt_asym(events, sort.column, a, b);
}

/// The event order chains.
pub proof fn lemma_event_lt_trans(events: Seq<Event>, sort: EventSort, a: int, b: int, c: int)
    requires
        spec_event_lt(events, sort, a, b),
        spec_event_lt(events, sort, b, c),
    ensures
        spec_event_lt(events, sort, a, c),
{
    if sort.descending {
        lemma_asc_lt_trans(events, sort.column, c, b, a);
    } else {
        lemma_asc_lt_trans(events, sort.column, a, b, c);
    }
}

/// An index sequence is sorted when no later entry precedes an earlier
/// one in the event order.
pub open spec fn spec_sorted_indices(events: Seq<Event>, sort: EventSort, s: Seq<usize>) -> bool {
    forall|i: int, j: int|
        0 <= i < j < s.len() ==> !spec_event_lt(
            events,
            sort,
            #[trigger] s[j] as int,
            #[trigger] s[i] as int,
        )
}

fn str_key_lt(ka: &str, ta: u64, ia: usize, kb: &str, tb: u64, ib: usize) -> (r: bool)
    ensures
        r == spec_str_key_lt(ka.spec_bytes(), ta, ia as int, kb.spec_bytes(), tb, ib as int),
{
    if bytes_lt(ka.as_bytes(), kb.as_bytes()) {
        true
    } else if compare_bytes(ka.as_bytes(), kb.as_bytes()) {
        ta < tb || (ta == tb && ia < ib)
    } else {
        false
    }
}

/// Whether event `a` precedes event `b` in the table's current order.
fn event_lt(events: &Vec<Event>, sort: EventSort, a: usize, b: usize) -> (r: bool)
    requires
        a < events@.len(),
        b < events@.len(),
    ensures
        r == spec_event_lt(events@, sort, a as int, b as int),
{
    let (x, y) = if sort.descending {
        (b, a)
    } else {
        (a, b)
    };
    let ex = &events[x];
    let ey = &events[y];
    match sort.column {
        EventSortColumn::Time => ex.timestamp_ms < ey.timestamp_ms || (ex.timestamp_ms
            == ey.timestamp_ms && x < y),
        EventSortColumn::Api => str_key_lt(
            ex.api.as_str(),
            ex.timestamp_ms,
            x,
            ey.api.as_str(),
            ey.timestamp_ms,
            y,
        ),
        EventSortColumn::Caller => str_key_lt(
            ex.caller.as_str(),
            ex.timestamp_ms,
            x,
            ey.caller.as_str(),
            ey.timestamp_ms,
            y,
        ),
    }
}

/// Inserting an element anywhere adds exactly it to the multiset.
proof fn lemma_insert_to_multiset(s: Seq<usize>, pos: int, x: usize)
    requires
        0 <= pos <= s.len(),
    ensures
        s.insert(pos, x).to_multiset() =~= s.to_multiset().insert(x),
{
    broadcast use vstd::seq_lib::group_to_multiset_ensures;
    broadcast use vstd::multiset::group_multiset_axioms;

    let l = s.subrange(0, pos);
    let r = s.subrange(pos, s.len() as int);
    assert(s.insert(pos, x) == l.push(x) + r);
    assert(s =~= l + r);
    assert(l.push(x).to_multiset() =~= l.to_multiset().insert(x));
    lemma_multiset_commutative(l.push(x), r);
    lemma_multiset_commutative(l, r);
    assert(s.insert(pos, x).to_multiset() =~= l.to_multiset().insert(x).add(r.to_multiset()));
    assert(l.to_multiset().insert(x).add(r.to_multiset()) =~= l.to_multiset().add(
        r.to_multiset(),
    ).insert(x));
}

/// Sort event indices by the table's current order, by insertion into a
/// sorted output: the result is a sorted permutation of the input.
fn sort_event_indices(events: &Vec<Event>, sort: EventSort, input: &Vec<usize>) -> (out: Vec<usize>)
    requires
        forall|k: int| 0 <= k < input@.len() ==> #[trigger] input@[k] < events@.len(),
    ensures
        out@.len() == input@.len(),
        out@.to_multiset() == input@.to_multiset(),
        forall|k: int| 0 <= k < out@.len() ==> #[trigger] out@[k] < events@.len(),
        spec_sorted_indices(events@, sort, out@),
{
    let mut out: Vec<usize> = Vec::new();
    proof {
        broadcast use vstd::seq_lib::group_to_multiset_ensures;

        assert(input@.take(0) =~= Seq::<usize>::empty());
        assert(out@.to_multiset() =~= input@.take(0).to_multiset());
    }
    let mut n: usize = 0;
    while n < input.len()
        invariant
            n <= input@.len(),
            out@.len() == n,
            forall|k: int| 0 <= k < input@.len() ==> #[trigger] input@[k] < events@.len(),
            forall|k: int| 0 <= k < out@.len() ==> #[trigger] out@[k] < events@.len(),
            spec_sorted_indices(events@, sort, out@),
            out@.to_multiset() == input@.take(n as int).to_multiset(),
        decreases input@.len() - n,
    {
        let x = input[n];
        let ghost s = out@;
        let mut pos: usize = 0;
        while pos < out.len() && !event_lt(events, sort, x, out[pos])
            invariant
                s == out@,
                pos <= out@.len(),
                x < events@.len(),
                forall|k: int| 0 <= k < out@.len() ==> #[trigger] out@[k] < events@.len(),
                forall|k: int|
                    0 <= k < pos ==> !spec_event_lt(
                        events@,
                        sort,
                        x as int,
                        (#[trigger] out@[k]) as int,
                    ),
            decreases out@.len() - pos,
        {
            pos += 1;
        }
        proof {
            s.insert_ensures(pos as int, x);
            lemma_insert_to_multiset(s, pos as int, x);
            assert(input@.take(n + 1) =~= input@.take(n as int).push(input@[n as int]));
            broadcast use vstd::seq_lib::group_to_multiset_ensures;

            let sp = s.insert(pos as int, x);
            assert forall|i: int, j: int| 0 <= i < j < sp.len() implies !spec_event_lt(
                events@,
                sort,
                sp[j] as int,
                sp[i] as int,
            ) by {
                if j < pos {
                    assert(sp[i] == s[i] && sp[j] == s[j]);
                } else if i > pos {
                    assert(sp[i] == s[i - 1] && sp[j] == s[j - 1]);
                } else if i < pos && j > pos {
                    assert(sp[i] == s[i] && sp[j] == s[j - 1]);
                } else if i == pos {
                    // x against a later element: the later element was at or
                    // after the insertion point, where x does not follow it
                    assert(sp[i] == x && sp[j] == s[j - 1]);
                    if spec_event_lt(events@, sort, s[j - 1] as int, x as int) {
                        if pos < s.len() {
                            if j - 1 > pos as int {
                                assert(!spec_event_lt(
                                    events@,
                                    sort,
                                    s[j - 1] as int,
                                    s[pos as int] as int,
                                ));
                                lemma_event_lt_asym(events@, sort, s[j - 1] as int, x as int);
                                lemma_event_lt_trans(
                                    events@,
                                    sort,
                                    s[j - 1] as int,
                                    x as int,
                                    s[pos as int] as int,
                                );
                            } else {
                                lemma_event_lt_asym(events@, sort, x as int, s[pos as int] as int);
                            }
                        }
                    }
                } else {
                    // an earlier element against x: the scan passed it, so x
                    // does not precede it
                    assert(j == pos && i < pos);
                    assert(sp[i] == s[i] && sp[j] == x);
                }
            }
        }
        out.insert(pos, x);
        n += 1;
    }
    proof {
        assert(input@.take(n as int) =~= input@);
        broadcast use vstd::seq_lib::group_to_multiset_ensures;

        assert(out@.len() == out@.to_multiset().len() && input@.len()
            == input@.to_multiset().len());
    }
    out
}

/// An event the table shows: library loads have their own view, and the
/// filters must admit it.
pub open spec fn spec_shown(f: EventFilters, e: Event) -> bool {
    e.api@ != "DllLoad"@ && spec_matches(f, e)
}

/// The indices of the shown events, in log order.
pub open spec fn spec_visible_prefix(events: Seq<Event>, f: EventFilters, k: int) -> Seq<usize>
    decreases k when 0 <= k <= events.len()
{
    if k <= 0 {
        Seq::empty()
    } else {
        let p = spec_visible_prefix(events, f, k - 1);
        if spec_shown(f, events[k - 1]) {
            p.push((k - 1) as usize)
        } else {
            p
        }
    }
}

/// The strict order on process entries: by name, then by process id.
pub open spec fn spec_process_lt(a: ProcessEntry, b: ProcessEntry) -> bool {
    spec_bytes_lt(encode_utf8(a.name@), encode_utf8(b.name@)) || (encode_utf8(a.name@)
        == encode_utf8(b.name@) && a.pid < b.pid)
}

pub open spec fn spec_sorted_processes(s: Seq<ProcessEntry>) -> bool {
    forall|i: int, j: int| 0 <= i < j < s.len() ==> !spec_process_lt(#[trigger] s[j], #[trigger] s[i])
}

proof fn lemma_process_lt_asym(a: ProcessEntry, b: ProcessEntry)
    ensures
        !(spec_process_lt(a, b) && spec_process_lt(b, a)),
{
    let ka = encode_utf8(a.name@);
    let kb = encode_utf8(b.name@);
    if spec_bytes_lt(ka, kb) {
        lemma_bytes_lt_asym(ka, kb);
    }
    lemma_bytes_lt_irrefl(ka);
}

proof fn lemma_process_lt_trans(a: ProcessEntry, b: ProcessEntry, c: ProcessEntry)
    requires
        spec_process_lt(a, b),
        spec_process_lt(b, c),
    ensures
        spec_process_lt(a, c),
{
    let ka = encode_utf8(a.name@);
    let kb = encode_utf8(b.name@);
    let kc = encode_utf8(c.name@);
    if spec_bytes_lt(ka, kb) && spec_bytes_lt(kb, kc) {
        lemma_bytes_lt_trans(ka, kb, kc);
    }
}

proof fn lemma_insert_to_multiset_process(s: Seq<ProcessEntry>, pos: int, x: ProcessEntry)
    requires
        0 <= pos <= s.len(),
    ensures
        s.insert(pos, x).to_multiset() =~= s.to_multiset().insert(x),
{
    broadcast use vstd::seq_lib::group_to_multiset_ensures;
    broadcast use vstd::multiset::group_multiset_axioms;

    let l = s.subrange(0, pos);
    let r = s.subrange(pos, s.len() as int);
    assert(s.insert(pos, x) == l.push(x) + r);
    assert(s =~= l + r);
    assert(l.push(x).to_multiset() =~= l.to_multiset().insert(x));
    lemma_multiset_commutative(l.push(x), r);
    lemma_multiset_commutative(l, r);
    assert(s.insert(pos, x).to_multiset() =~= l.to_multiset().insert(x).add(r.to_multiset()));
    assert(l.to_multiset().insert(x).add(r.to_multiset()) =~= l.to_multiset().add(
        r.to_multiset(),
    ).insert(x));
}

fn process_lt(a: &ProcessEntry, b: &ProcessEntry) -> (r: bool)
    ensures
        r == spec_process_lt(*a, *b),
{
    if bytes_lt(a.name.as_str().as_bytes(), b.name.as_str().as_bytes()) {
        true
    } else if compare_bytes(a.name.as_str().as_bytes(), b.name.as_str().as_bytes()) {
        a.pid < b.pid
    } else {
        false
    }
}

/// Sort process entries by name, then by process id: the result is a
/// sorted permutation of the input.
pub fn sort_process_entries(input: Vec<ProcessEntry>) -> (out: Vec<ProcessEntry>)
    ensures
        out@.len() == input@.len(),
        out@.to_multiset() == input@.to_multiset(),
        spec_sorted_processes(out@),
{
    let mut input = input;
    let mut out: Vec<ProcessEntry> = Vec::new();
    let ghost whole = input@;
    proof {
        broadcast use vstd::seq_lib::group_to_multiset_ensures;

        assert(whole.take(0) =~= Seq::<ProcessEntry>::empty());
        assert(out@.to_multiset() =~= whole.take(0).to_multiset());
    }
    let ghost mut n: int = 0;
    while input.len() > 0
        invariant
            0 <= n <= whole.len(),
            input@ == whole.skip(n),
            out@.len() == n,
            spec_sorted_processes(out@),
            out@.to_multiset() == whole.take(n).to_multiset(),
        decreases input@.len(),
    {
        let x = input.remove(0);
        proof {
            assert(x == whole[n]);
            assert(whole.skip(n).remove(0) =~= whole.skip(n + 1));
        }
        let ghost s = out@;
        let mut pos: usize = 0;
        while pos < out.len() && !process_lt(&x, &out[pos])
            invariant
                s == out@,
                pos <= out@.len(),
                forall|k: int| 0 <= k < pos ==> !spec_process_lt(x, #[trigger] out@[k]),
            decreases out@.len() - pos,
        {
            pos += 1;
        }
        proof {
            s.insert_ensures(pos as int, x);
            lemma_insert_to_multiset_process(s, pos as int, x);
            assert(whole.take(n + 1) =~= whole.take(n).push(whole[n]));
            broadcast use vstd::seq_lib::group_to_multiset_ensures;

            let sp = s.insert(pos as int, x);
            assert forall|i: int, j: int| 0 <= i < j < sp.len() implies !spec_process_lt(
                sp[j],
                sp[i],
            ) by {
                if j < pos {
                    assert(sp[i] == s[i] && sp[j] == s[j]);
                } else if i > pos {
                    assert(sp[i] == s[i - 1] && sp[j] == s[j - 1]);
                } else if i < pos && j > pos {
                    assert(sp[i] == s[i] && sp[j] == s[j - 1]);
                } else if i == pos {
                    assert(sp[i] == x && sp[j] == s[j - 1]);
                    if spec_process_lt(s[j - 1], x) {
                        if pos < s.len() {
                            if j - 1 > pos as int {
                                lemma_process_lt_asym(s[j - 1], x);
                                lemma_process_lt_trans(s[j - 1], x, s[pos as int]);
                            } else {
                                lemma_process_lt_asym(x, s[pos as int]);
                            }
                        }
                    }
                } else {
                    assert(j == pos && i < pos);
                    assert(sp[i] == s[i] && sp[j] == x);
                }
            }
        }
        out.insert(pos, x);
        proof {
            n = n + 1;
        }
    }
    proof {
        assert(whole.take(n) =~= whole);
        broadcast use vstd::seq_lib::group_to_multiset_ensures;

        assert(out@.len() == out@.to_multiset().len() && whole.len() == whole.to_multiset().len());
    }
    out
}

/// The controller's whole view state.
#[derive(Debug)]
pub struct WinApiTraceApp {
    pub pid_input: String,
    pub launch_exe_path: String,
    pub attach_status: String,
    pub events: Vec<Event>,
    pub filters: EventFilters,
    pub selected_event: Option<usize>,
    pub dlls: LoadedDlls,
    pub dll_query: String,
    pub processes: Vec<ProcessEntry>,
    pub selected_process: Option<usize>,
}

impl WinApiTraceApp {
    pub open spec fn wf(&self) -> bool {
        self.dlls.wf()
    }

    /// The initial state: nothing attached, no events, the default
    /// filters.
    pub fn new() -> (app: WinApiTraceApp)
        ensures
            app.wf(),
            app.pid_input@.len() == 0,
            app.launch_exe_path@.len() == 0,
            app.attach_status@ == "Not attached"@,
            app.events@.len() == 0,
            app.selected_event is None,
            app.dlls.spec_rows().len() == 0,
            app.processes@.len() == 0,
            app.selected_process is None,
    {
        WinApiTraceApp {
            pid_input: String::new(),
            launch_exe_path: String::new(),
            attach_status: String::from_str("Not attached"),
            events: Vec::new(),
            filters: EventFilters {
                text_query: String::new(),
                api_scope: crate::filters::ApiScope::DirectDrawCallsOnly,
                sort: EventSort { column: EventSortColumn::Time, descending: false },
            },
            selected_event: None,
            dlls: LoadedDlls::new(),
            dll_query: String::new(),
            processes: Vec::new(),
            selected_process: None,
        }
    }

    /// Whether a failed attach right after resuming a suspended target
    /// is worth retrying: only the transient "target not fully
    /// initialized" diagnostics qualify.
    pub fn should_retry_attach_after_resume(error: &str) -> (r: bool)
        ensures
            r == ({
                ||| spec_occurs(error.spec_bytes(), "GetLastError=299".spec_bytes())
                ||| spec_occurs(error.spec_bytes(), "last error=299".spec_bytes())
                ||| spec_occurs(error.spec_bytes(), "ERROR_PARTIAL_COPY".spec_bytes())
                ||| spec_occurs(error.spec_bytes(), "ERROR_BAD_LENGTH".spec_bytes())
            }),
    {
        contains_str(error, "GetLastError=299") || contains_str(error, "last error=299")
            || contains_str(error, "ERROR_PARTIAL_COPY") || contains_str(
            error,
            "ERROR_BAD_LENGTH",
        )
    }

    /// Take the outcome of a process enumeration: a fresh list replaces
    /// the shown one, sorted by name and process id, and a selection
    /// that fell off the end is cleared; a failure only updates the
    /// status line.
    pub fn refresh_process_list(&mut self, listing: Result<Vec<ProcessEntry>, String>)
        requires
            old(self).wf(),
        ensures
            final(self).wf(),
            final(self).events@ == old(self).events@,
            match listing {
                Ok(list) => {
                    &&& final(self).processes@.to_multiset() == list@.to_multiset()
                    &&& spec_sorted_processes(final(self).processes@)
                    &&& final(self).selected_process == (match old(self).selected_process {
                        Some(index) => if index < list@.len() {
                            Some(index)
                        } else {
                            None::<usize>
                        },
                        None => None::<usize>,
                    })
                    &&& final(self).attach_status == old(self).attach_status
                },
                Err(error) => {
                    &&& final(self).processes == old(self).processes
                    &&& final(self).selected_process == old(self).selected_process
                    &&& final(self).attach_status@ == "Process list refresh failed: "@ + error@
                },
            },
    {
        match listing {
            Ok(list) => {
                let sorted = sort_process_entries(list);
                let count = sorted.len();
                self.processes = sorted;
                match self.selected_process {
                    Some(index) => {
                        if index >= count {
                            self.selected_process = None;
                        }
                    },
                    None => {},
                }
            },
            Err(error) => {
                let mut status = String::from_str("Process list refresh failed: ");
                status.append(error.as_str());
                self.attach_status = status;
            },
        }
    }

    /// Append freshly received events to the log, feeding each into the
    /// loaded-module table as it arrives.
    pub fn drain_live_events(&mut self, incoming: Vec<Event>)
        requires
            old(self).wf(),
        ensures
            final(self).wf(),
            final(self).events@ == old(self).events@ + incoming@,
            (final(self).dlls.spec_keys(), final(self).dlls.row_views()) == spec_observe_all(
                old(self).dlls.spec_keys(),
                old(self).dlls.row_views(),
                incoming@,
            ),
            final(self).filters == old(self).filters,
            final(self).processes == old(self).processes,
    {
        let mut incoming = incoming;
        let ghost all = incoming@;
        proof {
            assert(old(self).events@ + all.take(0) =~= old(self).events@);
        }
        let ghost mut k: int = 0;
        while incoming.len() > 0
            invariant
                self.wf(),
                0 <= k <= all.len(),
                incoming@ == all.skip(k),
                self.events@ == old(self).events@ + all.take(k),
                spec_observe_all(old(self).dlls.spec_keys(), old(self).dlls.row_views(), all)
                    == spec_observe_all(
                    self.dlls.spec_keys(),
                    self.dlls.row_views(),
                    all.skip(k),
                ),
                self.filters == old(self).filters,
                self.processes == old(self).processes,
            decreases incoming@.len(),
        {
            let e = incoming.remove(0);
            proof {
                assert(e == all[k]);
                assert(all.skip(k)[0] == all[k]);
                assert(all.skip(k).remove(0) =~= all.skip(k + 1));
                assert(all.skip(k).drop_first() =~= all.skip(k + 1));
                assert((old(self).events@ + all.take(k)).push(e) =~= old(self).events@ + all.take(
                    k + 1,
                ));
            }
            self.dlls.observe_event(&e);
            self.events.push(e);
            proof {
                k = k + 1;
            }
        }
        proof {
            assert(all.take(k) =~= all);
            assert(all.skip(k) =~= Seq::<Event>::empty());
        }
    }

    /// The indices of the events the table shows, in the current sort
    /// order: exactly the events the filters admit (library loads have
    /// their own view), sorted by the active column with ties broken by
    /// timestamp and log position.
    pub fn visible_event_indices(&self) -> (out: Vec<usize>)
        ensures
            out@.to_multiset() == spec_visible_prefix(
                self.events@,
                self.filters,
                self.events@.len() as int,
            ).to_multiset(),
            forall|k: int| 0 <= k < out@.len() ==> #[trigger] out@[k] < self.events@.len(),
            spec_sorted_indices(self.events@, self.filters.sort, out@),
    {
        let mut filtered: Vec<usize> = Vec::new();
        let mut i: usize = 0;
        while i < self.events.len()
            invariant
                i <= self.events@.len(),
                filtered@ == spec_visible_prefix(self.events@, self.filters, i as int),
                forall|k: int|
                    0 <= k < filtered@.len() ==> #[trigger] filtered@[k] < self.events@.len(),
            decreases self.events@.len() - i,
        {
            let e = &self.events[i];
            if !str_eq(e.api.as_str(), "DllLoad") && self.filters.matches(e) {
                filtered.push(i);
            }
            i += 1;
        }
        sort_event_indices(&self.events, self.filters.sort, &filtered)
    }
}

} // verus!
