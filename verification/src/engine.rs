//! Hook installation and discovery: walk the virtual method table of a
//! live COM object instance, validate each candidate entry against the
//! memory oracle, and submit the survivors to the binding registry. The
//! walk is idempotent and a failed candidate never aborts the pass.

use vstd::prelude::*;
use crate::memory::AddressSpace;
use crate::registry::{BindOutcome, Registry, spec_bind_outcome, spec_bind_state};

verus! {

/// One operation of interest on a vtable: the registry's operation
/// identifier and the operation's fixed vtable index.
#[derive(Clone, Copy, Debug, PartialEq, Eq, Structural)]
pub struct VtableOp {
    pub op: usize,
    pub index: u64,
}

/// The validated method pointer of an instance's vtable entry: the
/// instance pointer must be readable, the vtable pointer it holds must be
/// readable through the entry's index, and the entry itself must point
/// into committed, executable, non-guard memory. Entries that are null,
/// unmapped, or in no-access or guard pages yield nothing.
pub open spec fn spec_vtable_method_ptr(mem: AddressSpace, instance: u64, index: u64) -> Option<
    u64,
> {
    if !mem.spec_is_readable(instance, 1) {
        None
    } else {
        let vtable = mem.spec_word_at(instance);
        if !mem.spec_is_readable(vtable, index + 1) {
            None
        } else {
            let method = mem.spec_word_at((vtable + index) as u64);
            if !mem.spec_is_executable(method) {
                None
            } else {
                Some(method)
            }
        }
    }
}

/// Read and validate the method pointer at `index` of the instance's
/// vtable, dereferencing nothing that the oracle has not approved.
pub fn vtable_method_ptr(mem: &AddressSpace, instance: u64, index: u64) -> (r: Option<u64>)
    requires
        mem.wf(),
    ensures
        r == spec_vtable_method_ptr(*mem, instance, index),
{
    if !mem.is_readable_ptr(instance, 1) {
        return None;
    }
    let vtable = match mem.read_word(instance) {
        Some(w) => w,
        None => {
            return None;
        },
    };
    if index >= u64::MAX {
        proof {
            mem.lemma_range_beyond_space_unreadable(vtable, index as int + 1);
        }
        return None;
    }
    if !mem.is_readable_ptr(vtable, index + 1) {
        return None;
    }
    if vtable > u64::MAX - index {
        proof {
            mem.lemma_range_beyond_space_unreadable(vtable, index as int + 1);
        }
        return None;
    }
    proof {
        crate::memory::lemma_find_region_in_bounds(mem.regions@, vtable, 0);
        let i = mem.spec_region_of(vtable)->Some_0;
        mem.lemma_region_of_unique((vtable + index) as u64, i);
        assert(mem.spec_is_readable((vtable + index) as u64, 1));
    }
    let method = match mem.read_word(vtable + index) {
        Some(w) => w,
        None => {
            return None;
        },
    };
    if !mem.is_executable_ptr(method) {
        return None;
    }
    Some(method)
}

/// A candidate that was submitted to the registry carries the address and
/// the registry's answer; a candidate that failed validation was skipped
/// and never reached the registry.
#[derive(Clone, Copy, Debug, PartialEq, Eq, Structural)]
pub enum CandidateOutcome {
    Submitted(u64, BindOutcome),
    Skipped,
}

/// The registry's state after the walk has processed the first `k`
/// operations of the list against one instance.
pub open spec fn spec_pass_state(
    rv: Seq<crate::registry::OperationBinding>,
    mem: AddressSpace,
    instance: u64,
    ops: Seq<VtableOp>,
    k: int,
) -> Seq<crate::registry::OperationBinding>
    decreases k when 0 <= k <= ops.len()
{
    if k <= 0 {
        rv
    } else {
        let prev = spec_pass_state(rv, mem, instance, ops, k - 1);
        let o = ops[k - 1];
        match spec_vtable_method_ptr(mem, instance, o.index) {
            Some(m) => prev.update(o.op as int, spec_bind_state(prev[o.op as int], m)),
            None => prev,
        }
    }
}

/// What the walk reports for operation `k` of the list.
pub open spec fn spec_pass_outcome(
    rv: Seq<crate::registry::OperationBinding>,
    mem: AddressSpace,
    instance: u64,
    ops: Seq<VtableOp>,
    k: int,
) -> CandidateOutcome {
    match spec_vtable_method_ptr(mem, instance, ops[k].index) {
        Some(m) => CandidateOutcome::Submitted(
            m,
            spec_bind_outcome(spec_pass_state(rv, mem, instance, ops, k)[ops[k].op as int], m),
        ),
        None => CandidateOutcome::Skipped,
    }
}

/// Walk one instance's vtable for every operation of interest: validate
/// the entry, and bind the survivors through the registry. A candidate
/// that fails validation is skipped; it never reaches the registry and
/// never aborts the rest of the pass.
pub fn install_from_instance(
    reg: &mut Registry,
    mem: &AddressSpace,
    instance: u64,
    ops: &[VtableOp],
) -> (outcomes: Vec<CandidateOutcome>)
    requires
        old(reg).wf(),
        mem.wf(),
        forall|k: int| 0 <= k < ops@.len() ==> (#[trigger] ops@[k]).op < old(reg).view().len(),
    ensures
        final(reg).wf(),
        final(reg).view() == spec_pass_state(
            old(reg).view(),
            *mem,
            instance,
            ops@,
            ops@.len() as int,
        ),
        outcomes@.len() == ops@.len(),
        forall|k: int|
            0 <= k < ops@.len() ==> outcomes@[k] == spec_pass_outcome(
                old(reg).view(),
                *mem,
                instance,
                ops@,
                k,
            ),
{
    let mut outcomes: Vec<CandidateOutcome> = Vec::new();
    let mut k: usize = 0;
    while k < ops.len()
        invariant
            reg.wf(),
            mem.wf(),
            k <= ops@.len(),
            forall|j: int| 0 <= j < ops@.len() ==> (#[trigger] ops@[j]).op < reg.view().len(),
            reg.view().len() == old(reg).view().len(),
            reg.view() == spec_pass_state(old(reg).view(), *mem, instance, ops@, k as int),
            outcomes@.len() == k,
            forall|j: int|
                0 <= j < k ==> outcomes@[j] == spec_pass_outcome(
                    old(reg).view(),
                    *mem,
                    instance,
                    ops@,
                    j,
                ),
        decreases ops@.len() - k,
    {
        let o = ops[k];
        match vtable_method_ptr(mem, instance, o.index) {
            Some(method) => {
                let outcome = reg.bind(o.op, method);
                outcomes.push(CandidateOutcome::Submitted(method, outcome));
            },
            None => {
                outcomes.push(CandidateOutcome::Skipped);
            },
        }
        k += 1;
    }
    outcomes
}

/// Every address the walk submits to the registry is a validated vtable
/// entry: non-null, read through oracle-approved memory, and pointing
/// into committed, executable, non-guard memory. A skipped candidate
/// leaves the registry untouched at its step.
pub proof fn lemma_pass_binds_only_validated(
    rv: Seq<crate::registry::OperationBinding>,
    mem: AddressSpace,
    instance: u64,
    ops: Seq<VtableOp>,
    k: int,
)
    requires
        0 <= k < ops.len(),
    ensures
        match spec_pass_outcome(rv, mem, instance, ops, k) {
            CandidateOutcome::Submitted(m, _) => m != 0 && mem.spec_is_executable(m)
                && mem.spec_is_readable(instance, 1),
            CandidateOutcome::Skipped => spec_pass_state(rv, mem, instance, ops, k + 1)
                == spec_pass_state(rv, mem, instance, ops, k),
        },
{
}

/// An operation that the walk's list does not mention keeps its binding
/// state across the whole pass.
pub proof fn lemma_pass_leaves_unlisted_ops(
    rv: Seq<crate::registry::OperationBinding>,
    mem: AddressSpace,
    instance: u64,
    ops: Seq<VtableOp>,
    k: int,
    j: int,
)
    requires
        0 <= k <= ops.len(),
        0 <= j < rv.len(),
        forall|i: int| 0 <= i < ops.len() ==> (#[trigger] ops[i]).op < rv.len(),
        forall|i: int| 0 <= i < ops.len() ==> (#[trigger] ops[i]).op != j,
    ensures
        spec_pass_state(rv, mem, instance, ops, k)[j] == rv[j],
        spec_pass_state(rv, mem, instance, ops, k).len() == rv.len(),
    decreases k,
{
    if k > 0 {
        lemma_pass_leaves_unlisted_ops(rv, mem, instance, ops, k - 1, j);
        lemma_pass_preserves_len(rv, mem, instance, ops, k - 1);
        let prev = spec_pass_state(rv, mem, instance, ops, k - 1);
        let o = ops[k - 1];
        assert(o.op != j);
        match spec_vtable_method_ptr(mem, instance, o.index) {
            Some(m) => {
                assert(spec_pass_state(rv, mem, instance, ops, k) == prev.update(
                    o.op as int,
                    spec_bind_state(prev[o.op as int], m),
                ));
            },
            None => {
                assert(spec_pass_state(rv, mem, instance, ops, k) == prev);
            },
        }
    }
}

/// Interface discovery chaining: after installing from a root object, the
/// engine re-runs the same walk on each additional interface revision
/// that querying the root produced. Distinct revisions are often backed
/// by distinct compiled thunks, so each gets the full validated walk; an
/// address shared between two revisions is recognized by the registry as
/// already bound the second time.
pub open spec fn spec_chain_state(
    rv: Seq<crate::registry::OperationBinding>,
    mem: AddressSpace,
    instances: Seq<u64>,
    ops: Seq<VtableOp>,
    k: int,
) -> Seq<crate::registry::OperationBinding>
    decreases k when 0 <= k <= instances.len()
{
    if k <= 0 {
        rv
    } else {
        spec_pass_state(
            spec_chain_state(rv, mem, instances, ops, k - 1),
            mem,
            instances[k - 1],
            ops,
            ops.len() as int,
        )
    }
}

/// Run the walk on a root instance and then on each interface revision
/// obtained by querying it.
pub fn install_with_probes(
    reg: &mut Registry,
    mem: &AddressSpace,
    root: u64,
    probed: &[u64],
    ops: &[VtableOp],
)
    requires
        old(reg).wf(),
        mem.wf(),
        forall|k: int| 0 <= k < ops@.len() ==> (#[trigger] ops@[k]).op < old(reg).view().len(),
    ensures
        final(reg).wf(),
        final(reg).view() == spec_chain_state(
            spec_pass_state(old(reg).view(), *mem, root, ops@, ops@.len() as int),
            *mem,
            probed@,
            ops@,
            probed@.len() as int,
        ),
{
    let ghost rv0 = reg.view();
    let _ = install_from_instance(reg, mem, root, ops);
    proof {
        lemma_pass_preserves_len(rv0, *mem, root, ops@, ops@.len() as int);
    }
    let ghost rv1 = reg.view();
    let mut k: usize = 0;
    while k < probed.len()
        invariant
            reg.wf(),
            mem.wf(),
            k <= probed@.len(),
            forall|j: int| 0 <= j < ops@.len() ==> (#[trigger] ops@[j]).op < reg.view().len(),
            reg.view() == spec_chain_state(rv1, *mem, probed@, ops@, k as int),
        decreases probed@.len() - k,
    {
        let ghost before = reg.view();
        let _ = install_from_instance(reg, mem, probed[k], ops);
        proof {
            lemma_pass_preserves_len(before, *mem, probed@[k as int], ops@, ops@.len() as int);
        }
        k += 1;
    }
}

/// The walk never adds or removes operations, whatever it binds.
pub proof fn lemma_pass_preserves_len(
    rv: Seq<crate::registry::OperationBinding>,
    mem: AddressSpace,
    instance: u64,
    ops: Seq<VtableOp>,
    k: int,
)
    requires
        0 <= k <= ops.len(),
        forall|i: int| 0 <= i < ops.len() ==> (#[trigger] ops[i]).op < rv.len(),
    ensures
        spec_pass_state(rv, mem, instance, ops, k).len() == rv.len(),
    decreases k,
{
    if k > 0 {
        lemma_pass_preserves_len(rv, mem, instance, ops, k - 1);
    }
}

/// The late-attach recovery decision: synthesize a throwaway object and
/// probe it only when no creation call has been intercepted yet (the
/// creation operation's slots are still empty) and the graphics runtime
/// is already loaded in the process.
pub fn late_attach_probe_needed(
    reg: &Registry,
    create_surface_op: usize,
    runtime_loaded: bool,
) -> (r: bool)
    requires
        create_surface_op < reg.view().len(),
    ensures
        r == (runtime_loaded && reg.view()[create_surface_op as int].is_empty()),
{
    if !runtime_loaded {
        return false;
    }
    let b = reg.query(create_surface_op);
    b.primary.is_none() && b.alternate.is_none()
}

} // verus!
