//! Interception binding registry: maps each logical operation to up to two
//! bound absolute addresses (a primary and an alternate slot), enforcing
//! idempotence and two-slot conflict resolution.

use vstd::prelude::*;

verus! {

/// One of the two binding positions of a logical operation.
#[derive(Clone, Copy, Debug, PartialEq, Eq, Structural)]
pub enum BindSlot {
    Primary,
    Alternate,
}

/// Result of submitting a candidate address for one operation.
#[derive(Clone, Copy, Debug, PartialEq, Eq, Structural)]
pub enum BindOutcome {
    /// The address was new and now occupies the given slot.
    Installed(BindSlot),
    /// The address already occupies the given slot; nothing was changed.
    AlreadyBound(BindSlot),
    /// Both slots are occupied by different addresses; the candidate is
    /// reported rather than silently dropped.
    Conflict,
}

/// The binding state of one logical operation: up to two distinct bound
/// addresses, each with its own enabled flag.
#[derive(Clone, Copy, Debug, PartialEq, Eq, Structural)]
pub struct OperationBinding {
    pub primary: Option<u64>,
    pub alternate: Option<u64>,
    pub primary_enabled: bool,
    pub alternate_enabled: bool,
}

impl OperationBinding {
    /// Well-formedness: the alternate slot fills only after the primary,
    /// the two slots never hold the same address, and only a filled slot
    /// can be enabled.
    pub open spec fn wf(self) -> bool {
        &&& self.alternate is Some ==> self.primary is Some
        &&& (self.primary is Some && self.alternate is Some) ==> self.primary != self.alternate
        &&& self.primary_enabled ==> self.primary is Some
        &&& self.alternate_enabled ==> self.alternate is Some
    }

    /// The address occupies one of the two slots.
    pub open spec fn occupies(self, addr: u64) -> bool {
        self.primary == Some(addr) || self.alternate == Some(addr)
    }

    /// The slot the address occupies, if any.
    pub open spec fn slot_of(self, addr: u64) -> BindSlot {
        if self.primary == Some(addr) {
            BindSlot::Primary
        } else {
            BindSlot::Alternate
        }
    }

    pub open spec fn is_empty(self) -> bool {
        self.primary is None && self.alternate is None
    }
}

/// What `Registry::bind` reports for a candidate address against one
/// operation's current state.
pub open spec fn spec_bind_outcome(b: OperationBinding, addr: u64) -> BindOutcome {
    if b.primary == Some(addr) {
        BindOutcome::AlreadyBound(BindSlot::Primary)
    } else if b.alternate == Some(addr) {
        BindOutcome::AlreadyBound(BindSlot::Alternate)
    } else if b.primary is None {
        BindOutcome::Installed(BindSlot::Primary)
    } else if b.alternate is None {
        BindOutcome::Installed(BindSlot::Alternate)
    } else {
        BindOutcome::Conflict
    }
}

/// The operation's state after `Registry::bind` of a candidate address.
pub open spec fn spec_bind_state(b: OperationBinding, addr: u64) -> OperationBinding {
    if b.occupies(addr) {
        b
    } else if b.primary is None {
        OperationBinding { primary: Some(addr), ..b }
    } else if b.alternate is None {
        OperationBinding { alternate: Some(addr), ..b }
    } else {
        b
    }
}

/// The registry: one binding state per logical operation, indexed by a
/// dense operation identifier fixed at construction.
pub struct Registry {
    ops: Vec<OperationBinding>,
}

impl Registry {
    pub closed spec fn view(&self) -> Seq<OperationBinding> {
        self.ops@
    }

    /// Every operation's binding state is well-formed.
    pub open spec fn wf(&self) -> bool {
        forall|i: int| 0 <= i < self.view().len() ==> (#[trigger] self.view()[i]).wf()
    }

    /// A registry with `n_ops` operations, none bound.
    pub fn new(n_ops: usize) -> (r: Registry)
        ensures
            r.wf(),
            r.view().len() == n_ops,
            forall|i: int| 0 <= i < n_ops ==> (#[trigger] r.view()[i]).is_empty(),
    {
        let mut ops: Vec<OperationBinding> = Vec::new();
        let mut k: usize = 0;
        while k < n_ops
            invariant
                k <= n_ops,
                ops@.len() == k,
                forall|i: int| 0 <= i < k ==> (#[trigger] ops@[i]).is_empty()
                    && !ops@[i].primary_enabled && !ops@[i].alternate_enabled,
            decreases n_ops - k,
        {
            ops.push(OperationBinding {
                primary: None,
                alternate: None,
                primary_enabled: false,
                alternate_enabled: false,
            });
            k += 1;
        }
        Registry { ops }
    }

    pub fn len(&self) -> (n: usize)
        ensures
            n == self.view().len(),
    {
        self.ops.len()
    }

    /// Submit a candidate address for an operation. An address already in
    /// either slot is reported `AlreadyBound` and nothing changes; a new
    /// address fills the primary slot first, then the alternate; with both
    /// slots occupied by other addresses the candidate is a `Conflict`.
    pub fn bind(&mut self, op: usize, addr: u64) -> (r: BindOutcome)
        requires
            old(self).wf(),
            op < old(self).view().len(),
        ensures
            final(self).wf(),
            final(self).view().len() == old(self).view().len(),
            forall|i: int|
                0 <= i < final(self).view().len() && i != op ==> final(self).view()[i]
                    == old(self).view()[i],
            r == spec_bind_outcome(old(self).view()[op as int], addr),
            final(self).view()[op as int] == spec_bind_state(old(self).view()[op as int], addr),
    {
        let b = self.ops[op];
        if b.primary == Some(addr) {
            BindOutcome::AlreadyBound(BindSlot::Primary)
        } else if b.alternate == Some(addr) {
            BindOutcome::AlreadyBound(BindSlot::Alternate)
        } else if b.primary.is_none() {
            self.ops.set(op, OperationBinding { primary: Some(addr), ..b });
            BindOutcome::Installed(BindSlot::Primary)
        } else if b.alternate.is_none() {
            self.ops.set(op, OperationBinding { alternate: Some(addr), ..b });
            BindOutcome::Installed(BindSlot::Alternate)
        } else {
            BindOutcome::Conflict
        }
    }

    /// The current binding state of one operation.
    pub fn query(&self, op: usize) -> (b: OperationBinding)
        requires
            op < self.view().len(),
        ensures
            b == self.view()[op as int],
    {
        self.ops[op]
    }

    /// Mark a filled slot's interception as live.
    pub fn enable(&mut self, op: usize, slot: BindSlot) -> (ok: bool)
        requires
            old(self).wf(),
            op < old(self).view().len(),
        ensures
            final(self).wf(),
            final(self).view().len() == old(self).view().len(),
            forall|i: int|
                0 <= i < final(self).view().len() && i != op ==> final(self).view()[i]
                    == old(self).view()[i],
            ok == (slot == BindSlot::Primary && old(self).view()[op as int].primary is Some
                || slot == BindSlot::Alternate && old(self).view()[op as int].alternate is Some),
            ok ==> final(self).view()[op as int] == (match slot {
                BindSlot::Primary => OperationBinding {
                    primary_enabled: true,
                    ..old(self).view()[op as int]
                },
                BindSlot::Alternate => OperationBinding {
                    alternate_enabled: true,
                    ..old(self).view()[op as int]
                },
            }),
            !ok ==> final(self).view()[op as int] == old(self).view()[op as int],
    {
        let b = self.ops[op];
        match slot {
            BindSlot::Primary => {
                if b.primary.is_some() {
                    self.ops.set(op, OperationBinding { primary_enabled: true, ..b });
                    true
                } else {
                    false
                }
            },
            BindSlot::Alternate => {
                if b.alternate.is_some() {
                    self.ops.set(op, OperationBinding { alternate_enabled: true, ..b });
                    true
                } else {
                    false
                }
            },
        }
    }
}

/// Binding an address that is not yet present in a well-formed state
/// installs it, after which it occupies a slot.
pub proof fn lemma_first_bind_installs(b: OperationBinding, addr: u64)
    requires
        b.wf(),
        !b.occupies(addr),
        spec_bind_outcome(b, addr) !== BindOutcome::Conflict,
    ensures
        spec_bind_outcome(b, addr) == BindOutcome::Installed(
            spec_bind_state(b, addr).slot_of(addr),
        ),
        spec_bind_state(b, addr).occupies(addr),
        spec_bind_state(b, addr).wf(),
{
}

/// Binding an address that already occupies a slot reports `AlreadyBound`
/// for that slot and leaves the state unchanged.
pub proof fn lemma_rebind_is_already_bound(b: OperationBinding, addr: u64)
    requires
        b.wf(),
        b.occupies(addr),
    ensures
        spec_bind_outcome(b, addr) == BindOutcome::AlreadyBound(b.slot_of(addr)),
        spec_bind_state(b, addr) == b,
{
}

/// Once an address occupies a slot, binding any other candidate never
/// displaces it; with the previous lemma, registering an address twice
/// yields `Installed` once and `AlreadyBound` on every later attempt,
/// whatever is bound in between.
pub proof fn lemma_occupancy_is_stable(b: OperationBinding, addr: u64, other: u64)
    requires
        b.wf(),
        b.occupies(addr),
    ensures
        spec_bind_state(b, other).occupies(addr),
        spec_bind_state(b, other).slot_of(addr) == b.slot_of(addr),
        spec_bind_state(b, other).wf(),
{
}

/// With both slots empty, the first distinct address binds to the primary
/// slot, a second distinct address binds to the alternate slot, and a
/// third distinct address yields `Conflict` without changing the state.
pub proof fn lemma_two_slots_then_conflict(b: OperationBinding, a1: u64, a2: u64, a3: u64)
    requires
        b.wf(),
        b.is_empty(),
        a1 != a2,
        a2 != a3,
        a1 != a3,
    ensures
        spec_bind_outcome(b, a1) == BindOutcome::Installed(BindSlot::Primary),
        spec_bind_outcome(spec_bind_state(b, a1), a2) == BindOutcome::Installed(
            BindSlot::Alternate,
        ),
        spec_bind_outcome(spec_bind_state(spec_bind_state(b, a1), a2), a3)
            == BindOutcome::Conflict,
        spec_bind_state(spec_bind_state(spec_bind_state(b, a1), a2), a3) == spec_bind_state(
            spec_bind_state(b, a1),
            a2,
        ),
{
}

} // verus!
