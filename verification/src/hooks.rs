//! The agent's startup hook plan: which entry points get a detour, which
//! of them are required, and the idempotence of the installation pass.

use vstd::prelude::*;

verus! {

/// One dynamic entry point the agent wants to intercept at startup:
/// whether its address resolved in this process, and whether the whole
/// installation fails without it. Optional entry points belong to
/// graphics runtimes that may not be loaded.
#[derive(Debug, Clone)]
pub struct HookPlanEntry {
    pub api: String,
    pub resolved: bool,
    pub required: bool,
}

/// Index of the first required entry that did not resolve, if any.
pub open spec fn spec_first_missing(entries: Seq<HookPlanEntry>, i: int) -> Option<int>
    decreases entries.len() - i when 0 <= i <= entries.len()
{
    if i >= entries.len() {
        None
    } else if entries[i].required && !entries[i].resolved {
        Some(i)
    } else {
        spec_first_missing(entries, i + 1)
    }
}

/// The indices of the entries that resolved, in order: these get a
/// detour.
pub open spec fn spec_resolved_indices(entries: Seq<HookPlanEntry>, k: int) -> Seq<usize>
    decreases k when 0 <= k <= entries.len()
{
    if k <= 0 {
        Seq::empty()
    } else {
        let p = spec_resolved_indices(entries, k - 1);
        if entries[k - 1].resolved {
            p.push((k - 1) as usize)
        } else {
            p
        }
    }
}

/// The startup hook installer's bookkeeping: a second installation pass
/// is a no-op.
#[derive(Debug)]
pub struct HookManager {
    pub installed: bool,
}

impl HookManager {
    pub fn new() -> (m: HookManager)
        ensures
            !m.installed,
    {
        HookManager { installed: false }
    }

    /// Decide the installation pass over the resolved entry points. A
    /// manager that already installed does nothing and reports an empty
    /// pass. A required entry point that did not resolve fails the whole
    /// pass, reported by its index, and installs nothing; otherwise every
    /// resolved entry point is detoured, unresolved optional ones are
    /// skipped, and the manager remembers that it installed.
    pub fn install(&mut self, entries: &Vec<HookPlanEntry>) -> (r: Result<Vec<usize>, usize>)
        ensures
            old(self).installed ==> final(self).installed && (r matches Ok(plan)
                && plan@.len() == 0),
            !old(self).installed ==> match spec_first_missing(entries@, 0) {
                Some(i) => r == Err::<Vec<usize>, usize>(i as usize) && !final(self).installed,
                None => {
                    &&& final(self).installed
                    &&& r matches Ok(plan) && plan@ == spec_resolved_indices(
                        entries@,
                        entries@.len() as int,
                    )
                },
            },
    {
        if self.installed {
            return Ok(Vec::new());
        }
        let mut i: usize = 0;
        while i < entries.len()
            invariant
                i <= entries@.len(),
                !self.installed,
                *self == *old(self),
                spec_first_missing(entries@, 0) == spec_first_missing(entries@, i as int),
            decreases entries@.len() - i,
        {
            if entries[i].required && !entries[i].resolved {
                return Err(i);
            }
            i += 1;
        }
        let mut plan: Vec<usize> = Vec::new();
        let mut k: usize = 0;
        while k < entries.len()
            invariant
                k <= entries@.len(),
                !self.installed,
                *self == *old(self),
                spec_first_missing(entries@, 0) is None,
                plan@ == spec_resolved_indices(entries@, k as int),
            decreases entries@.len() - k,
        {
            if entries[k].resolved {
                plan.push(k);
            }
            k += 1;
        }
        self.installed = true;
        Ok(plan)
    }
}

} // verus!
