use win_api_trace::engine::{
    install_from_instance, install_with_probes, late_attach_probe_needed, vtable_method_ptr,
    CandidateOutcome, VtableOp,
};
use win_api_trace::memory::{AddressSpace, MemRegion};
use win_api_trace::registry::{BindOutcome, BindSlot, Registry};

fn region(base: u64, words: Vec<u64>) -> MemRegion {
    MemRegion {
        base,
        words,
        committed: true,
        no_access: false,
        guard: false,
        executable: false,
        allocation_base: base,
    }
}

fn exec_region(base: u64, words: Vec<u64>) -> MemRegion {
    MemRegion { executable: true, ..region(base, words) }
}

/// Two object instances whose vtables share one compiled method: the
/// layout behind the discovery tests.
///
///   instance 10 -> vtable 200: [3000, 3001, 0, 4000]
///   instance 11 -> vtable 300: [3000, 3002, 0, 0]
///   3000..3009  executable code
///   4000        a guard page
fn test_space() -> AddressSpace {
    AddressSpace {
        regions: vec![
            region(10, vec![200, 300]),
            region(200, vec![3000, 3001, 0, 4000]),
            region(300, vec![3000, 3002, 0, 0]),
            exec_region(3000, vec![0; 10]),
            MemRegion { guard: true, executable: true, ..region(4000, vec![0]) },
        ],
    }
}

#[test]
fn walk_binds_only_validated_entries() {
    let mem = test_space();
    let mut reg = Registry::new(4);
    let ops = [
        VtableOp { op: 0, index: 0 }, // 3000: executable
        VtableOp { op: 1, index: 1 }, // 3001: executable
        VtableOp { op: 2, index: 2 }, // null: must never reach the registry
        VtableOp { op: 3, index: 3 }, // 4000: guard page, must never reach the registry
    ];
    let outcomes = install_from_instance(&mut reg, &mem, 10, &ops);
    assert_eq!(outcomes.len(), 4);
    assert_eq!(outcomes[0], CandidateOutcome::Submitted(3000, BindOutcome::Installed(BindSlot::Primary)));
    assert_eq!(outcomes[1], CandidateOutcome::Submitted(3001, BindOutcome::Installed(BindSlot::Primary)));
    assert_eq!(outcomes[2], CandidateOutcome::Skipped);
    assert_eq!(outcomes[3], CandidateOutcome::Skipped);
    assert_eq!(reg.query(0).primary, Some(3000));
    assert_eq!(reg.query(1).primary, Some(3001));
    // the skipped candidates left their operations untouched
    assert_eq!(reg.query(2).primary, None);
    assert_eq!(reg.query(3).primary, None);
}

#[test]
fn unmapped_instance_yields_no_candidates() {
    let mem = test_space();
    assert_eq!(vtable_method_ptr(&mem, 99, 0), None);
    assert_eq!(vtable_method_ptr(&mem, 0, 0), None);
    // index past the vtable's mapped words
    assert_eq!(vtable_method_ptr(&mem, 10, 4), None);
    // a valid entry resolves
    assert_eq!(vtable_method_ptr(&mem, 10, 0), Some(3000));
}

#[test]
fn shared_method_across_revisions_binds_once() {
    let mem = test_space();
    let mut reg = Registry::new(1);
    let ops = [VtableOp { op: 0, index: 0 }];

    // the legacy revision binds the shared implementation to the primary slot
    let first = install_from_instance(&mut reg, &mem, 10, &ops);
    assert_eq!(first[0], CandidateOutcome::Submitted(3000, BindOutcome::Installed(BindSlot::Primary)));

    // the extended revision exposes the same compiled method address:
    // it is recognized and no second bind happens
    let second = install_from_instance(&mut reg, &mem, 11, &ops);
    assert_eq!(
        second[0],
        CandidateOutcome::Submitted(3000, BindOutcome::AlreadyBound(BindSlot::Primary))
    );
    let b = reg.query(0);
    assert_eq!(b.primary, Some(3000));
    assert_eq!(b.alternate, None);
}

#[test]
fn distinct_thunks_fill_primary_then_alternate() {
    let mem = test_space();
    let mut reg = Registry::new(2);
    let ops = [VtableOp { op: 0, index: 0 }, VtableOp { op: 1, index: 1 }];
    install_with_probes(&mut reg, &mem, 10, &[11], &ops);
    // index 0 is shared: one bind; index 1 differs per revision: two slots
    assert_eq!(reg.query(0).primary, Some(3000));
    assert_eq!(reg.query(0).alternate, None);
    assert_eq!(reg.query(1).primary, Some(3001));
    assert_eq!(reg.query(1).alternate, Some(3002));
}

#[test]
fn late_attach_probe_rules() {
    let mut reg = Registry::new(1);
    // runtime not loaded: no probe even with nothing bound
    assert!(!late_attach_probe_needed(&reg, 0, false));
    // runtime loaded, creation operation never intercepted: probe
    assert!(late_attach_probe_needed(&reg, 0, true));
    reg.bind(0, 0x5000);
    // a creation interception already fired: no throwaway object
    assert!(!late_attach_probe_needed(&reg, 0, true));
}
