use win_api_trace::registry::{BindOutcome, BindSlot, Registry};

#[test]
fn bind_installs_then_already_bound() {
    let mut reg = Registry::new(3);
    assert_eq!(reg.len(), 3);
    assert_eq!(reg.bind(0, 0x1000), BindOutcome::Installed(BindSlot::Primary));
    assert_eq!(reg.bind(0, 0x1000), BindOutcome::AlreadyBound(BindSlot::Primary));
    assert_eq!(reg.bind(0, 0x1000), BindOutcome::AlreadyBound(BindSlot::Primary));
    let b = reg.query(0);
    assert_eq!(b.primary, Some(0x1000));
    assert_eq!(b.alternate, None);
}

#[test]
fn already_bound_survives_other_binds() {
    let mut reg = Registry::new(1);
    assert_eq!(reg.bind(0, 7), BindOutcome::Installed(BindSlot::Primary));
    assert_eq!(reg.bind(0, 9), BindOutcome::Installed(BindSlot::Alternate));
    assert_eq!(reg.bind(0, 7), BindOutcome::AlreadyBound(BindSlot::Primary));
    assert_eq!(reg.bind(0, 9), BindOutcome::AlreadyBound(BindSlot::Alternate));
}

#[test]
fn two_slots_then_conflict() {
    let mut reg = Registry::new(2);
    assert_eq!(reg.bind(1, 0xA), BindOutcome::Installed(BindSlot::Primary));
    assert_eq!(reg.bind(1, 0xB), BindOutcome::Installed(BindSlot::Alternate));
    assert_eq!(reg.bind(1, 0xC), BindOutcome::Conflict);
    let b = reg.query(1);
    assert_eq!(b.primary, Some(0xA));
    assert_eq!(b.alternate, Some(0xB));
    // the conflicting address is reported, never stored
    assert_eq!(reg.bind(1, 0xC), BindOutcome::Conflict);
    // the untouched operation is still empty
    let other = reg.query(0);
    assert_eq!(other.primary, None);
    assert_eq!(other.alternate, None);
}

#[test]
fn enable_needs_a_filled_slot() {
    let mut reg = Registry::new(1);
    assert!(!reg.enable(0, BindSlot::Primary));
    assert_eq!(reg.bind(0, 0x42), BindOutcome::Installed(BindSlot::Primary));
    assert!(reg.enable(0, BindSlot::Primary));
    assert!(!reg.enable(0, BindSlot::Alternate));
    let b = reg.query(0);
    assert!(b.primary_enabled);
    assert!(!b.alternate_enabled);
}
