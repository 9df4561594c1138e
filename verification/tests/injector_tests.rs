use win_api_trace::arch::{
    detect_process_machine, HostMachine, MACHINE_AMD64, MACHINE_ARM64, MACHINE_I386,
    MACHINE_UNKNOWN,
};
use win_api_trace::inject::{
    remote_entry_address, select_agent_image, select_unwind_source, should_retry_module_snapshot,
    AgentImageError, InjectAction, InjectError, InjectEvent, InjectPhase, InjectSession,
    ERROR_BAD_LENGTH, ERROR_PARTIAL_COPY,
};

#[test]
fn wow64_target_on_a_64_bit_host_detects_as_32_bit() {
    // the two-machine query reports an emulated x86 process
    assert_eq!(
        detect_process_machine(Some((MACHINE_I386, MACHINE_AMD64)), None, HostMachine::X64),
        Some(MACHINE_I386)
    );
    // the boolean fallback on a 64-bit host
    assert_eq!(detect_process_machine(None, Some(true), HostMachine::X64), Some(MACHINE_I386));
}

#[test]
fn native_target_on_a_64_bit_host_detects_as_64_bit() {
    // the two-machine query reports "not emulated" for the process
    assert_eq!(
        detect_process_machine(Some((MACHINE_UNKNOWN, MACHINE_AMD64)), None, HostMachine::X64),
        Some(MACHINE_AMD64)
    );
    assert_eq!(detect_process_machine(None, Some(false), HostMachine::X64), Some(MACHINE_AMD64));
}

#[test]
fn arm64_and_x86_hosts_interpret_the_fallback() {
    assert_eq!(detect_process_machine(None, Some(true), HostMachine::Arm64), Some(MACHINE_I386));
    assert_eq!(detect_process_machine(None, Some(false), HostMachine::Arm64), Some(MACHINE_ARM64));
    assert_eq!(detect_process_machine(None, Some(false), HostMachine::X86), Some(MACHINE_I386));
    assert_eq!(detect_process_machine(None, None, HostMachine::X64), None);
}

#[test]
fn missing_x86_image_names_every_checked_path() {
    let candidates = vec![
        ("C:\\tracer\\win_api_trace_agent_x86.dll".to_string(), false),
        ("C:\\target\\i686-pc-windows-gnullvm\\debug\\win_api_trace_agent.dll".to_string(), false),
        ("C:\\target\\i686-pc-windows-gnu\\debug\\win_api_trace_agent.dll".to_string(), false),
    ];
    let native = "C:\\tracer\\win_api_trace_agent.dll".to_string();
    match select_agent_image(MACHINE_I386, &candidates, &native, true) {
        Err(AgentImageError::MissingX86Image { checked }) => {
            assert_eq!(checked.len(), 3);
            for (k, c) in candidates.iter().enumerate() {
                assert_eq!(checked[k], c.0);
            }
        },
        other => panic!("expected the listing error, got {:?}", other),
    }
}

#[test]
fn first_existing_x86_image_wins() {
    let candidates = vec![
        ("a.dll".to_string(), false),
        ("b.dll".to_string(), true),
        ("c.dll".to_string(), true),
    ];
    let native = "n.dll".to_string();
    assert_eq!(select_agent_image(MACHINE_I386, &candidates, &native, false).unwrap(), "b.dll");
}

#[test]
fn native_image_selection() {
    let native = "n.dll".to_string();
    assert_eq!(select_agent_image(MACHINE_AMD64, &vec![], &native, true).unwrap(), "n.dll");
    match select_agent_image(MACHINE_ARM64, &vec![], &native, false) {
        Err(AgentImageError::MissingImage { machine, expected }) => {
            assert_eq!(machine, MACHINE_ARM64);
            assert_eq!(expected, "n.dll");
        },
        other => panic!("expected the missing-image error, got {:?}", other),
    }
}

#[test]
fn unwind_runtime_source_selection() {
    let candidates = vec![("p1".to_string(), false), ("p2".to_string(), true)];
    assert_eq!(select_unwind_source(true, &candidates), Some(None));
    assert_eq!(select_unwind_source(false, &candidates), Some(Some("p2".to_string())));
    assert_eq!(select_unwind_source(false, &vec![("p1".to_string(), false)]), None);
}

#[test]
fn transient_snapshot_errors_are_retried() {
    assert!(should_retry_module_snapshot(ERROR_PARTIAL_COPY));
    assert!(should_retry_module_snapshot(ERROR_BAD_LENGTH));
    assert!(!should_retry_module_snapshot(5));
    assert!(!should_retry_module_snapshot(0));
}

#[test]
fn entry_address_is_base_plus_rva() {
    assert_eq!(remote_entry_address(0x7FF0_0000_0000, 0x1A2B0), Some(0x7FF0_0001_A2B0));
    assert_eq!(remote_entry_address(u64::MAX, 1), None);
}

#[test]
fn injection_happy_path_frees_the_buffer_on_success() {
    let mut s = InjectSession::new();
    assert_eq!(s.step(InjectEvent::Opened { ok: true }), InjectAction::DetectMachine);
    assert_eq!(s.step(InjectEvent::MachineDetected { known: true }), InjectAction::SelectImage);
    assert_eq!(s.step(InjectEvent::ImageSelected { ok: true }), InjectAction::ResolveEntry);
    assert_eq!(
        s.step(InjectEvent::EntryResolved { entry: Some(0x7000) }),
        InjectAction::AllocateBuffer
    );
    assert_eq!(
        s.step(InjectEvent::BufferAllocated { addr: 0x9000 }),
        InjectAction::WriteImagePath
    );
    assert_eq!(s.step(InjectEvent::PathWritten { ok: true }), InjectAction::RunRemoteThread);
    assert_eq!(s.step(InjectEvent::ThreadFinished { ok: true }), InjectAction::ReadExitCode);
    assert_eq!(
        s.step(InjectEvent::ExitRead { ok: true, module_handle: 0x10_0000 }),
        InjectAction::FreeBufferAndFinish { buffer: 0x9000, success: true }
    );
    assert_eq!(s.phase, InjectPhase::Done);
}

#[test]
fn missing_image_fails_before_any_remote_memory_step() {
    let mut s = InjectSession::new();
    assert_eq!(s.step(InjectEvent::Opened { ok: true }), InjectAction::DetectMachine);
    assert_eq!(s.step(InjectEvent::MachineDetected { known: true }), InjectAction::SelectImage);
    let action = s.step(InjectEvent::ImageSelected { ok: false });
    // the attempt ends at once: no allocation, no write, no remote thread
    assert_eq!(action, InjectAction::Finish { success: false });
    assert_eq!(s.phase, InjectPhase::Failed(InjectError::ImageMissing));
}

#[test]
fn every_failure_after_allocation_frees_the_buffer() {
    let mut s = InjectSession::new();
    s.step(InjectEvent::Opened { ok: true });
    s.step(InjectEvent::MachineDetected { known: true });
    s.step(InjectEvent::ImageSelected { ok: true });
    s.step(InjectEvent::EntryResolved { entry: Some(0x7000) });
    s.step(InjectEvent::BufferAllocated { addr: 0xAB00 });
    let action = s.step(InjectEvent::PathWritten { ok: false });
    assert_eq!(action, InjectAction::FreeBufferAndFinish { buffer: 0xAB00, success: false });
    assert_eq!(s.phase, InjectPhase::Failed(InjectError::RemoteWriteFailed));
}

#[test]
fn zero_module_handle_is_a_distinct_remote_load_failure() {
    let mut s = InjectSession::new();
    s.step(InjectEvent::Opened { ok: true });
    s.step(InjectEvent::MachineDetected { known: true });
    s.step(InjectEvent::ImageSelected { ok: true });
    s.step(InjectEvent::EntryResolved { entry: Some(0x7000) });
    s.step(InjectEvent::BufferAllocated { addr: 0xAB00 });
    s.step(InjectEvent::PathWritten { ok: true });
    s.step(InjectEvent::ThreadFinished { ok: true });
    let action = s.step(InjectEvent::ExitRead { ok: true, module_handle: 0 });
    assert_eq!(action, InjectAction::FreeBufferAndFinish { buffer: 0xAB00, success: false });
    assert_eq!(s.phase, InjectPhase::Failed(InjectError::RemoteLoadFailed));
}

#[test]
fn each_failure_event_maps_to_its_error() {
    let mut s = InjectSession::new();
    assert_eq!(
        s.step(InjectEvent::Opened { ok: false }),
        InjectAction::Finish { success: false }
    );
    assert_eq!(s.phase, InjectPhase::Failed(InjectError::ProcessAccess));

    let mut s = InjectSession::new();
    s.step(InjectEvent::Opened { ok: true });
    s.step(InjectEvent::MachineDetected { known: false });
    assert_eq!(s.phase, InjectPhase::Failed(InjectError::ArchitectureUnknown));

    let mut s = InjectSession::new();
    s.step(InjectEvent::Opened { ok: true });
    s.step(InjectEvent::MachineDetected { known: true });
    s.step(InjectEvent::ImageSelected { ok: true });
    s.step(InjectEvent::EntryResolved { entry: None });
    assert_eq!(s.phase, InjectPhase::Failed(InjectError::EntryUnresolved));

    let mut s = InjectSession::new();
    s.step(InjectEvent::Opened { ok: true });
    s.step(InjectEvent::MachineDetected { known: true });
    s.step(InjectEvent::ImageSelected { ok: true });
    s.step(InjectEvent::EntryResolved { entry: Some(1) });
    s.step(InjectEvent::BufferAllocated { addr: 0 });
    assert_eq!(s.phase, InjectPhase::Failed(InjectError::RemoteAllocFailed));

    let mut s = InjectSession::new();
    s.step(InjectEvent::Opened { ok: true });
    s.step(InjectEvent::MachineDetected { known: true });
    s.step(InjectEvent::ImageSelected { ok: true });
    s.step(InjectEvent::EntryResolved { entry: Some(1) });
    s.step(InjectEvent::BufferAllocated { addr: 2 });
    s.step(InjectEvent::PathWritten { ok: true });
    s.step(InjectEvent::ThreadFinished { ok: false });
    assert_eq!(s.phase, InjectPhase::Failed(InjectError::ThreadFailed));

    let mut s = InjectSession::new();
    s.step(InjectEvent::Opened { ok: true });
    s.step(InjectEvent::MachineDetected { known: true });
    s.step(InjectEvent::ImageSelected { ok: true });
    s.step(InjectEvent::EntryResolved { entry: Some(1) });
    s.step(InjectEvent::BufferAllocated { addr: 2 });
    s.step(InjectEvent::PathWritten { ok: true });
    s.step(InjectEvent::ThreadFinished { ok: true });
    s.step(InjectEvent::ExitRead { ok: false, module_handle: 0 });
    assert_eq!(s.phase, InjectPhase::Failed(InjectError::ExitCodeUnreadable));

    // an answer to a step the session did not ask for
    let mut s = InjectSession::new();
    let action = s.step(InjectEvent::PathWritten { ok: true });
    assert_eq!(action, InjectAction::Finish { success: false });
    assert_eq!(s.phase, InjectPhase::Failed(InjectError::ProtocolViolation));

    // a protocol violation while a buffer is owned still frees it
    let mut s = InjectSession::new();
    s.step(InjectEvent::Opened { ok: true });
    s.step(InjectEvent::MachineDetected { known: true });
    s.step(InjectEvent::ImageSelected { ok: true });
    s.step(InjectEvent::EntryResolved { entry: Some(1) });
    s.step(InjectEvent::BufferAllocated { addr: 0x77 });
    let action = s.step(InjectEvent::Opened { ok: true });
    assert_eq!(action, InjectAction::FreeBufferAndFinish { buffer: 0x77, success: false });
    assert_eq!(s.phase, InjectPhase::Failed(InjectError::ProtocolViolation));
}
