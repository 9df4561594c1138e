//! Remote injection planning: selecting the agent image that matches the
//! target's architecture, computing the remote entry point, the bounded
//! retry rule for module enumeration, and the injection session's state
//! machine, which fixes the order of the operating-system steps and
//! guarantees that no remote memory is touched before an agent image is
//! found and that an allocated remote buffer is freed on every exit.

use vstd::prelude::*;
use crate::arch::MACHINE_I386;

verus! {

/// Module enumeration of a just-created process can fail transiently
/// with these codes while its loader metadata is incomplete.
pub const ERROR_BAD_LENGTH: u32 = 24;

pub const ERROR_PARTIAL_COPY: u32 = 299;

/// How many times module enumeration is retried before giving up.
pub const MODULE_RETRY_ATTEMPTS: u32 = 10;

/// Whether a failed module enumeration is worth retrying after a short
/// backoff: only the two transient "target not fully initialized" codes.
pub fn should_retry_module_snapshot(error_code: u32) -> (r: bool)
    ensures
        r == (error_code == ERROR_PARTIAL_COPY || error_code == ERROR_BAD_LENGTH),
{
    error_code == ERROR_PARTIAL_COPY || error_code == ERROR_BAD_LENGTH
}

/// Index of the first candidate marked present, if any.
pub open spec fn spec_first_existing(cands: Seq<(String, bool)>, i: int) -> Option<int>
    decreases cands.len() - i when 0 <= i <= cands.len()
{
    if i >= cands.len() {
        None
    } else if cands[i].1 {
        Some(i)
    } else {
        spec_first_existing(cands, i + 1)
    }
}

/// No agent image matches the target architecture.
#[derive(Debug)]
pub enum AgentImageError {
    /// The target is 32-bit x86 and none of the 32-bit agent image
    /// candidates is present; every checked path is listed.
    MissingX86Image { checked: Vec<String> },
    /// The single native agent image candidate is not present.
    MissingImage { machine: u16, expected: String },
}

/// Pick the agent image for the detected machine type. Each candidate
/// carries its filesystem path and whether it exists on disk. A 32-bit
/// target takes the first existing 32-bit candidate; any other machine
/// type takes the single native candidate. When nothing matches, the
/// error lists exactly what was checked.
pub fn select_agent_image(
    machine: u16,
    x86_candidates: &Vec<(String, bool)>,
    native_path: &String,
    native_exists: bool,
) -> (r: Result<String, AgentImageError>)
    ensures
        machine == MACHINE_I386 ==> match r {
            Ok(p) => {
                &&& spec_first_existing(x86_candidates@, 0) is Some
                &&& p@ == x86_candidates@[spec_first_existing(x86_candidates@, 0)->Some_0].0@
            },
            Err(e) => {
                &&& spec_first_existing(x86_candidates@, 0) is None
                &&& e matches AgentImageError::MissingX86Image { checked }
                &&& checked@.len() == x86_candidates@.len()
                &&& forall|i: int|
                    0 <= i < checked@.len() ==> (#[trigger] checked@[i])@ == x86_candidates@[i].0@
            },
        },
        machine != MACHINE_I386 ==> match r {
            Ok(p) => native_exists && p@ == native_path@,
            Err(e) => {
                &&& !native_exists
                &&& e matches AgentImageError::MissingImage { machine: m, expected }
                &&& m == machine
                &&& expected@ == native_path@
            },
        },
{
    if machine == MACHINE_I386 {
        let mut i: usize = 0;
        while i < x86_candidates.len()
            invariant
                machine == MACHINE_I386,
                i <= x86_candidates@.len(),
                spec_first_existing(x86_candidates@, 0) == spec_first_existing(
                    x86_candidates@,
                    i as int,
                ),
            decreases x86_candidates@.len() - i,
        {
            if x86_candidates[i].1 {
                let p = x86_candidates[i].0.clone();
                return Ok(p);
            }
            i += 1;
        }
        let mut checked: Vec<String> = Vec::new();
        let mut k: usize = 0;
        while k < x86_candidates.len()
            invariant
                k <= x86_candidates@.len(),
                checked@.len() == k,
                forall|j: int|
                    0 <= j < k ==> (#[trigger] checked@[j])@ == x86_candidates@[j].0@,
            decreases x86_candidates@.len() - k,
        {
            checked.push(x86_candidates[k].0.clone());
            k += 1;
        }
        Err(AgentImageError::MissingX86Image { checked })
    } else {
        if native_exists {
            Ok(native_path.clone())
        } else {
            Err(
                AgentImageError::MissingImage {
                    machine,
                    expected: native_path.clone(),
                },
            )
        }
    }
}

/// Pick the source to copy the 32-bit unwinding runtime from: nothing to
/// do when it already sits beside the agent image, else the first
/// toolchain install location where it exists.
pub fn select_unwind_source(dst_exists: bool, candidates: &Vec<(String, bool)>) -> (r: Option<
    Option<String>,
>)
    ensures
        dst_exists ==> r == Some(None::<String>),
        !dst_exists ==> match r {
            Some(src) => {
                &&& spec_first_existing(candidates@, 0) is Some
                &&& src is Some
                &&& src->Some_0@ == candidates@[spec_first_existing(candidates@, 0)->Some_0].0@
            },
            None => spec_first_existing(candidates@, 0) is None,
        },
{
    if dst_exists {
        return Some(None);
    }
    let mut i: usize = 0;
    while i < candidates.len()
        invariant
            !dst_exists,
            i <= candidates@.len(),
            spec_first_existing(candidates@, 0) == spec_first_existing(candidates@, i as int),
        decreases candidates@.len() - i,
    {
        if candidates[i].1 {
            return Some(Some(candidates[i].0.clone()));
        }
        i += 1;
    }
    None
}

/// The absolute remote entry point: the loader module's live base plus
/// the export's RVA, unless the sum leaves the address space.
pub fn remote_entry_address(base: u64, rva: u32) -> (r: Option<u64>)
    ensures
        base + rva <= u64::MAX ==> r == Some((base + rva) as u64),
        base + rva > u64::MAX ==> r is None,
{
    base.checked_add(rva as u64)
}

/// Why an injection attempt was abandoned.
#[derive(Clone, Copy, Debug, PartialEq, Eq, Structural)]
pub enum InjectError {
    /// The target process could not be opened.
    ProcessAccess,
    /// Neither architecture query answered.
    ArchitectureUnknown,
    /// No agent image matches the target architecture.
    ImageMissing,
    /// The loader entry point could not be resolved.
    EntryUnresolved,
    /// Remote memory could not be allocated.
    RemoteAllocFailed,
    /// The image path could not be fully written into the target.
    RemoteWriteFailed,
    /// The remote execution context could not be created or awaited.
    ThreadFailed,
    /// The remote context's exit status could not be read.
    ExitCodeUnreadable,
    /// The remote load itself reported a null module handle, usually a
    /// missing dependency of the agent image rather than an injection
    /// machinery failure.
    RemoteLoadFailed,
    /// The controller answered a step the session did not ask for.
    ProtocolViolation,
}

/// Where an injection session stands. Phases that hold a `u64` own a
/// remote buffer at that address which is not yet freed.
#[derive(Clone, Copy, Debug, PartialEq, Eq, Structural)]
pub enum InjectPhase {
    Start,
    Opened,
    MachineKnown,
    ImageReady,
    EntryReady,
    Allocated(u64),
    Written(u64),
    ThreadDone(u64),
    Done,
    Failed(InjectError),
}

/// What the controller reports back to the session after performing the
/// action the session asked for.
#[derive(Clone, Copy, Debug, PartialEq, Eq, Structural)]
pub enum InjectEvent {
    Opened { ok: bool },
    MachineDetected { known: bool },
    ImageSelected { ok: bool },
    EntryResolved { entry: Option<u64> },
    BufferAllocated { addr: u64 },
    PathWritten { ok: bool },
    ThreadFinished { ok: bool },
    ExitRead { ok: bool, module_handle: u32 },
}

/// The next operating-system step the controller must perform, or the
/// end of the attempt. Finishing from a phase that owns a remote buffer
/// always names it so the controller frees it.
#[derive(Clone, Copy, Debug, PartialEq, Eq, Structural)]
pub enum InjectAction {
    OpenProcess,
    DetectMachine,
    SelectImage,
    ResolveEntry,
    AllocateBuffer,
    WriteImagePath,
    RunRemoteThread,
    ReadExitCode,
    FreeBufferAndFinish { buffer: u64, success: bool },
    Finish { success: bool },
}

/// The injection session's transition relation: each phase accepts the
/// answer to the step it asked for; an answer to any other step is a
/// protocol violation and abandons the attempt. A zero module handle
/// from the remote load is a distinct failure from every machinery
/// failure before it.
pub open spec fn spec_inject_step(phase: InjectPhase, ev: InjectEvent) -> (InjectPhase,
    InjectAction) {
    match (phase, ev) {
        (InjectPhase::Start, InjectEvent::Opened { ok }) => if ok {
            (InjectPhase::Opened, InjectAction::DetectMachine)
        } else {
            (
                InjectPhase::Failed(InjectError::ProcessAccess),
                InjectAction::Finish { success: false },
            )
        },
        (InjectPhase::Opened, InjectEvent::MachineDetected { known }) => if known {
            (InjectPhase::MachineKnown, InjectAction::SelectImage)
        } else {
            (
                InjectPhase::Failed(InjectError::ArchitectureUnknown),
                InjectAction::Finish { success: false },
            )
        },
        (InjectPhase::MachineKnown, InjectEvent::ImageSelected { ok }) => if ok {
            (InjectPhase::ImageReady, InjectAction::ResolveEntry)
        } else {
            (
                InjectPhase::Failed(InjectError::ImageMissing),
                InjectAction::Finish { success: false },
            )
        },
        (InjectPhase::ImageReady, InjectEvent::EntryResolved { entry }) => match entry {
            Some(_) => (InjectPhase::EntryReady, InjectAction::AllocateBuffer),
            None => (
                InjectPhase::Failed(InjectError::EntryUnresolved),
                InjectAction::Finish { success: false },
            ),
        },
        (InjectPhase::EntryReady, InjectEvent::BufferAllocated { addr }) => if addr != 0 {
            (InjectPhase::Allocated(addr), InjectAction::WriteImagePath)
        } else {
            (
                InjectPhase::Failed(InjectError::RemoteAllocFailed),
                InjectAction::Finish { success: false },
            )
        },
        (InjectPhase::Allocated(buf), InjectEvent::PathWritten { ok }) => if ok {
            (InjectPhase::Written(buf), InjectAction::RunRemoteThread)
        } else {
            (
                InjectPhase::Failed(InjectError::RemoteWriteFailed),
                InjectAction::FreeBufferAndFinish { buffer: buf, success: false },
            )
        },
        (InjectPhase::Written(buf), InjectEvent::ThreadFinished { ok }) => if ok {
            (InjectPhase::ThreadDone(buf), InjectAction::ReadExitCode)
        } else {
            (
                InjectPhase::Failed(InjectError::ThreadFailed),
                InjectAction::FreeBufferAndFinish { buffer: buf, success: false },
            )
        },
        (InjectPhase::ThreadDone(buf), InjectEvent::ExitRead { ok, module_handle }) => if !ok {
            (
                InjectPhase::Failed(InjectError::ExitCodeUnreadable),
                InjectAction::FreeBufferAndFinish { buffer: buf, success: false },
            )
        } else if module_handle == 0 {
            (
                InjectPhase::Failed(InjectError::RemoteLoadFailed),
                InjectAction::FreeBufferAndFinish { buffer: buf, success: false },
            )
        } else {
            (InjectPhase::Done, InjectAction::FreeBufferAndFinish { buffer: buf, success: true })
        },
        (InjectPhase::Done, _) => (InjectPhase::Done, InjectAction::Finish { success: true }),
        (InjectPhase::Failed(e), _) => (
            InjectPhase::Failed(e),
            InjectAction::Finish { success: false },
        ),
        (InjectPhase::Allocated(buf), _) => (
            InjectPhase::Failed(InjectError::ProtocolViolation),
            InjectAction::FreeBufferAndFinish { buffer: buf, success: false },
        ),
        (InjectPhase::Written(buf), _) => (
            InjectPhase::Failed(InjectError::ProtocolViolation),
            InjectAction::FreeBufferAndFinish { buffer: buf, success: false },
        ),
        (InjectPhase::ThreadDone(buf), _) => (
            InjectPhase::Failed(InjectError::ProtocolViolation),
            InjectAction::FreeBufferAndFinish { buffer: buf, success: false },
        ),
        _ => (
            InjectPhase::Failed(InjectError::ProtocolViolation),
            InjectAction::Finish { success: false },
        ),
    }
}

/// One injection attempt, driven by the controller: it performs each
/// action the session asks for and feeds the answer back.
pub struct InjectSession {
    pub phase: InjectPhase,
}

impl InjectSession {
    /// A fresh attempt; the first step is opening the target.
    pub fn new() -> (s: InjectSession)
        ensures
            s.phase == InjectPhase::Start,
    {
        InjectSession { phase: InjectPhase::Start }
    }

    /// Feed the answer to the previous action in; the result is the next
    /// action to perform.
    pub fn step(&mut self, ev: InjectEvent) -> (action: InjectAction)
        ensures
            (final(self).phase, action) == spec_inject_step(old(self).phase, ev),
    {
        let (next, action) = match (self.phase, ev) {
            (InjectPhase::Start, InjectEvent::Opened { ok }) => {
                if ok {
                    (InjectPhase::Opened, InjectAction::DetectMachine)
                } else {
                    (
                        InjectPhase::Failed(InjectError::ProcessAccess),
                        InjectAction::Finish { success: false },
                    )
                }
            },
            (InjectPhase::Opened, InjectEvent::MachineDetected { known }) => {
                if known {
                    (InjectPhase::MachineKnown, InjectAction::SelectImage)
                } else {
                    (
                        InjectPhase::Failed(InjectError::ArchitectureUnknown),
                        InjectAction::Finish { success: false },
                    )
                }
            },
            (InjectPhase::MachineKnown, InjectEvent::ImageSelected { ok }) => {
                if ok {
                    (InjectPhase::ImageReady, InjectAction::ResolveEntry)
                } else {
                    (
                        InjectPhase::Failed(InjectError::ImageMissing),
                        InjectAction::Finish { success: false },
                    )
                }
            },
            (InjectPhase::ImageReady, InjectEvent::EntryResolved { entry }) => {
                match entry {
                    Some(_) => (InjectPhase::EntryReady, InjectAction::AllocateBuffer),
                    None => (
                        InjectPhase::Failed(InjectError::EntryUnresolved),
                        InjectAction::Finish { success: false },
                    ),
                }
            },
            (InjectPhase::EntryReady, InjectEvent::BufferAllocated { addr }) => {
                if addr != 0 {
                    (InjectPhase::Allocated(addr), InjectAction::WriteImagePath)
                } else {
                    (
                        InjectPhase::Failed(InjectError::RemoteAllocFailed),
                        InjectAction::Finish { success: false },
                    )
                }
            },
            (InjectPhase::Allocated(buf), InjectEvent::PathWritten { ok }) => {
                if ok {
                    (InjectPhase::Written(buf), InjectAction::RunRemoteThread)
                } else {
                    (
                        InjectPhase::Failed(InjectError::RemoteWriteFailed),
                        InjectAction::FreeBufferAndFinish { buffer: buf, success: false },
                    )
                }
            },
            (InjectPhase::Written(buf), InjectEvent::ThreadFinished { ok }) => {
                if ok {
                    (InjectPhase::ThreadDone(buf), InjectAction::ReadExitCode)
                } else {
                    (
                        InjectPhase::Failed(InjectError::ThreadFailed),
                        InjectAction::FreeBufferAndFinish { buffer: buf, success: false },
                    )
                }
            },
            (InjectPhase::ThreadDone(buf), InjectEvent::ExitRead { ok, module_handle }) => {
                if !ok {
                    (
                        InjectPhase::Failed(InjectError::ExitCodeUnreadable),
                        InjectAction::FreeBufferAndFinish { buffer: buf, success: false },
                    )
                } else if module_handle == 0 {
                    (
                        InjectPhase::Failed(InjectError::RemoteLoadFailed),
                        InjectAction::FreeBufferAndFinish { buffer: buf, success: false },
                    )
                } else {
                    (
                        InjectPhase::Done,
                        InjectAction::FreeBufferAndFinish { buffer: buf, success: true },
                    )
                }
            },
            (InjectPhase::Done, _) => (
                InjectPhase::Done,
                InjectAction::Finish { success: true },
            ),
            (InjectPhase::Failed(e), _) => (
                InjectPhase::Failed(e),
                InjectAction::Finish { success: false },
            ),
            (InjectPhase::Allocated(buf), _) => (
                InjectPhase::Failed(InjectError::ProtocolViolation),
                InjectAction::FreeBufferAndFinish { buffer: buf, success: false },
            ),
            (InjectPhase::Written(buf), _) => (
                InjectPhase::Failed(InjectError::ProtocolViolation),
                InjectAction::FreeBufferAndFinish { buffer: buf, success: false },
            ),
            (InjectPhase::ThreadDone(buf), _) => (
                InjectPhase::Failed(InjectError::ProtocolViolation),
                InjectAction::FreeBufferAndFinish { buffer: buf, success: false },
            ),
            _ => (
                InjectPhase::Failed(InjectError::ProtocolViolation),
                InjectAction::Finish { success: false },
            ),
        };
        self.phase = next;
        action
    }
}

/// A phase that owns an unfreed remote buffer.
pub open spec fn spec_owns_buffer(phase: InjectPhase) -> Option<u64> {
    match phase {
        InjectPhase::Allocated(b) => Some(b),
        InjectPhase::Written(b) => Some(b),
        InjectPhase::ThreadDone(b) => Some(b),
        _ => None,
    }
}

/// Before an agent image is selected, the session never asks for any
/// remote memory operation: with no image present the attempt fails
/// without an allocation or a write. In particular a 32-bit target with
/// no 32-bit agent image on disk produces only the listing error.
pub proof fn lemma_no_remote_memory_before_image(phase: InjectPhase, ev: InjectEvent)
    requires
        phase == InjectPhase::Start || phase == InjectPhase::Opened || phase
            == InjectPhase::MachineKnown,
    ensures
        spec_inject_step(phase, ev).1 != InjectAction::AllocateBuffer,
        spec_inject_step(phase, ev).1 != InjectAction::WriteImagePath,
        spec_inject_step(phase, ev).1 != InjectAction::RunRemoteThread,
        spec_owns_buffer(spec_inject_step(phase, ev).0) is None,
{
}

/// A remote buffer, once allocated, is accounted for on every step: the
/// next phase still owns it, or the action frees exactly that buffer.
pub proof fn lemma_buffer_always_freed(phase: InjectPhase, ev: InjectEvent)
    requires
        spec_owns_buffer(phase) is Some,
    ensures
        ({
            let (next, action) = spec_inject_step(phase, ev);
            spec_owns_buffer(next) == spec_owns_buffer(phase) || action
                == (InjectAction::FreeBufferAndFinish {
                buffer: spec_owns_buffer(phase)->Some_0,
                success: next == InjectPhase::Done,
            })
        }),
{
}

} // verus!
