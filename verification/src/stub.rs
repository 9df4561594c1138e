//! Liveness stub synthesis for 32-bit targets: a minimal block of x86
//! code that reports the first use of an interface once and forwards
//! every call on to the intercepted entry point, and the plan for
//! patching a private vtable copy with such stubs.

use vstd::prelude::*;
use crate::memory::AddressSpace;

verus! {

/// The little-endian bytes of a 32-bit immediate.
pub open spec fn spec_le4(n: int) -> Seq<u8> {
    seq![
        (n % 0x100) as u8,
        ((n / 0x100) % 0x100) as u8,
        ((n / 0x1_0000) % 0x100) as u8,
        ((n / 0x100_0000) % 0x100) as u8,
    ]
}

/// The stub's code, byte for byte:
///
/// ```text
///   cmp byte ptr [flag], 0     ; already reported? then plain forward
///   jne tail
///   pushfd
///   pushad                     ; preserve all registers and flags
///   push target                ; the logger's three arguments,
///   push index                 ; pushed right to left
///   push kind
///   call logger                ; reports first use exactly once
///   popad
///   popfd
///   mov byte ptr [flag], 1
/// tail:
///   mov eax, target
///   jmp eax                    ; forward to the real entry point
/// ```
///
/// The `jne` displacement is fixed by the layout: 31 bytes from its end
/// to `tail`.
pub open spec fn spec_stub_bytes(
    kind: u32,
    index: u32,
    target: u32,
    flag_addr: u32,
    call_rel32: int,
) -> Seq<u8> {
    seq![0x80u8, 0x3Du8] + spec_le4(flag_addr as int) + seq![0x00u8] + seq![0x75u8, 31u8] + seq![
        0x9Cu8,
        0x60u8,
    ] + seq![0x68u8] + spec_le4(target as int) + seq![0x68u8] + spec_le4(index as int) + seq![
        0x68u8,
    ] + spec_le4(kind as int) + seq![0xE8u8] + spec_le4(call_rel32) + seq![0x61u8, 0x9Du8] + seq![
        0xC6u8,
        0x05u8,
    ] + spec_le4(flag_addr as int) + seq![0x01u8] + seq![0xB8u8] + spec_le4(target as int) + seq![
        0xFFu8,
        0xE0u8,
    ]
}

/// The displacement of the logger call: from the byte after the call
/// instruction (offset 31 of the stub) to the logger, as a signed
/// 32-bit value.
pub open spec fn spec_call_displacement(logger_addr: u32, stub_base: u32) -> int {
    logger_addr - (stub_base + 31)
}

/// The displacement encodes as an unsigned 32-bit immediate, two's
/// complement.
pub open spec fn spec_call_rel32(logger_addr: u32, stub_base: u32) -> int {
    let d = spec_call_displacement(logger_addr, stub_base);
    if d < 0 {
        d + 0x1_0000_0000
    } else {
        d
    }
}

fn push_le4(code: &mut Vec<u8>, n: u32)
    ensures
        final(code)@ == old(code)@ + spec_le4(n as int),
{
    code.push((n % 0x100) as u8);
    code.push((n / 0x100 % 0x100) as u8);
    code.push((n / 0x1_0000 % 0x100) as u8);
    code.push((n / 0x100_0000 % 0x100) as u8);
    assert(final(code)@ =~= old(code)@ + spec_le4(n as int));
}

/// Synthesize the liveness stub's code for one vtable entry, to be
/// copied into fresh executable memory at `stub_base`. Nothing is
/// produced when the logger lies farther than a 32-bit displacement
/// from the call site.
pub fn make_liveness_stub(
    kind: u32,
    index: u32,
    target: u32,
    flag_addr: u32,
    logger_addr: u32,
    stub_base: u32,
) -> (r: Option<Vec<u8>>)
    ensures
        match r {
            Some(code) => {
                &&& -0x8000_0000 <= spec_call_displacement(logger_addr, stub_base) < 0x8000_0000
                &&& code@ == spec_stub_bytes(
                    kind,
                    index,
                    target,
                    flag_addr,
                    spec_call_rel32(logger_addr, stub_base),
                )
                &&& code@.len() == 47
            },
            None => !(-0x8000_0000 <= spec_call_displacement(logger_addr, stub_base)
                < 0x8000_0000),
        },
{
    let diff: i64 = logger_addr as i64 - (stub_base as i64 + 31);
    if diff < -0x8000_0000i64 || diff >= 0x8000_0000i64 {
        return None;
    }
    let rel32: u32 = if diff >= 0 {
        diff as u32
    } else {
        (diff + 0x1_0000_0000i64) as u32
    };

    let mut code: Vec<u8> = Vec::new();
    code.push(0x80);
    code.push(0x3D);
    push_le4(&mut code, flag_addr);
    code.push(0x00);
    code.push(0x75);
    code.push(31);
    code.push(0x9C);
    code.push(0x60);
    code.push(0x68);
    push_le4(&mut code, target);
    code.push(0x68);
    push_le4(&mut code, index);
    code.push(0x68);
    push_le4(&mut code, kind);
    code.push(0xE8);
    push_le4(&mut code, rel32);
    code.push(0x61);
    code.push(0x9D);
    code.push(0xC6);
    code.push(0x05);
    push_le4(&mut code, flag_addr);
    code.push(0x01);
    code.push(0xB8);
    push_le4(&mut code, target);
    code.push(0xFF);
    code.push(0xE0);
    assert(code@ =~= spec_stub_bytes(
        kind,
        index,
        target,
        flag_addr,
        spec_call_rel32(logger_addr, stub_base),
    ));
    Some(code)
}

/// The process-wide liveness flag: set at most once, no matter how many
/// threads race to report first use.
pub struct LivenessFlag {
    pub reported: bool,
}

impl LivenessFlag {
    pub fn new() -> (f: LivenessFlag)
        ensures
            !f.reported,
    {
        LivenessFlag { reported: false }
    }

    /// Atomically claim the right to report: at most one claim over the
    /// flag's whole lifetime succeeds, since a successful claim leaves
    /// the flag set forever.
    pub fn try_claim(&mut self) -> (won: bool)
        ensures
            won == !old(self).reported,
            final(self).reported,
    {
        let won = !self.reported;
        self.reported = true;
        won
    }
}

/// Whether a copied vtable entry gets a stub: only a non-null entry
/// that points into one of the recognized runtime modules and into
/// executable memory. Other entries are copied unchanged, so calls
/// through them behave exactly as before.
pub open spec fn spec_slot_patchable(
    mem: AddressSpace,
    vtable: u64,
    i: int,
    runtime_bases: Seq<u64>,
) -> bool {
    let m = mem.spec_word_at((vtable + i) as u64);
    &&& m != 0
    &&& exists|k: int| 0 <= k < runtime_bases.len() && mem.spec_in_module(m, runtime_bases[k])
    &&& mem.spec_is_executable(m)
}

/// Decide the vtable patch for one instance: which of the first
/// `max_slots` entries of its vtable get a liveness stub in the private
/// copy. Nothing is planned when first use was already reported, this
/// instance was already patched, or the instance or its vtable fails
/// the memory-accessibility checks.
pub fn plan_vtable_patch(
    mem: &AddressSpace,
    instance: u64,
    max_slots: u64,
    runtime_bases: &[u64],
    already_patched: bool,
    usage_reported: bool,
) -> (r: Option<Vec<bool>>)
    requires
        mem.wf(),
        max_slots < 0x1_0000,
    ensures
        usage_reported || already_patched ==> r is None,
        !usage_reported && !already_patched && !mem.spec_is_readable(instance, 1) ==> r is None,
        (!usage_reported && !already_patched && mem.spec_is_readable(instance, 1)
            && !mem.spec_is_readable(mem.spec_word_at(instance), max_slots as int)) ==> r is None,
        (!usage_reported && !already_patched && mem.spec_is_readable(instance, 1)
            && mem.spec_is_readable(mem.spec_word_at(instance), max_slots as int)) ==> match r {
            Some(plan) => {
                &&& plan@.len() == max_slots
                &&& forall|i: int|
                    0 <= i < max_slots ==> #[trigger] plan@[i] == spec_slot_patchable(
                        *mem,
                        mem.spec_word_at(instance),
                        i,
                        runtime_bases@,
                    )
            },
            None => false,
        },
{
    if usage_reported || already_patched {
        return None;
    }
    if !mem.is_readable_ptr(instance, 1) {
        return None;
    }
    let vtable = match mem.read_word(instance) {
        Some(w) => w,
        None => {
            return None;
        },
    };
    if !mem.is_readable_ptr(vtable, max_slots) {
        return None;
    }
    let mut plan: Vec<bool> = Vec::new();
    let mut i: u64 = 0;
    while i < max_slots
        invariant
            mem.wf(),
            i <= max_slots < 0x1_0000,
            vtable == mem.spec_word_at(instance),
            mem.spec_is_readable(vtable, max_slots as int),
            plan@.len() == i,
            forall|j: int|
                0 <= j < i ==> #[trigger] plan@[j] == spec_slot_patchable(
                    *mem,
                    vtable,
                    j,
                    runtime_bases@,
                ),
        decreases max_slots - i,
    {
        proof {
            crate::memory::lemma_find_region_in_bounds(mem.regions@, vtable, 0);
            let ri = mem.spec_region_of(vtable)->Some_0;
            assert(mem.regions@[ri].wf());
            mem.lemma_region_of_unique((vtable + i) as u64, ri);
        }
        let entry = match mem.read_word(vtable + i) {
            Some(w) => w,
            None => {
                proof {
                    assert(false);
                }
                0
            },
        };
        let patch = entry != 0 && mem.is_ptr_in_runtime(entry, runtime_bases)
            && mem.is_executable_ptr(entry);
        plan.push(patch);
        i += 1;
    }
    Some(plan)
}

} // verus!
