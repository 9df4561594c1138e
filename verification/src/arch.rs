//! Target architecture detection from the two process-architecture
//! queries the platform offers, preferring the two-machine-type query,
//! which is accurate for cross-architecture emulation.

use vstd::prelude::*;

verus! {

/// Machine type constants of the PE image format.
pub const MACHINE_UNKNOWN: u16 = 0;

pub const MACHINE_I386: u16 = 0x014C;

pub const MACHINE_AMD64: u16 = 0x8664;

pub const MACHINE_ARM64: u16 = 0xAA64;

/// The architecture the controller itself was built for, which the
/// fallback query needs to interpret its boolean answer.
#[derive(Clone, Copy, Debug, PartialEq, Eq, Structural)]
pub enum HostMachine {
    X86,
    X64,
    Arm64,
}

/// What the boolean emulation query implies: an emulated target is
/// 32-bit x86; a native target shares the host's machine type.
pub open spec fn spec_wow64_fallback(is_wow64: bool, host: HostMachine) -> u16 {
    match host {
        HostMachine::X86 => MACHINE_I386,
        HostMachine::X64 => if is_wow64 {
            MACHINE_I386
        } else {
            MACHINE_AMD64
        },
        HostMachine::Arm64 => if is_wow64 {
            MACHINE_I386
        } else {
            MACHINE_ARM64
        },
    }
}

/// The detected machine type: the two-machine-type query wins when it
/// answered, reading an `UNKNOWN` process machine as "native, not
/// emulated"; otherwise the boolean query decides; with neither answer
/// the architecture is undetermined.
pub open spec fn spec_detect_machine(
    two_machine_query: Option<(u16, u16)>,
    wow64_query: Option<bool>,
    host: HostMachine,
) -> Option<u16> {
    match two_machine_query {
        Some((process_machine, native_machine)) => Some(
            if process_machine == MACHINE_UNKNOWN {
                native_machine
            } else {
                process_machine
            },
        ),
        None => match wow64_query {
            Some(is_wow64) => Some(spec_wow64_fallback(is_wow64, host)),
            None => None,
        },
    }
}

/// Decide the target's machine type from the answers of the two
/// architecture queries; `two_machine_query` carries the (process,
/// native) pair when that query succeeded, `wow64_query` the boolean
/// answer of the older query.
pub fn detect_process_machine(
    two_machine_query: Option<(u16, u16)>,
    wow64_query: Option<bool>,
    host: HostMachine,
) -> (r: Option<u16>)
    ensures
        r == spec_detect_machine(two_machine_query, wow64_query, host),
{
    match two_machine_query {
        Some((process_machine, native_machine)) => {
            if process_machine == MACHINE_UNKNOWN {
                Some(native_machine)
            } else {
                Some(process_machine)
            }
        },
        None => match wow64_query {
            Some(is_wow64) => Some(
                match host {
                    HostMachine::X86 => MACHINE_I386,
                    HostMachine::X64 => if is_wow64 {
                        MACHINE_I386
                    } else {
                        MACHINE_AMD64
                    },
                    HostMachine::Arm64 => if is_wow64 {
                        MACHINE_I386
                    } else {
                        MACHINE_ARM64
                    },
                },
            ),
            None => None,
        },
    }
}

} // verus!
