//! Why a virtual CPU stopped running.
//!
//! The backend keeps no record of an exit. After a run the caller reads the
//! exit reason from the control structure, and with it the qualification,
//! and hands both to [`decode_exit`].

use vstd::prelude::*;

verus! {

/// An interrupt from outside arrived.
pub const VMX_REASON_IRQ: u16 = 1;

/// The guest became ready to take an interrupt.
pub const VMX_REASON_IRQ_WND: u16 = 7;

/// The guest executed `hlt`.
pub const VMX_REASON_HLT: u16 = 12;

/// The guest executed an I/O instruction.
pub const VMX_REASON_IO: u16 = 30;

/// The guest touched memory that its mapping does not allow.
pub const VMX_REASON_EPT_VIOLATION: u16 = 48;

/// The reason in the exit-reason field: its low 16 bits.
pub open spec fn spec_basic_exit_reason(field: u64) -> u16 {
    (field & 0xffff) as u16
}

/// The reason in the exit-reason field of the control structure: its low 16
/// bits. The bits above them are flags and do not bear on the reason.
#[verifier::when_used_as_spec(spec_basic_exit_reason)]
pub fn basic_exit_reason(field: u64) -> (reason: u16)
    ensures
        reason == spec_basic_exit_reason(field),
        reason == field as nat % 0x1_0000,
{
    assert((field & 0xffff) <= 0xffff && (field & 0xffff) == field % 0x1_0000) by (bit_vector);
    (field & 0xffff) as u16
}

/// The I/O address in the qualification of an I/O exit: its bits 16 to 31.
pub open spec fn spec_io_port(qualification: u64) -> u16 {
    ((qualification >> 16) & 0xffff) as u16
}

/// The I/O address that the guest's instruction named, from the
/// qualification of an I/O exit: its bits 16 to 31.
#[verifier::when_used_as_spec(spec_io_port)]
pub fn io_port(qualification: u64) -> (port: u16)
    ensures
        port == spec_io_port(qualification),
        port == (qualification as nat / 0x1_0000) % 0x1_0000,
{
    assert(((qualification >> 16) & 0xffff) <= 0xffff && ((qualification >> 16) & 0xffff) == (
    qualification / 0x1_0000) % 0x1_0000) by (bit_vector);
    ((qualification >> 16) & 0xffff) as u16
}

/// Why a virtual CPU stopped running, as a caller needs it to go on.
#[derive(Clone, Copy, Debug, PartialEq, Eq, Structural)]
pub enum VmExit {
    /// An interrupt from outside arrived. The guest can be resumed.
    Irq,
    /// The guest became ready to take an interrupt.
    IrqWindow,
    /// The guest halted.
    Hlt,
    /// The guest executed an I/O instruction on the address `port`. The
    /// instruction has not been carried out: the host does its work and
    /// steps over it (see [`next_instruction`]).
    Io { port: u16 },
    /// The guest touched memory that its mapping does not allow.
    EptViolation,
    /// Any other reason, by its number.
    Other { reason: u16 },
}

impl VmExit {
    /// The exit that the exit-reason field and the qualification stand for.
    pub open spec fn of_fields(exit_reason: u64, qualification: u64) -> VmExit {
        let reason = spec_basic_exit_reason(exit_reason);
        if reason == VMX_REASON_IRQ {
            VmExit::Irq
        } else if reason == VMX_REASON_IRQ_WND {
            VmExit::IrqWindow
        } else if reason == VMX_REASON_HLT {
            VmExit::Hlt
        } else if reason == VMX_REASON_IO {
            VmExit::Io { port: spec_io_port(qualification) }
        } else if reason == VMX_REASON_EPT_VIOLATION {
            VmExit::EptViolation
        } else {
            VmExit::Other { reason }
        }
    }
}

/// Derives the exit from the two fields of the control structure that
/// describe it: `exit_reason`, of which the low 16 bits count, and
/// `qualification`, which is consulted for an I/O exit only. A reason that
/// has no variant of its own is handed on as a number.
pub fn decode_exit(exit_reason: u64, qualification: u64) -> (exit: VmExit)
    ensures
        exit == VmExit::of_fields(exit_reason, qualification),
{
    let reason = basic_exit_reason(exit_reason);
    match reason {
        VMX_REASON_IRQ => VmExit::Irq,
        VMX_REASON_IRQ_WND => VmExit::IrqWindow,
        VMX_REASON_HLT => VmExit::Hlt,
        VMX_REASON_IO => VmExit::Io { port: io_port(qualification) },
        VMX_REASON_EPT_VIOLATION => VmExit::EptViolation,
        _ => VmExit::Other { reason },
    }
}

/// The instruction pointer behind the instruction that left the guest:
/// `rip` plus the length that the control structure reports. To be written
/// back before the guest is resumed, once the host has done the work of the
/// instruction, so that the guest does not execute it again. There is none
/// where the sum does not fit 64 bits.
pub fn next_instruction(rip: u64, instruction_length: u64) -> (next: Option<u64>)
    ensures
        next is Some <==> rip + instruction_length <= u64::MAX,
        next matches Some(n) ==> n == rip + instruction_length,
{
    rip.checked_add(instruction_length)
}

} // verus!
