//! The architectural registers of a virtual CPU.

use vstd::prelude::*;

verus! {

/// Native identifier of an architectural register.
#[allow(non_camel_case_types)]
pub type hv_x86_reg_t = libc::c_uint;

/// The number of architectural registers, and the native identifier of the
/// member that closes the enumeration.
pub const HV_X86_REGISTERS_MAX: hv_x86_reg_t = 51;

/// x86 architectural register
///
/// `REGISTERS_MAX` closes the enumeration and names no register.
#[allow(non_camel_case_types)]
#[derive(Clone, Copy, Debug, PartialEq, Eq, Structural)]
pub enum Register {
    RIP,
    RFLAGS,
    RAX,
    RCX,
    RDX,
    RBX,
    RSI,
    RDI,
    RSP,
    RBP,
    R8,
    R9,
    R10,
    R11,
    R12,
    R13,
    R14,
    R15,
    CS,
    SS,
    DS,
    ES,
    FS,
    GS,
    IDT_BASE,
    IDT_LIMIT,
    GDT_BASE,
    GDT_LIMIT,
    LDTR,
    LDT_BASE,
    LDT_LIMIT,
    LDT_AR,
    TR,
    TSS_BASE,
    TSS_LIMIT,
    TSS_AR,
    CR0,
    CR1,
    CR2,
    CR3,
    CR4,
    DR0,
    DR1,
    DR2,
    DR3,
    DR4,
    DR5,
    DR6,
    DR7,
    TPR,
    XCR0,
    REGISTERS_MAX,
}

impl Register {
    /// The native identifier of the register: its place in the
    /// enumeration, counted from 0.
    pub open spec fn spec_native_id(&self) -> hv_x86_reg_t {
        match *self {
            Register::RIP => 0,
            Register::RFLAGS => 1,
            Register::RAX => 2,
            Register::RCX => 3,
            Register::RDX => 4,
            Register::RBX => 5,
            Register::RSI => 6,
            Register::RDI => 7,
            Register::RSP => 8,
            Register::RBP => 9,
            Register::R8 => 10,
            Register::R9 => 11,
            Register::R10 => 12,
            Register::R11 => 13,
            Register::R12 => 14,
            Register::R13 => 15,
            Register::R14 => 16,
            Register::R15 => 17,
            Register::CS => 18,
            Register::SS => 19,
            Register::DS => 20,
            Register::ES => 21,
            Register::FS => 22,
            Register::GS => 23,
            Register::IDT_BASE => 24,
            Register::IDT_LIMIT => 25,
            Register::GDT_BASE => 26,
            Register::GDT_LIMIT => 27,
            Register::LDTR => 28,
            Register::LDT_BASE => 29,
            Register::LDT_LIMIT => 30,
            Register::LDT_AR => 31,
            Register::TR => 32,
            Register::TSS_BASE => 33,
            Register::TSS_LIMIT => 34,
            Register::TSS_AR => 35,
            Register::CR0 => 36,
            Register::CR1 => 37,
            Register::CR2 => 38,
            Register::CR3 => 39,
            Register::CR4 => 40,
            Register::DR0 => 41,
            Register::DR1 => 42,
            Register::DR2 => 43,
            Register::DR3 => 44,
            Register::DR4 => 45,
            Register::DR5 => 46,
            Register::DR6 => 47,
            Register::DR7 => 48,
            Register::TPR => 49,
            Register::XCR0 => 50,
            Register::REGISTERS_MAX => 51,
        }
    }

    /// The native identifier of the register.
    #[verifier::when_used_as_spec(spec_native_id)]
    pub fn native_id(&self) -> (id: hv_x86_reg_t)
        ensures
            id == self.spec_native_id(),
            id <= HV_X86_REGISTERS_MAX,
            id == HV_X86_REGISTERS_MAX <==> *self is REGISTERS_MAX,
    {
        match self {
            Register::RIP => 0,
            Register::RFLAGS => 1,
            Register::RAX => 2,
            Register::RCX => 3,
            Register::RDX => 4,
            Register::RBX => 5,
            Register::RSI => 6,
            Register::RDI => 7,
            Register::RSP => 8,
            Register::RBP => 9,
            Register::R8 => 10,
            Register::R9 => 11,
            Register::R10 => 12,
            Register::R11 => 13,
            Register::R12 => 14,
            Register::R13 => 15,
            Register::R14 => 16,
            Register::R15 => 17,
            Register::CS => 18,
            Register::SS => 19,
            Register::DS => 20,
            Register::ES => 21,
            Register::FS => 22,
            Register::GS => 23,
            Register::IDT_BASE => 24,
            Register::IDT_LIMIT => 25,
            Register::GDT_BASE => 26,
            Register::GDT_LIMIT => 27,
            Register::LDTR => 28,
            Register::LDT_BASE => 29,
            Register::LDT_LIMIT => 30,
            Register::LDT_AR => 31,
            Register::TR => 32,
            Register::TSS_BASE => 33,
            Register::TSS_LIMIT => 34,
            Register::TSS_AR => 35,
            Register::CR0 => 36,
            Register::CR1 => 37,
            Register::CR2 => 38,
            Register::CR3 => 39,
            Register::CR4 => 40,
            Register::DR0 => 41,
            Register::DR1 => 42,
            Register::DR2 => 43,
            Register::DR3 => 44,
            Register::DR4 => 45,
            Register::DR5 => 46,
            Register::DR6 => 47,
            Register::DR7 => 48,
            Register::TPR => 49,
            Register::XCR0 => 50,
            Register::REGISTERS_MAX => 51,
        }
    }
}

/// Two registers with one native identifier are one register: reading a
/// register back after writing it addresses what was written, and writing
/// one register leaves every other alone.
pub proof fn lemma_register_ids_distinct(a: Register, b: Register)
    ensures
        a.native_id() == b.native_id() <==> a == b,
{
}

} // verus!
