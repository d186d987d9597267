//! The architectural registers of a virtual CPU.

use vstd::prelude::*;

verus! {

/// Native identifier of an architectural register.
#[allow(non_camel_case_types)]
pub type hv_reg_t = libc::c_uint;

/// General-purpose register `X0`.
pub const HV_REG_X0: hv_reg_t = 0;

/// General-purpose register `X1`.
pub const HV_REG_X1: hv_reg_t = 1;

/// General-purpose register `X2`.
pub const HV_REG_X2: hv_reg_t = 2;

/// General-purpose register `X3`.
pub const HV_REG_X3: hv_reg_t = 3;

/// General-purpose register `X4`.
pub const HV_REG_X4: hv_reg_t = 4;

/// General-purpose register `X5`.
pub const HV_REG_X5: hv_reg_t = 5;

/// General-purpose register `X6`.
pub const HV_REG_X6: hv_reg_t = 6;

/// General-purpose register `X7`.
pub const HV_REG_X7: hv_reg_t = 7;

/// General-purpose register `X8`.
pub const HV_REG_X8: hv_reg_t = 8;

/// General-purpose register `X9`.
pub const HV_REG_X9: hv_reg_t = 9;

/// General-purpose register `X10`.
pub const HV_REG_X10: hv_reg_t = 10;

/// General-purpose register `X11`.
pub const HV_REG_X11: hv_reg_t = 11;

/// General-purpose register `X12`.
pub const HV_REG_X12: hv_reg_t = 12;

/// General-purpose register `X13`.
pub const HV_REG_X13: hv_reg_t = 13;

/// General-purpose register `X14`.
pub const HV_REG_X14: hv_reg_t = 14;

/// General-purpose register `X15`.
pub const HV_REG_X15: hv_reg_t = 15;

/// General-purpose register `X16`.
pub const HV_REG_X16: hv_reg_t = 16;

/// General-purpose register `X17`.
pub const HV_REG_X17: hv_reg_t = 17;

/// General-purpose register `X18`.
pub const HV_REG_X18: hv_reg_t = 18;

/// General-purpose register `X19`.
pub const HV_REG_X19: hv_reg_t = 19;

/// General-purpose register `X20`.
pub const HV_REG_X20: hv_reg_t = 20;

/// General-purpose register `X21`.
pub const HV_REG_X21: hv_reg_t = 21;

/// General-purpose register `X22`.
pub const HV_REG_X22: hv_reg_t = 22;

/// General-purpose register `X23`.
pub const HV_REG_X23: hv_reg_t = 23;

/// General-purpose register `X24`.
pub const HV_REG_X24: hv_reg_t = 24;

/// General-purpose register `X25`.
pub const HV_REG_X25: hv_reg_t = 25;

/// General-purpose register `X26`.
pub const HV_REG_X26: hv_reg_t = 26;

/// General-purpose register `X27`.
pub const HV_REG_X27: hv_reg_t = 27;

/// General-purpose register `X28`.
pub const HV_REG_X28: hv_reg_t = 28;

/// General-purpose register `X29`.
pub const HV_REG_X29: hv_reg_t = 29;

/// General-purpose register `X30`.
pub const HV_REG_X30: hv_reg_t = 30;

/// The frame pointer, another name of `X29`.
pub const HV_REG_FP: hv_reg_t = 29;

/// The link register, another name of `X30`.
pub const HV_REG_LR: hv_reg_t = 30;

/// The program counter.
pub const HV_REG_PC: hv_reg_t = 31;

/// The floating-point control register.
pub const HV_REG_FPCR: hv_reg_t = 32;

/// The floating-point status register.
pub const HV_REG_FPSR: hv_reg_t = 33;

/// The current program status register.
pub const HV_REG_CPSR: hv_reg_t = 34;

/// aarch64 architectural register
#[derive(Clone, Copy, Debug, PartialEq, Eq, Structural)]
pub enum Register {
    /// X0 register.
    X0,

    /// X1 register.
    X1,

    /// X2 register.
    X2,

    /// X3 register.
    X3,

    /// X4 register.
    X4,

    /// X5 register.
    X5,

    /// X6 register.
    X6,

    /// X7 register.
    X7,

    /// X8 register.
    X8,

    /// X9 register.
    X9,

    /// X10 register.
    X10,

    /// X11 register.
    X11,

    /// X12 register.
    X12,

    /// X13 register.
    X13,

    /// X14 register.
    X14,

    /// X15 register.
    X15,

    /// X16 register.
    X16,

    /// X17 register.
    X17,

    /// X18 register.
    X18,

    /// X19 register.
    X19,

    /// X20 register.
    X20,

    /// X21 register.
    X21,

    /// X22 register.
    X22,

    /// X23 register.
    X23,

    /// X24 register.
    X24,

    /// X25 register.
    X25,

    /// X26 register.
    X26,

    /// X27 register.
    X27,

    /// X28 register.
    X28,

    /// X29 register.
    X29,

    /// FP register.
    FP,

    /// X30 register.
    X30,

    /// LR register.
    LR,

    /// PC register.
    PC,

    /// FPCR register.
    FPCR,

    /// FPSR register.
    FPSR,

    /// CPSR register.
    CPSR,
}

impl Register {
    /// The native identifier of the register. The general-purpose registers
    /// are numbered from 0; `FP` and `LR` are `X29` and `X30` under another
    /// name and share their numbers.
    pub open spec fn native_id(self) -> hv_reg_t {
        match self {
            Register::X0 => 0,
            Register::X1 => 1,
            Register::X2 => 2,
            Register::X3 => 3,
            Register::X4 => 4,
            Register::X5 => 5,
            Register::X6 => 6,
            Register::X7 => 7,
            Register::X8 => 8,
            Register::X9 => 9,
            Register::X10 => 10,
            Register::X11 => 11,
            Register::X12 => 12,
            Register::X13 => 13,
            Register::X14 => 14,
            Register::X15 => 15,
            Register::X16 => 16,
            Register::X17 => 17,
            Register::X18 => 18,
            Register::X19 => 19,
            Register::X20 => 20,
            Register::X21 => 21,
            Register::X22 => 22,
            Register::X23 => 23,
            Register::X24 => 24,
            Register::X25 => 25,
            Register::X26 => 26,
            Register::X27 => 27,
            Register::X28 => 28,
            Register::X29 => 29,
            Register::FP => 29,
            Register::X30 => 30,
            Register::LR => 30,
            Register::PC => 31,
            Register::FPCR => 32,
            Register::FPSR => 33,
            Register::CPSR => 34,
        }
    }

    /// The register is one of the two that go by a second name.
    pub open spec fn is_alias(self) -> bool {
        self is FP || self is LR
    }

    /// The register under its first name: `X29` for `FP`, `X30` for `LR`.
    pub open spec fn canonical(self) -> Register {
        match self {
            Register::FP => Register::X29,
            Register::LR => Register::X30,
            r => r,
        }
    }
}

impl From<Register> for hv_reg_t {
    fn from(value: Register) -> (id: hv_reg_t) {
        match value {
            Register::X0 => HV_REG_X0,
            Register::X1 => HV_REG_X1,
            Register::X2 => HV_REG_X2,
            Register::X3 => HV_REG_X3,
            Register::X4 => HV_REG_X4,
            Register::X5 => HV_REG_X5,
            Register::X6 => HV_REG_X6,
            Register::X7 => HV_REG_X7,
            Register::X8 => HV_REG_X8,
            Register::X9 => HV_REG_X9,
            Register::X10 => HV_REG_X10,
            Register::X11 => HV_REG_X11,
            Register::X12 => HV_REG_X12,
            Register::X13 => HV_REG_X13,
            Register::X14 => HV_REG_X14,
            Register::X15 => HV_REG_X15,
            Register::X16 => HV_REG_X16,
            Register::X17 => HV_REG_X17,
            Register::X18 => HV_REG_X18,
            Register::X19 => HV_REG_X19,
            Register::X20 => HV_REG_X20,
            Register::X21 => HV_REG_X21,
            Register::X22 => HV_REG_X22,
            Register::X23 => HV_REG_X23,
            Register::X24 => HV_REG_X24,
            Register::X25 => HV_REG_X25,
            Register::X26 => HV_REG_X26,
            Register::X27 => HV_REG_X27,
            Register::X28 => HV_REG_X28,
            Register::X29 => HV_REG_X29,
            Register::FP => HV_REG_FP,
            Register::X30 => HV_REG_X30,
            Register::LR => HV_REG_LR,
            Register::PC => HV_REG_PC,
            Register::FPCR => HV_REG_FPCR,
            Register::FPSR => HV_REG_FPSR,
            Register::CPSR => HV_REG_CPSR,
        }
    }
}

impl vstd::std_specs::convert::FromSpecImpl<Register> for hv_reg_t {
    open spec fn obeys_from_spec() -> bool {
        true
    }

    open spec fn from_spec(v: Register) -> hv_reg_t {
        v.native_id()
    }
}

/// Two registers have one native identifier only if they are one register,
/// by whichever name: reading a register back after writing it addresses what
/// was written, and writing one register leaves every other alone.
pub proof fn lemma_register_ids_distinct(a: Register, b: Register)
    ensures
        a.native_id() == b.native_id() <==> a.canonical() == b.canonical(),
        a.native_id() == a.canonical().native_id(),
        !a.is_alias() && !b.is_alias() ==> (a.native_id() == b.native_id() <==> a == b),
{
}

/// Every native identifier of a register lies below 35.
pub proof fn lemma_register_ids_bounded(a: Register)
    ensures
        a.native_id() <= HV_REG_CPSR,
{
}

} // verus!
