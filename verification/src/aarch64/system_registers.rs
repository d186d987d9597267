//! The auxiliary system registers of a virtual CPU: debug, identification,
//! translation, pointer authentication, exception and timer state.

use vstd::prelude::*;

verus! {

/// Native identifier of a system register.
#[allow(non_camel_case_types)]
pub type hv_sys_reg_t = u16;

/// Native identifier of `DBGBVR0_EL1`.
pub const HV_SYS_REG_DBGBVR0_EL1: hv_sys_reg_t = 0x8004;

/// Native identifier of `DBGBCR0_EL1`.
pub const HV_SYS_REG_DBGBCR0_EL1: hv_sys_reg_t = 0x8005;

/// Native identifier of `DBGWVR0_EL1`.
pub const HV_SYS_REG_DBGWVR0_EL1: hv_sys_reg_t = 0x8006;

/// Native identifier of `DBGWCR0_EL1`.
pub const HV_SYS_REG_DBGWCR0_EL1: hv_sys_reg_t = 0x8007;

/// Native identifier of `DBGBVR1_EL1`.
pub const HV_SYS_REG_DBGBVR1_EL1: hv_sys_reg_t = 0x800c;

/// Native identifier of `DBGBCR1_EL1`.
pub const HV_SYS_REG_DBGBCR1_EL1: hv_sys_reg_t = 0x800d;

/// Native identifier of `DBGWVR1_EL1`.
pub const HV_SYS_REG_DBGWVR1_EL1: hv_sys_reg_t = 0x800e;

/// Native identifier of `DBGWCR1_EL1`.
pub const HV_SYS_REG_DBGWCR1_EL1: hv_sys_reg_t = 0x800f;

/// Native identifier of `MDCCINT_EL1`.
pub const HV_SYS_REG_MDCCINT_EL1: hv_sys_reg_t = 0x8010;

/// Native identifier of `MDSCR_EL1`.
pub const HV_SYS_REG_MDSCR_EL1: hv_sys_reg_t = 0x8012;

/// Native identifier of `DBGBVR2_EL1`.
pub const HV_SYS_REG_DBGBVR2_EL1: hv_sys_reg_t = 0x8014;

/// Native identifier of `DBGBCR2_EL1`.
pub const HV_SYS_REG_DBGBCR2_EL1: hv_sys_reg_t = 0x8015;

/// Native identifier of `DBGWVR2_EL1`.
pub const HV_SYS_REG_DBGWVR2_EL1: hv_sys_reg_t = 0x8016;

/// Native identifier of `DBGWCR2_EL1`.
pub const HV_SYS_REG_DBGWCR2_EL1: hv_sys_reg_t = 0x8017;

/// Native identifier of `DBGBVR3_EL1`.
pub const HV_SYS_REG_DBGBVR3_EL1: hv_sys_reg_t = 0x801c;

/// Native identifier of `DBGBCR3_EL1`.
pub const HV_SYS_REG_DBGBCR3_EL1: hv_sys_reg_t = 0x801d;

/// Native identifier of `DBGWVR3_EL1`.
pub const HV_SYS_REG_DBGWVR3_EL1: hv_sys_reg_t = 0x801e;

/// Native identifier of `DBGWCR3_EL1`.
pub const HV_SYS_REG_DBGWCR3_EL1: hv_sys_reg_t = 0x801f;

/// Native identifier of `DBGBVR4_EL1`.
pub const HV_SYS_REG_DBGBVR4_EL1: hv_sys_reg_t = 0x8024;

/// Native identifier of `DBGBCR4_EL1`.
pub const HV_SYS_REG_DBGBCR4_EL1: hv_sys_reg_t = 0x8025;

/// Native identifier of `DBGWVR4_EL1`.
pub const HV_SYS_REG_DBGWVR4_EL1: hv_sys_reg_t = 0x8026;

/// Native identifier of `DBGWCR4_EL1`.
pub const HV_SYS_REG_DBGWCR4_EL1: hv_sys_reg_t = 0x8027;

/// Native identifier of `DBGBVR5_EL1`.
pub const HV_SYS_REG_DBGBVR5_EL1: hv_sys_reg_t = 0x802c;

/// Native identifier of `DBGBCR5_EL1`.
pub const HV_SYS_REG_DBGBCR5_EL1: hv_sys_reg_t = 0x802d;

/// Native identifier of `DBGWVR5_EL1`.
pub const HV_SYS_REG_DBGWVR5_EL1: hv_sys_reg_t = 0x802e;

/// Native identifier of `DBGWCR5_EL1`.
pub const HV_SYS_REG_DBGWCR5_EL1: hv_sys_reg_t = 0x802f;

/// Native identifier of `DBGBVR6_EL1`.
pub const HV_SYS_REG_DBGBVR6_EL1: hv_sys_reg_t = 0x8034;

/// Native identifier of `DBGBCR6_EL1`.
pub const HV_SYS_REG_DBGBCR6_EL1: hv_sys_reg_t = 0x8035;

/// Native identifier of `DBGWVR6_EL1`.
pub const HV_SYS_REG_DBGWVR6_EL1: hv_sys_reg_t = 0x8036;

/// Native identifier of `DBGWCR6_EL1`.
pub const HV_SYS_REG_DBGWCR6_EL1: hv_sys_reg_t = 0x8037;

/// Native identifier of `DBGBVR7_EL1`.
pub const HV_SYS_REG_DBGBVR7_EL1: hv_sys_reg_t = 0x803c;

/// Native identifier of `DBGBCR7_EL1`.
pub const HV_SYS_REG_DBGBCR7_EL1: hv_sys_reg_t = 0x803d;

/// Native identifier of `DBGWVR7_EL1`.
pub const HV_SYS_REG_DBGWVR7_EL1: hv_sys_reg_t = 0x803e;

/// Native identifier of `DBGWCR7_EL1`.
pub const HV_SYS_REG_DBGWCR7_EL1: hv_sys_reg_t = 0x803f;

/// Native identifier of `DBGBVR8_EL1`.
pub const HV_SYS_REG_DBGBVR8_EL1: hv_sys_reg_t = 0x8044;

/// Native identifier of `DBGBCR8_EL1`.
pub const HV_SYS_REG_DBGBCR8_EL1: hv_sys_reg_t = 0x8045;

/// Native identifier of `DBGWVR8_EL1`.
pub const HV_SYS_REG_DBGWVR8_EL1: hv_sys_reg_t = 0x8046;

/// Native identifier of `DBGWCR8_EL1`.
pub const HV_SYS_REG_DBGWCR8_EL1: hv_sys_reg_t = 0x8047;

/// Native identifier of `DBGBVR9_EL1`.
pub const HV_SYS_REG_DBGBVR9_EL1: hv_sys_reg_t = 0x804c;

/// Native identifier of `DBGBCR9_EL1`.
pub const HV_SYS_REG_DBGBCR9_EL1: hv_sys_reg_t = 0x804d;

/// Native identifier of `DBGWVR9_EL1`.
pub const HV_SYS_REG_DBGWVR9_EL1: hv_sys_reg_t = 0x804e;

/// Native identifier of `DBGWCR9_EL1`.
pub const HV_SYS_REG_DBGWCR9_EL1: hv_sys_reg_t = 0x804f;

/// Native identifier of `DBGBVR10_EL1`.
pub const HV_SYS_REG_DBGBVR10_EL1: hv_sys_reg_t = 0x8054;

/// Native identifier of `DBGBCR10_EL1`.
pub const HV_SYS_REG_DBGBCR10_EL1: hv_sys_reg_t = 0x8055;

/// Native identifier of `DBGWVR10_EL1`.
pub const HV_SYS_REG_DBGWVR10_EL1: hv_sys_reg_t = 0x8056;

/// Native identifier of `DBGWCR10_EL1`.
pub const HV_SYS_REG_DBGWCR10_EL1: hv_sys_reg_t = 0x8057;

/// Native identifier of `DBGBVR11_EL1`.
pub const HV_SYS_REG_DBGBVR11_EL1: hv_sys_reg_t = 0x805c;

/// Native identifier of `DBGBCR11_EL1`.
pub const HV_SYS_REG_DBGBCR11_EL1: hv_sys_reg_t = 0x805d;

/// Native identifier of `DBGWVR11_EL1`.
pub const HV_SYS_REG_DBGWVR11_EL1: hv_sys_reg_t = 0x805e;

/// Native identifier of `DBGWCR11_EL1`.
pub const HV_SYS_REG_DBGWCR11_EL1: hv_sys_reg_t = 0x805f;

/// Native identifier of `DBGBVR12_EL1`.
pub const HV_SYS_REG_DBGBVR12_EL1: hv_sys_reg_t = 0x8064;

/// Native identifier of `DBGBCR12_EL1`.
pub const HV_SYS_REG_DBGBCR12_EL1: hv_sys_reg_t = 0x8065;

/// Native identifier of `DBGWVR12_EL1`.
pub const HV_SYS_REG_DBGWVR12_EL1: hv_sys_reg_t = 0x8066;

/// Native identifier of `DBGWCR12_EL1`.
pub const HV_SYS_REG_DBGWCR12_EL1: hv_sys_reg_t = 0x8067;

/// Native identifier of `DBGBVR13_EL1`.
pub const HV_SYS_REG_DBGBVR13_EL1: hv_sys_reg_t = 0x806c;

/// Native identifier of `DBGBCR13_EL1`.
pub const HV_SYS_REG_DBGBCR13_EL1: hv_sys_reg_t = 0x806d;

/// Native identifier of `DBGWVR13_EL1`.
pub const HV_SYS_REG_DBGWVR13_EL1: hv_sys_reg_t = 0x806e;

/// Native identifier of `DBGWCR13_EL1`.
pub const HV_SYS_REG_DBGWCR13_EL1: hv_sys_reg_t = 0x806f;

/// Native identifier of `DBGBVR14_EL1`.
pub const HV_SYS_REG_DBGBVR14_EL1: hv_sys_reg_t = 0x8074;

/// Native identifier of `DBGBCR14_EL1`.
pub const HV_SYS_REG_DBGBCR14_EL1: hv_sys_reg_t = 0x8075;

/// Native identifier of `DBGWVR14_EL1`.
pub const HV_SYS_REG_DBGWVR14_EL1: hv_sys_reg_t = 0x8076;

/// Native identifier of `DBGWCR14_EL1`.
pub const HV_SYS_REG_DBGWCR14_EL1: hv_sys_reg_t = 0x8077;

/// Native identifier of `DBGBVR15_EL1`.
pub const HV_SYS_REG_DBGBVR15_EL1: hv_sys_reg_t = 0x807c;

/// Native identifier of `DBGBCR15_EL1`.
pub const HV_SYS_REG_DBGBCR15_EL1: hv_sys_reg_t = 0x807d;

/// Native identifier of `DBGWVR15_EL1`.
pub const HV_SYS_REG_DBGWVR15_EL1: hv_sys_reg_t = 0x807e;

/// Native identifier of `DBGWCR15_EL1`.
pub const HV_SYS_REG_DBGWCR15_EL1: hv_sys_reg_t = 0x807f;

/// Native identifier of `MIDR_EL1`.
pub const HV_SYS_REG_MIDR_EL1: hv_sys_reg_t = 0xc000;

/// Native identifier of `MPIDR_EL1`.
pub const HV_SYS_REG_MPIDR_EL1: hv_sys_reg_t = 0xc005;

/// Native identifier of `ID_AA64PFR0_EL1`.
pub const HV_SYS_REG_ID_AA64PFR0_EL1: hv_sys_reg_t = 0xc020;

/// Native identifier of `ID_AA64PFR1_EL1`.
pub const HV_SYS_REG_ID_AA64PFR1_EL1: hv_sys_reg_t = 0xc021;

/// Native identifier of `ID_AA64DFR0_EL1`.
pub const HV_SYS_REG_ID_AA64DFR0_EL1: hv_sys_reg_t = 0xc028;

/// Native identifier of `ID_AA64DFR1_EL1`.
pub const HV_SYS_REG_ID_AA64DFR1_EL1: hv_sys_reg_t = 0xc029;

/// Native identifier of `ID_AA64ISAR0_EL1`.
pub const HV_SYS_REG_ID_AA64ISAR0_EL1: hv_sys_reg_t = 0xc030;

/// Native identifier of `ID_AA64ISAR1_EL1`.
pub const HV_SYS_REG_ID_AA64ISAR1_EL1: hv_sys_reg_t = 0xc031;

/// Native identifier of `ID_AA64MMFR0_EL1`.
pub const HV_SYS_REG_ID_AA64MMFR0_EL1: hv_sys_reg_t = 0xc038;

/// Native identifier of `ID_AA64MMFR1_EL1`.
pub const HV_SYS_REG_ID_AA64MMFR1_EL1: hv_sys_reg_t = 0xc039;

/// Native identifier of `ID_AA64MMFR2_EL1`.
pub const HV_SYS_REG_ID_AA64MMFR2_EL1: hv_sys_reg_t = 0xc03a;

/// Native identifier of `SCTLR_EL1`.
pub const HV_SYS_REG_SCTLR_EL1: hv_sys_reg_t = 0xc080;

/// Native identifier of `CPACR_EL1`.
pub const HV_SYS_REG_CPACR_EL1: hv_sys_reg_t = 0xc082;

/// Native identifier of `TTBR0_EL1`.
pub const HV_SYS_REG_TTBR0_EL1: hv_sys_reg_t = 0xc100;

/// Native identifier of `TTBR1_EL1`.
pub const HV_SYS_REG_TTBR1_EL1: hv_sys_reg_t = 0xc101;

/// Native identifier of `TCR_EL1`.
pub const HV_SYS_REG_TCR_EL1: hv_sys_reg_t = 0xc102;

/// Native identifier of `APIAKEYLO_EL1`.
pub const HV_SYS_REG_APIAKEYLO_EL1: hv_sys_reg_t = 0xc108;

/// Native identifier of `APIAKEYHI_EL1`.
pub const HV_SYS_REG_APIAKEYHI_EL1: hv_sys_reg_t = 0xc109;

/// Native identifier of `APIBKEYLO_EL1`.
pub const HV_SYS_REG_APIBKEYLO_EL1: hv_sys_reg_t = 0xc10a;

/// Native identifier of `APIBKEYHI_EL1`.
pub const HV_SYS_REG_APIBKEYHI_EL1: hv_sys_reg_t = 0xc10b;

/// Native identifier of `APDAKEYLO_EL1`.
pub const HV_SYS_REG_APDAKEYLO_EL1: hv_sys_reg_t = 0xc110;

/// Native identifier of `APDAKEYHI_EL1`.
pub const HV_SYS_REG_APDAKEYHI_EL1: hv_sys_reg_t = 0xc111;

/// Native identifier of `APDBKEYLO_EL1`.
pub const HV_SYS_REG_APDBKEYLO_EL1: hv_sys_reg_t = 0xc112;

/// Native identifier of `APDBKEYHI_EL1`.
pub const HV_SYS_REG_APDBKEYHI_EL1: hv_sys_reg_t = 0xc113;

/// Native identifier of `APGAKEYLO_EL1`.
pub const HV_SYS_REG_APGAKEYLO_EL1: hv_sys_reg_t = 0xc118;

/// Native identifier of `APGAKEYHI_EL1`.
pub const HV_SYS_REG_APGAKEYHI_EL1: hv_sys_reg_t = 0xc119;

/// Native identifier of `SPSR_EL1`.
pub const HV_SYS_REG_SPSR_EL1: hv_sys_reg_t = 0xc200;

/// Native identifier of `ELR_EL1`.
pub const HV_SYS_REG_ELR_EL1: hv_sys_reg_t = 0xc201;

/// Native identifier of `SP_EL0`.
pub const HV_SYS_REG_SP_EL0: hv_sys_reg_t = 0xc208;

/// Native identifier of `AFSR0_EL1`.
pub const HV_SYS_REG_AFSR0_EL1: hv_sys_reg_t = 0xc288;

/// Native identifier of `AFSR1_EL1`.
pub const HV_SYS_REG_AFSR1_EL1: hv_sys_reg_t = 0xc289;

/// Native identifier of `ESR_EL1`.
pub const HV_SYS_REG_ESR_EL1: hv_sys_reg_t = 0xc290;

/// Native identifier of `FAR_EL1`.
pub const HV_SYS_REG_FAR_EL1: hv_sys_reg_t = 0xc300;

/// Native identifier of `PAR_EL1`.
pub const HV_SYS_REG_PAR_EL1: hv_sys_reg_t = 0xc3a0;

/// Native identifier of `MAIR_EL1`.
pub const HV_SYS_REG_MAIR_EL1: hv_sys_reg_t = 0xc510;

/// Native identifier of `AMAIR_EL1`.
pub const HV_SYS_REG_AMAIR_EL1: hv_sys_reg_t = 0xc518;

/// Native identifier of `VBAR_EL1`.
pub const HV_SYS_REG_VBAR_EL1: hv_sys_reg_t = 0xc600;

/// Native identifier of `CONTEXTIDR_EL1`.
pub const HV_SYS_REG_CONTEXTIDR_EL1: hv_sys_reg_t = 0xc681;

/// Native identifier of `TPIDR_EL1`.
pub const HV_SYS_REG_TPIDR_EL1: hv_sys_reg_t = 0xc684;

/// Native identifier of `CNTKCTL_EL1`.
pub const HV_SYS_REG_CNTKCTL_EL1: hv_sys_reg_t = 0xc708;

/// Native identifier of `CSSELR_EL1`.
pub const HV_SYS_REG_CSSELR_EL1: hv_sys_reg_t = 0xd000;

/// Native identifier of `TPIDR_EL0`.
pub const HV_SYS_REG_TPIDR_EL0: hv_sys_reg_t = 0xde82;

/// Native identifier of `TPIDRRO_EL0`.
pub const HV_SYS_REG_TPIDRRO_EL0: hv_sys_reg_t = 0xde83;

/// Native identifier of `CNTV_CTL_EL0`.
pub const HV_SYS_REG_CNTV_CTL_EL0: hv_sys_reg_t = 0xdf19;

/// Native identifier of `CNTV_CVAL_EL0`.
pub const HV_SYS_REG_CNTV_CVAL_EL0: hv_sys_reg_t = 0xdf1a;

/// Native identifier of `SP_EL1`.
pub const HV_SYS_REG_SP_EL1: hv_sys_reg_t = 0xe208;

/// The five fields by which the architecture addresses a system register in
/// an instruction that moves it to or from a general-purpose register.
pub struct SysRegEncoding {
    pub op0: nat,
    pub op1: nat,
    pub crn: nat,
    pub crm: nat,
    pub op2: nat,
}

impl SysRegEncoding {
    /// Each field fits the bits that the instruction has for it.
    pub open spec fn in_range(self) -> bool {
        &&& self.op0 < 4
        &&& self.op1 < 8
        &&& self.crn < 16
        &&& self.crm < 16
        &&& self.op2 < 8
    }

    /// The fields laid side by side in sixteen bits, `op0` uppermost: two,
    /// three, four, four and three bits wide.
    pub open spec fn packed(self) -> nat {
        self.op0 * 0x4000 + self.op1 * 0x800 + self.crn * 0x80 + self.crm * 0x8 + self.op2
    }
}

/// ARM system register.
#[allow(non_camel_case_types)]
#[derive(Clone, Copy, Debug, PartialEq, Eq, Structural)]
pub enum SystemRegister {
    /// DBGBVR0_EL1 register.
    DBGBVR0_EL1,

    /// DBGBCR0_EL1 register.
    DBGBCR0_EL1,

    /// DBGWVR0_EL1 register.
    DBGWVR0_EL1,

    /// DBGWCR0_EL1 register.
    DBGWCR0_EL1,

    /// DBGBVR1_EL1 register.
    DBGBVR1_EL1,

    /// DBGBCR1_EL1 register.
    DBGBCR1_EL1,

    /// DBGWVR1_EL1 register.
    DBGWVR1_EL1,

    /// DBGWCR1_EL1 register.
    DBGWCR1_EL1,

    /// MDCCINT_EL1 register.
    MDCCINT_EL1,

    /// MDSCR_EL1 register.
    MDSCR_EL1,

    /// DBGBVR2_EL1 register.
    DBGBVR2_EL1,

    /// DBGBCR2_EL1 register.
    DBGBCR2_EL1,

    /// DBGWVR2_EL1 register.
    DBGWVR2_EL1,

    /// DBGWCR2_EL1 register.
    DBGWCR2_EL1,

    /// DBGBVR3_EL1 register.
    DBGBVR3_EL1,

    /// DBGBCR3_EL1 register.
    DBGBCR3_EL1,

    /// DBGWVR3_EL1 register.
    DBGWVR3_EL1,

    /// DBGWCR3_EL1 register.
    DBGWCR3_EL1,

    /// DBGBVR4_EL1 register.
    DBGBVR4_EL1,

    /// DBGBCR4_EL1 register.
    DBGBCR4_EL1,

    /// DBGWVR4_EL1 register.
    DBGWVR4_EL1,

    /// DBGWCR4_EL1 register.
    DBGWCR4_EL1,

    /// DBGBVR5_EL1 register.
    DBGBVR5_EL1,

    /// DBGBCR5_EL1 register.
    DBGBCR5_EL1,

    /// DBGWVR5_EL1 register.
    DBGWVR5_EL1,

    /// DBGWCR5_EL1 register.
    DBGWCR5_EL1,

    /// DBGBVR6_EL1 register.
    DBGBVR6_EL1,

    /// DBGBCR6_EL1 register.
    DBGBCR6_EL1,

    /// DBGWVR6_EL1 register.
    DBGWVR6_EL1,

    /// DBGWCR6_EL1 register.
    DBGWCR6_EL1,

    /// DBGBVR7_EL1 register.
    DBGBVR7_EL1,

    /// DBGBCR7_EL1 register.
    DBGBCR7_EL1,

    /// DBGWVR7_EL1 register.
    DBGWVR7_EL1,

    /// DBGWCR7_EL1 register.
    DBGWCR7_EL1,

    /// DBGBVR8_EL1 register.
    DBGBVR8_EL1,

    /// DBGBCR8_EL1 register.
    DBGBCR8_EL1,

    /// DBGWVR8_EL1 register.
    DBGWVR8_EL1,

    /// DBGWCR8_EL1 register.
    DBGWCR8_EL1,

    /// DBGBVR9_EL1 register.
    DBGBVR9_EL1,

    /// DBGBCR9_EL1 register.
    DBGBCR9_EL1,

    /// DBGWVR9_EL1 register.
    DBGWVR9_EL1,

    /// DBGWCR9_EL1 register.
    DBGWCR9_EL1,

    /// DBGBVR10_EL1 register.
    DBGBVR10_EL1,

    /// DBGBCR10_EL1 register.
    DBGBCR10_EL1,

    /// DBGWVR10_EL1 register.
    DBGWVR10_EL1,

    /// DBGWCR10_EL1 register.
    DBGWCR10_EL1,

    /// DBGBVR11_EL1 register.
    DBGBVR11_EL1,

    /// DBGBCR11_EL1 register.
    DBGBCR11_EL1,

    /// DBGWVR11_EL1 register.
    DBGWVR11_EL1,

    /// DBGWCR11_EL1 register.
    DBGWCR11_EL1,

    /// DBGBVR12_EL1 register.
    DBGBVR12_EL1,

    /// DBGBCR12_EL1 register.
    DBGBCR12_EL1,

    /// DBGWVR12_EL1 register.
    DBGWVR12_EL1,

    /// DBGWCR12_EL1 register.
    DBGWCR12_EL1,

    /// DBGBVR13_EL1 register.
    DBGBVR13_EL1,

    /// DBGBCR13_EL1 register.
    DBGBCR13_EL1,

    /// DBGWVR13_EL1 register.
    DBGWVR13_EL1,

    /// DBGWCR13_EL1 register.
    DBGWCR13_EL1,

    /// DBGBVR14_EL1 register.
    DBGBVR14_EL1,

    /// DBGBCR14_EL1 register.
    DBGBCR14_EL1,

    /// DBGWVR14_EL1 register.
    DBGWVR14_EL1,

    /// DBGWCR14_EL1 register.
    DBGWCR14_EL1,

    /// DBGBVR15_EL1 register.
    DBGBVR15_EL1,

    /// DBGBCR15_EL1 register.
    DBGBCR15_EL1,

    /// DBGWVR15_EL1 register.
    DBGWVR15_EL1,

    /// DBGWCR15_EL1 register.
    DBGWCR15_EL1,

    /// MIDR_EL1 register.
    MIDR_EL1,

    /// MPIDR_EL1 register.
    MPIDR_EL1,

    /// ID_AA64PFR0_EL1 register.
    ID_AA64PFR0_EL1,

    /// ID_AA64PFR1_EL1 register.
    ID_AA64PFR1_EL1,

    /// ID_AA64DFR0_EL1 register.
    ID_AA64DFR0_EL1,

    /// ID_AA64DFR1_EL1 register.
    ID_AA64DFR1_EL1,

    /// ID_AA64ISAR0_EL1 register.
    ID_AA64ISAR0_EL1,

    /// ID_AA64ISAR1_EL1 register.
    ID_AA64ISAR1_EL1,

    /// ID_AA64MMFR0_EL1 register.
    ID_AA64MMFR0_EL1,

    /// ID_AA64MMFR1_EL1 register.
    ID_AA64MMFR1_EL1,

    /// ID_AA64MMFR2_EL1 register.
    ID_AA64MMFR2_EL1,

    /// SCTLR_EL1 register.
    SCTLR_EL1,

    /// CPACR_EL1 register.
    CPACR_EL1,

    /// TTBR0_EL1 register.
    TTBR0_EL1,

    /// TTBR1_EL1 register.
    TTBR1_EL1,

    /// TCR_EL1 register.
    TCR_EL1,

    /// APIAKEYLO_EL1 register.
    APIAKEYLO_EL1,

    /// APIAKEYHI_EL1 register.
    APIAKEYHI_EL1,

    /// APIBKEYLO_EL1 register.
    APIBKEYLO_EL1,

    /// APIBKEYHI_EL1 register.
    APIBKEYHI_EL1,

    /// APDAKEYLO_EL1 register.
    APDAKEYLO_EL1,

    /// APDAKEYHI_EL1 register.
    APDAKEYHI_EL1,

    /// APDBKEYLO_EL1 register.
    APDBKEYLO_EL1,

    /// APDBKEYHI_EL1 register.
    APDBKEYHI_EL1,

    /// APGAKEYLO_EL1 register.
    APGAKEYLO_EL1,

    /// APGAKEYHI_EL1 register.
    APGAKEYHI_EL1,

    /// SPSR_EL1 register.
    SPSR_EL1,

    /// ELR_EL1 register.
    ELR_EL1,

    /// SP_EL0 register.
    SP_EL0,

    /// AFSR0_EL1 register.
    AFSR0_EL1,

    /// AFSR1_EL1 register.
    AFSR1_EL1,

    /// ESR_EL1 register.
    ESR_EL1,

    /// FAR_EL1 register.
    FAR_EL1,

    /// PAR_EL1 register.
    PAR_EL1,

    /// MAIR_EL1 register.
    MAIR_EL1,

    /// AMAIR_EL1 register.
    AMAIR_EL1,

    /// VBAR_EL1 register.
    VBAR_EL1,

    /// CONTEXTIDR_EL1 register.
    CONTEXTIDR_EL1,

    /// TPIDR_EL1 register.
    TPIDR_EL1,

    /// CNTKCTL_EL1 register.
    CNTKCTL_EL1,

    /// CSSELR_EL1 register.
    CSSELR_EL1,

    /// TPIDR_EL0 register.
    TPIDR_EL0,

    /// TPIDRRO_EL0 register.
    TPIDRRO_EL0,

    /// CNTV_CTL_EL0 register.
    CNTV_CTL_EL0,

    /// CNTV_CVAL_EL0 register.
    CNTV_CVAL_EL0,

    /// SP_EL1 register.
    SP_EL1,
}

impl SystemRegister {
    /// How the architecture addresses the register.
    pub open spec fn encoding(self) -> SysRegEncoding {
        match self {
            SystemRegister::DBGBVR0_EL1 => SysRegEncoding { op0: 2, op1: 0, crn: 0, crm: 0, op2: 4 },
            SystemRegister::DBGBCR0_EL1 => SysRegEncoding { op0: 2, op1: 0, crn: 0, crm: 0, op2: 5 },
            SystemRegister::DBGWVR0_EL1 => SysRegEncoding { op0: 2, op1: 0, crn: 0, crm: 0, op2: 6 },
            SystemRegister::DBGWCR0_EL1 => SysRegEncoding { op0: 2, op1: 0, crn: 0, crm: 0, op2: 7 },
            SystemRegister::DBGBVR1_EL1 => SysRegEncoding { op0: 2, op1: 0, crn: 0, crm: 1, op2: 4 },
            SystemRegister::DBGBCR1_EL1 => SysRegEncoding { op0: 2, op1: 0, crn: 0, crm: 1, op2: 5 },
            SystemRegister::DBGWVR1_EL1 => SysRegEncoding { op0: 2, op1: 0, crn: 0, crm: 1, op2: 6 },
            SystemRegister::DBGWCR1_EL1 => SysRegEncoding { op0: 2, op1: 0, crn: 0, crm: 1, op2: 7 },
            SystemRegister::MDCCINT_EL1 => SysRegEncoding { op0: 2, op1: 0, crn: 0, crm: 2, op2: 0 },
            SystemRegister::MDSCR_EL1 => SysRegEncoding { op0: 2, op1: 0, crn: 0, crm: 2, op2: 2 },
            SystemRegister::DBGBVR2_EL1 => SysRegEncoding { op0: 2, op1: 0, crn: 0, crm: 2, op2: 4 },
            SystemRegister::DBGBCR2_EL1 => SysRegEncoding { op0: 2, op1: 0, crn: 0, crm: 2, op2: 5 },
            SystemRegister::DBGWVR2_EL1 => SysRegEncoding { op0: 2, op1: 0, crn: 0, crm: 2, op2: 6 },
            SystemRegister::DBGWCR2_EL1 => SysRegEncoding { op0: 2, op1: 0, crn: 0, crm: 2, op2: 7 },
            SystemRegister::DBGBVR3_EL1 => SysRegEncoding { op0: 2, op1: 0, crn: 0, crm: 3, op2: 4 },
            SystemRegister::DBGBCR3_EL1 => SysRegEncoding { op0: 2, op1: 0, crn: 0, crm: 3, op2: 5 },
            SystemRegister::DBGWVR3_EL1 => SysRegEncoding { op0: 2, op1: 0, crn: 0, crm: 3, op2: 6 },
            SystemRegister::DBGWCR3_EL1 => SysRegEncoding { op0: 2, op1: 0, crn: 0, crm: 3, op2: 7 },
            SystemRegister::DBGBVR4_EL1 => SysRegEncoding { op0: 2, op1: 0, crn: 0, crm: 4, op2: 4 },
            SystemRegister::DBGBCR4_EL1 => SysRegEncoding { op0: 2, op1: 0, crn: 0, crm: 4, op2: 5 },
            SystemRegister::DBGWVR4_EL1 => SysRegEncoding { op0: 2, op1: 0, crn: 0, crm: 4, op2: 6 },
            SystemRegister::DBGWCR4_EL1 => SysRegEncoding { op0: 2, op1: 0, crn: 0, crm: 4, op2: 7 },
            SystemRegister::DBGBVR5_EL1 => SysRegEncoding { op0: 2, op1: 0, crn: 0, crm: 5, op2: 4 },
            SystemRegister::DBGBCR5_EL1 => SysRegEncoding { op0: 2, op1: 0, crn: 0, crm: 5, op2: 5 },
            SystemRegister::DBGWVR5_EL1 => SysRegEncoding { op0: 2, op1: 0, crn: 0, crm: 5, op2: 6 },
            SystemRegister::DBGWCR5_EL1 => SysRegEncoding { op0: 2, op1: 0, crn: 0, crm: 5, op2: 7 },
            SystemRegister::DBGBVR6_EL1 => SysRegEncoding { op0: 2, op1: 0, crn: 0, crm: 6, op2: 4 },
            SystemRegister::DBGBCR6_EL1 => SysRegEncoding { op0: 2, op1: 0, crn: 0, crm: 6, op2: 5 },
            SystemRegister::DBGWVR6_EL1 => SysRegEncoding { op0: 2, op1: 0, crn: 0, crm: 6, op2: 6 },
            SystemRegister::DBGWCR6_EL1 => SysRegEncoding { op0: 2, op1: 0, crn: 0, crm: 6, op2: 7 },
            SystemRegister::DBGBVR7_EL1 => SysRegEncoding { op0: 2, op1: 0, crn: 0, crm: 7, op2: 4 },
            SystemRegister::DBGBCR7_EL1 => SysRegEncoding { op0: 2, op1: 0, crn: 0, crm: 7, op2: 5 },
            SystemRegister::DBGWVR7_EL1 => SysRegEncoding { op0: 2, op1: 0, crn: 0, crm: 7, op2: 6 },
            SystemRegister::DBGWCR7_EL1 => SysRegEncoding { op0: 2, op1: 0, crn: 0, crm: 7, op2: 7 },
            SystemRegister::DBGBVR8_EL1 => SysRegEncoding { op0: 2, op1: 0, crn: 0, crm: 8, op2: 4 },
            SystemRegister::DBGBCR8_EL1 => SysRegEncoding { op0: 2, op1: 0, crn: 0, crm: 8, op2: 5 },
            SystemRegister::DBGWVR8_EL1 => SysRegEncoding { op0: 2, op1: 0, crn: 0, crm: 8, op2: 6 },
            SystemRegister::DBGWCR8_EL1 => SysRegEncoding { op0: 2, op1: 0, crn: 0, crm: 8, op2: 7 },
            SystemRegister::DBGBVR9_EL1 => SysRegEncoding { op0: 2, op1: 0, crn: 0, crm: 9, op2: 4 },
            SystemRegister::DBGBCR9_EL1 => SysRegEncoding { op0: 2, op1: 0, crn: 0, crm: 9, op2: 5 },
            SystemRegister::DBGWVR9_EL1 => SysRegEncoding { op0: 2, op1: 0, crn: 0, crm: 9, op2: 6 },
            SystemRegister::DBGWCR9_EL1 => SysRegEncoding { op0: 2, op1: 0, crn: 0, crm: 9, op2: 7 },
            SystemRegister::DBGBVR10_EL1 => SysRegEncoding { op0: 2, op1: 0, crn: 0, crm: 10, op2: 4 },
            SystemRegister::DBGBCR10_EL1 => SysRegEncoding { op0: 2, op1: 0, crn: 0, crm: 10, op2: 5 },
            SystemRegister::DBGWVR10_EL1 => SysRegEncoding { op0: 2, op1: 0, crn: 0, crm: 10, op2: 6 },
            SystemRegister::DBGWCR10_EL1 => SysRegEncoding { op0: 2, op1: 0, crn: 0, crm: 10, op2: 7 },
            SystemRegister::DBGBVR11_EL1 => SysRegEncoding { op0: 2, op1: 0, crn: 0, crm: 11, op2: 4 },
            SystemRegister::DBGBCR11_EL1 => SysRegEncoding { op0: 2, op1: 0, crn: 0, crm: 11, op2: 5 },
            SystemRegister::DBGWVR11_EL1 => SysRegEncoding { op0: 2, op1: 0, crn: 0, crm: 11, op2: 6 },
            SystemRegister::DBGWCR11_EL1 => SysRegEncoding { op0: 2, op1: 0, crn: 0, crm: 11, op2: 7 },
            SystemRegister::DBGBVR12_EL1 => SysRegEncoding { op0: 2, op1: 0, crn: 0, crm: 12, op2: 4 },
            SystemRegister::DBGBCR12_EL1 => SysRegEncoding { op0: 2, op1: 0, crn: 0, crm: 12, op2: 5 },
            SystemRegister::DBGWVR12_EL1 => SysRegEncoding { op0: 2, op1: 0, crn: 0, crm: 12, op2: 6 },
            SystemRegister::DBGWCR12_EL1 => SysRegEncoding { op0: 2, op1: 0, crn: 0, crm: 12, op2: 7 },
            SystemRegister::DBGBVR13_EL1 => SysRegEncoding { op0: 2, op1: 0, crn: 0, crm: 13, op2: 4 },
            SystemRegister::DBGBCR13_EL1 => SysRegEncoding { op0: 2, op1: 0, crn: 0, crm: 13, op2: 5 },
            SystemRegister::DBGWVR13_EL1 => SysRegEncoding { op0: 2, op1: 0, crn: 0, crm: 13, op2: 6 },
            SystemRegister::DBGWCR13_EL1 => SysRegEncoding { op0: 2, op1: 0, crn: 0, crm: 13, op2: 7 },
            SystemRegister::DBGBVR14_EL1 => SysRegEncoding { op0: 2, op1: 0, crn: 0, crm: 14, op2: 4 },
            SystemRegister::DBGBCR14_EL1 => SysRegEncoding { op0: 2, op1: 0, crn: 0, crm: 14, op2: 5 },
            SystemRegister::DBGWVR14_EL1 => SysRegEncoding { op0: 2, op1: 0, crn: 0, crm: 14, op2: 6 },
            SystemRegister::DBGWCR14_EL1 => SysRegEncoding { op0: 2, op1: 0, crn: 0, crm: 14, op2: 7 },
            SystemRegister::DBGBVR15_EL1 => SysRegEncoding { op0: 2, op1: 0, crn: 0, crm: 15, op2: 4 },
            SystemRegister::DBGBCR15_EL1 => SysRegEncoding { op0: 2, op1: 0, crn: 0, crm: 15, op2: 5 },
            SystemRegister::DBGWVR15_EL1 => SysRegEncoding { op0: 2, op1: 0, crn: 0, crm: 15, op2: 6 },
            SystemRegister::DBGWCR15_EL1 => SysRegEncoding { op0: 2, op1: 0, crn: 0, crm: 15, op2: 7 },
            SystemRegister::MIDR_EL1 => SysRegEncoding { op0: 3, op1: 0, crn: 0, crm: 0, op2: 0 },
            SystemRegister::MPIDR_EL1 => SysRegEncoding { op0: 3, op1: 0, crn: 0, crm: 0, op2: 5 },
            SystemRegister::ID_AA64PFR0_EL1 => SysRegEncoding { op0: 3, op1: 0, crn: 0, crm: 4, op2: 0 },
            SystemRegister::ID_AA64PFR1_EL1 => SysRegEncoding { op0: 3, op1: 0, crn: 0, crm: 4, op2: 1 },
            SystemRegister::ID_AA64DFR0_EL1 => SysRegEncoding { op0: 3, op1: 0, crn: 0, crm: 5, op2: 0 },
            SystemRegister::ID_AA64DFR1_EL1 => SysRegEncoding { op0: 3, op1: 0, crn: 0, crm: 5, op2: 1 },
            SystemRegister::ID_AA64ISAR0_EL1 => SysRegEncoding { op0: 3, op1: 0, crn: 0, crm: 6, op2: 0 },
            SystemRegister::ID_AA64ISAR1_EL1 => SysRegEncoding { op0: 3, op1: 0, crn: 0, crm: 6, op2: 1 },
            SystemRegister::ID_AA64MMFR0_EL1 => SysRegEncoding { op0: 3, op1: 0, crn: 0, crm: 7, op2: 0 },
            SystemRegister::ID_AA64MMFR1_EL1 => SysRegEncoding { op0: 3, op1: 0, crn: 0, crm: 7, op2: 1 },
            SystemRegister::ID_AA64MMFR2_EL1 => SysRegEncoding { op0: 3, op1: 0, crn: 0, crm: 7, op2: 2 },
            SystemRegister::SCTLR_EL1 => SysRegEncoding { op0: 3, op1: 0, crn: 1, crm: 0, op2: 0 },
            SystemRegister::CPACR_EL1 => SysRegEncoding { op0: 3, op1: 0, crn: 1, crm: 0, op2: 2 },
            SystemRegister::TTBR0_EL1 => SysRegEncoding { op0: 3, op1: 0, crn: 2, crm: 0, op2: 0 },
            SystemRegister::TTBR1_EL1 => SysRegEncoding { op0: 3, op1: 0, crn: 2, crm: 0, op2: 1 },
            SystemRegister::TCR_EL1 => SysRegEncoding { op0: 3, op1: 0, crn: 2, crm: 0, op2: 2 },
            SystemRegister::APIAKEYLO_EL1 => SysRegEncoding { op0: 3, op1: 0, crn: 2, crm: 1, op2: 0 },
            SystemRegister::APIAKEYHI_EL1 => SysRegEncoding { op0: 3, op1: 0, crn: 2, crm: 1, op2: 1 },
            SystemRegister::APIBKEYLO_EL1 => SysRegEncoding { op0: 3, op1: 0, crn: 2, crm: 1, op2: 2 },
            SystemRegister::APIBKEYHI_EL1 => SysRegEncoding { op0: 3, op1: 0, crn: 2, crm: 1, op2: 3 },
            SystemRegister::APDAKEYLO_EL1 => SysRegEncoding { op0: 3, op1: 0, crn: 2, crm: 2, op2: 0 },
            SystemRegister::APDAKEYHI_EL1 => SysRegEncoding { op0: 3, op1: 0, crn: 2, crm: 2, op2: 1 },
            SystemRegister::APDBKEYLO_EL1 => SysRegEncoding { op0: 3, op1: 0, crn: 2, crm: 2, op2: 2 },
            SystemRegister::APDBKEYHI_EL1 => SysRegEncoding { op0: 3, op1: 0, crn: 2, crm: 2, op2: 3 },
            SystemRegister::APGAKEYLO_EL1 => SysRegEncoding { op0: 3, op1: 0, crn: 2, crm: 3, op2: 0 },
            SystemRegister::APGAKEYHI_EL1 => SysRegEncoding { op0: 3, op1: 0, crn: 2, crm: 3, op2: 1 },
            SystemRegister::SPSR_EL1 => SysRegEncoding { op0: 3, op1: 0, crn: 4, crm: 0, op2: 0 },
            SystemRegister::ELR_EL1 => SysRegEncoding { op0: 3, op1: 0, crn: 4, crm: 0, op2: 1 },
            SystemRegister::SP_EL0 => SysRegEncoding { op0: 3, op1: 0, crn: 4, crm: 1, op2: 0 },
            SystemRegister::AFSR0_EL1 => SysRegEncoding { op0: 3, op1: 0, crn: 5, crm: 1, op2: 0 },
            SystemRegister::AFSR1_EL1 => SysRegEncoding { op0: 3, op1: 0, crn: 5, crm: 1, op2: 1 },
            SystemRegister::ESR_EL1 => SysRegEncoding { op0: 3, op1: 0, crn: 5, crm: 2, op2: 0 },
            SystemRegister::FAR_EL1 => SysRegEncoding { op0: 3, op1: 0, crn: 6, crm: 0, op2: 0 },
            SystemRegister::PAR_EL1 => SysRegEncoding { op0: 3, op1: 0, crn: 7, crm: 4, op2: 0 },
            SystemRegister::MAIR_EL1 => SysRegEncoding { op0: 3, op1: 0, crn: 10, crm: 2, op2: 0 },
            SystemRegister::AMAIR_EL1 => SysRegEncoding { op0: 3, op1: 0, crn: 10, crm: 3, op2: 0 },
            SystemRegister::VBAR_EL1 => SysRegEncoding { op0: 3, op1: 0, crn: 12, crm: 0, op2: 0 },
            SystemRegister::CONTEXTIDR_EL1 => SysRegEncoding { op0: 3, op1: 0, crn: 13, crm: 0, op2: 1 },
            SystemRegister::TPIDR_EL1 => SysRegEncoding { op0: 3, op1: 0, crn: 13, crm: 0, op2: 4 },
            SystemRegister::CNTKCTL_EL1 => SysRegEncoding { op0: 3, op1: 0, crn: 14, crm: 1, op2: 0 },
            SystemRegister::CSSELR_EL1 => SysRegEncoding { op0: 3, op1: 2, crn: 0, crm: 0, op2: 0 },
            SystemRegister::TPIDR_EL0 => SysRegEncoding { op0: 3, op1: 3, crn: 13, crm: 0, op2: 2 },
            SystemRegister::TPIDRRO_EL0 => SysRegEncoding { op0: 3, op1: 3, crn: 13, crm: 0, op2: 3 },
            SystemRegister::CNTV_CTL_EL0 => SysRegEncoding { op0: 3, op1: 3, crn: 14, crm: 3, op2: 1 },
            SystemRegister::CNTV_CVAL_EL0 => SysRegEncoding { op0: 3, op1: 3, crn: 14, crm: 3, op2: 2 },
            SystemRegister::SP_EL1 => SysRegEncoding { op0: 3, op1: 4, crn: 4, crm: 1, op2: 0 },
        }
    }

    /// The native identifier of the register: its architectural encoding,
    /// packed.
    pub open spec fn native_id(self) -> hv_sys_reg_t {
        self.encoding().packed() as hv_sys_reg_t
    }
}

impl From<SystemRegister> for hv_sys_reg_t {
    fn from(value: SystemRegister) -> (id: hv_sys_reg_t) {
        match value {
            SystemRegister::DBGBVR0_EL1 => HV_SYS_REG_DBGBVR0_EL1,
            SystemRegister::DBGBCR0_EL1 => HV_SYS_REG_DBGBCR0_EL1,
            SystemRegister::DBGWVR0_EL1 => HV_SYS_REG_DBGWVR0_EL1,
            SystemRegister::DBGWCR0_EL1 => HV_SYS_REG_DBGWCR0_EL1,
            SystemRegister::DBGBVR1_EL1 => HV_SYS_REG_DBGBVR1_EL1,
            SystemRegister::DBGBCR1_EL1 => HV_SYS_REG_DBGBCR1_EL1,
            SystemRegister::DBGWVR1_EL1 => HV_SYS_REG_DBGWVR1_EL1,
            SystemRegister::DBGWCR1_EL1 => HV_SYS_REG_DBGWCR1_EL1,
            SystemRegister::MDCCINT_EL1 => HV_SYS_REG_MDCCINT_EL1,
            SystemRegister::MDSCR_EL1 => HV_SYS_REG_MDSCR_EL1,
            SystemRegister::DBGBVR2_EL1 => HV_SYS_REG_DBGBVR2_EL1,
            SystemRegister::DBGBCR2_EL1 => HV_SYS_REG_DBGBCR2_EL1,
            SystemRegister::DBGWVR2_EL1 => HV_SYS_REG_DBGWVR2_EL1,
            SystemRegister::DBGWCR2_EL1 => HV_SYS_REG_DBGWCR2_EL1,
            SystemRegister::DBGBVR3_EL1 => HV_SYS_REG_DBGBVR3_EL1,
            SystemRegister::DBGBCR3_EL1 => HV_SYS_REG_DBGBCR3_EL1,
            SystemRegister::DBGWVR3_EL1 => HV_SYS_REG_DBGWVR3_EL1,
            SystemRegister::DBGWCR3_EL1 => HV_SYS_REG_DBGWCR3_EL1,
            SystemRegister::DBGBVR4_EL1 => HV_SYS_REG_DBGBVR4_EL1,
            SystemRegister::DBGBCR4_EL1 => HV_SYS_REG_DBGBCR4_EL1,
            SystemRegister::DBGWVR4_EL1 => HV_SYS_REG_DBGWVR4_EL1,
            SystemRegister::DBGWCR4_EL1 => HV_SYS_REG_DBGWCR4_EL1,
            SystemRegister::DBGBVR5_EL1 => HV_SYS_REG_DBGBVR5_EL1,
            SystemRegister::DBGBCR5_EL1 => HV_SYS_REG_DBGBCR5_EL1,
            SystemRegister::DBGWVR5_EL1 => HV_SYS_REG_DBGWVR5_EL1,
            SystemRegister::DBGWCR5_EL1 => HV_SYS_REG_DBGWCR5_EL1,
            SystemRegister::DBGBVR6_EL1 => HV_SYS_REG_DBGBVR6_EL1,
            SystemRegister::DBGBCR6_EL1 => HV_SYS_REG_DBGBCR6_EL1,
            SystemRegister::DBGWVR6_EL1 => HV_SYS_REG_DBGWVR6_EL1,
            SystemRegister::DBGWCR6_EL1 => HV_SYS_REG_DBGWCR6_EL1,
            SystemRegister::DBGBVR7_EL1 => HV_SYS_REG_DBGBVR7_EL1,
            SystemRegister::DBGBCR7_EL1 => HV_SYS_REG_DBGBCR7_EL1,
            SystemRegister::DBGWVR7_EL1 => HV_SYS_REG_DBGWVR7_EL1,
            SystemRegister::DBGWCR7_EL1 => HV_SYS_REG_DBGWCR7_EL1,
            SystemRegister::DBGBVR8_EL1 => HV_SYS_REG_DBGBVR8_EL1,
            SystemRegister::DBGBCR8_EL1 => HV_SYS_REG_DBGBCR8_EL1,
            SystemRegister::DBGWVR8_EL1 => HV_SYS_REG_DBGWVR8_EL1,
            SystemRegister::DBGWCR8_EL1 => HV_SYS_REG_DBGWCR8_EL1,
            SystemRegister::DBGBVR9_EL1 => HV_SYS_REG_DBGBVR9_EL1,
            SystemRegister::DBGBCR9_EL1 => HV_SYS_REG_DBGBCR9_EL1,
            SystemRegister::DBGWVR9_EL1 => HV_SYS_REG_DBGWVR9_EL1,
            SystemRegister::DBGWCR9_EL1 => HV_SYS_REG_DBGWCR9_EL1,
            SystemRegister::DBGBVR10_EL1 => HV_SYS_REG_DBGBVR10_EL1,
            SystemRegister::DBGBCR10_EL1 => HV_SYS_REG_DBGBCR10_EL1,
            SystemRegister::DBGWVR10_EL1 => HV_SYS_REG_DBGWVR10_EL1,
            SystemRegister::DBGWCR10_EL1 => HV_SYS_REG_DBGWCR10_EL1,
            SystemRegister::DBGBVR11_EL1 => HV_SYS_REG_DBGBVR11_EL1,
            SystemRegister::DBGBCR11_EL1 => HV_SYS_REG_DBGBCR11_EL1,
            SystemRegister::DBGWVR11_EL1 => HV_SYS_REG_DBGWVR11_EL1,
            SystemRegister::DBGWCR11_EL1 => HV_SYS_REG_DBGWCR11_EL1,
            SystemRegister::DBGBVR12_EL1 => HV_SYS_REG_DBGBVR12_EL1,
            SystemRegister::DBGBCR12_EL1 => HV_SYS_REG_DBGBCR12_EL1,
            SystemRegister::DBGWVR12_EL1 => HV_SYS_REG_DBGWVR12_EL1,
            SystemRegister::DBGWCR12_EL1 => HV_SYS_REG_DBGWCR12_EL1,
            SystemRegister::DBGBVR13_EL1 => HV_SYS_REG_DBGBVR13_EL1,
            SystemRegister::DBGBCR13_EL1 => HV_SYS_REG_DBGBCR13_EL1,
            SystemRegister::DBGWVR13_EL1 => HV_SYS_REG_DBGWVR13_EL1,
            SystemRegister::DBGWCR13_EL1 => HV_SYS_REG_DBGWCR13_EL1,
            SystemRegister::DBGBVR14_EL1 => HV_SYS_REG_DBGBVR14_EL1,
            SystemRegister::DBGBCR14_EL1 => HV_SYS_REG_DBGBCR14_EL1,
            SystemRegister::DBGWVR14_EL1 => HV_SYS_REG_DBGWVR14_EL1,
            SystemRegister::DBGWCR14_EL1 => HV_SYS_REG_DBGWCR14_EL1,
            SystemRegister::DBGBVR15_EL1 => HV_SYS_REG_DBGBVR15_EL1,
            SystemRegister::DBGBCR15_EL1 => HV_SYS_REG_DBGBCR15_EL1,
            SystemRegister::DBGWVR15_EL1 => HV_SYS_REG_DBGWVR15_EL1,
            SystemRegister::DBGWCR15_EL1 => HV_SYS_REG_DBGWCR15_EL1,
            SystemRegister::MIDR_EL1 => HV_SYS_REG_MIDR_EL1,
            SystemRegister::MPIDR_EL1 => HV_SYS_REG_MPIDR_EL1,
            SystemRegister::ID_AA64PFR0_EL1 => HV_SYS_REG_ID_AA64PFR0_EL1,
            SystemRegister::ID_AA64PFR1_EL1 => HV_SYS_REG_ID_AA64PFR1_EL1,
            SystemRegister::ID_AA64DFR0_EL1 => HV_SYS_REG_ID_AA64DFR0_EL1,
            SystemRegister::ID_AA64DFR1_EL1 => HV_SYS_REG_ID_AA64DFR1_EL1,
            SystemRegister::ID_AA64ISAR0_EL1 => HV_SYS_REG_ID_AA64ISAR0_EL1,
            SystemRegister::ID_AA64ISAR1_EL1 => HV_SYS_REG_ID_AA64ISAR1_EL1,
            SystemRegister::ID_AA64MMFR0_EL1 => HV_SYS_REG_ID_AA64MMFR0_EL1,
            SystemRegister::ID_AA64MMFR1_EL1 => HV_SYS_REG_ID_AA64MMFR1_EL1,
            SystemRegister::ID_AA64MMFR2_EL1 => HV_SYS_REG_ID_AA64MMFR2_EL1,
            SystemRegister::SCTLR_EL1 => HV_SYS_REG_SCTLR_EL1,
            SystemRegister::CPACR_EL1 => HV_SYS_REG_CPACR_EL1,
            SystemRegister::TTBR0_EL1 => HV_SYS_REG_TTBR0_EL1,
            SystemRegister::TTBR1_EL1 => HV_SYS_REG_TTBR1_EL1,
            SystemRegister::TCR_EL1 => HV_SYS_REG_TCR_EL1,
            SystemRegister::APIAKEYLO_EL1 => HV_SYS_REG_APIAKEYLO_EL1,
            SystemRegister::APIAKEYHI_EL1 => HV_SYS_REG_APIAKEYHI_EL1,
            SystemRegister::APIBKEYLO_EL1 => HV_SYS_REG_APIBKEYLO_EL1,
            SystemRegister::APIBKEYHI_EL1 => HV_SYS_REG_APIBKEYHI_EL1,
            SystemRegister::APDAKEYLO_EL1 => HV_SYS_REG_APDAKEYLO_EL1,
            SystemRegister::APDAKEYHI_EL1 => HV_SYS_REG_APDAKEYHI_EL1,
            SystemRegister::APDBKEYLO_EL1 => HV_SYS_REG_APDBKEYLO_EL1,
            SystemRegister::APDBKEYHI_EL1 => HV_SYS_REG_APDBKEYHI_EL1,
            SystemRegister::APGAKEYLO_EL1 => HV_SYS_REG_APGAKEYLO_EL1,
            SystemRegister::APGAKEYHI_EL1 => HV_SYS_REG_APGAKEYHI_EL1,
            SystemRegister::SPSR_EL1 => HV_SYS_REG_SPSR_EL1,
            SystemRegister::ELR_EL1 => HV_SYS_REG_ELR_EL1,
            SystemRegister::SP_EL0 => HV_SYS_REG_SP_EL0,
            SystemRegister::AFSR0_EL1 => HV_SYS_REG_AFSR0_EL1,
            SystemRegister::AFSR1_EL1 => HV_SYS_REG_AFSR1_EL1,
            SystemRegister::ESR_EL1 => HV_SYS_REG_ESR_EL1,
            SystemRegister::FAR_EL1 => HV_SYS_REG_FAR_EL1,
            SystemRegister::PAR_EL1 => HV_SYS_REG_PAR_EL1,
            SystemRegister::MAIR_EL1 => HV_SYS_REG_MAIR_EL1,
            SystemRegister::AMAIR_EL1 => HV_SYS_REG_AMAIR_EL1,
            SystemRegister::VBAR_EL1 => HV_SYS_REG_VBAR_EL1,
            SystemRegister::CONTEXTIDR_EL1 => HV_SYS_REG_CONTEXTIDR_EL1,
            SystemRegister::TPIDR_EL1 => HV_SYS_REG_TPIDR_EL1,
            SystemRegister::CNTKCTL_EL1 => HV_SYS_REG_CNTKCTL_EL1,
            SystemRegister::CSSELR_EL1 => HV_SYS_REG_CSSELR_EL1,
            SystemRegister::TPIDR_EL0 => HV_SYS_REG_TPIDR_EL0,
            SystemRegister::TPIDRRO_EL0 => HV_SYS_REG_TPIDRRO_EL0,
            SystemRegister::CNTV_CTL_EL0 => HV_SYS_REG_CNTV_CTL_EL0,
            SystemRegister::CNTV_CVAL_EL0 => HV_SYS_REG_CNTV_CVAL_EL0,
            SystemRegister::SP_EL1 => HV_SYS_REG_SP_EL1,
        }
    }
}

impl vstd::std_specs::convert::FromSpecImpl<SystemRegister> for hv_sys_reg_t {
    open spec fn obeys_from_spec() -> bool {
        true
    }

    open spec fn from_spec(v: SystemRegister) -> hv_sys_reg_t {
        v.native_id()
    }
}

/// The encoding of every system register is well formed, and packing it
/// loses nothing: it fits the sixteen bits of a native identifier.
pub proof fn lemma_system_register_encoding(a: SystemRegister)
    ensures
        a.encoding().in_range(),
        a.encoding().packed() <= u16::MAX,
        a.native_id() == a.encoding().packed(),
{
}

/// Two system registers with one native identifier are one register.
pub proof fn lemma_system_register_ids_distinct(a: SystemRegister, b: SystemRegister)
    ensures
        a.native_id() == b.native_id() <==> a == b,
{
    if a.native_id() == b.native_id() {
        lemma_system_register_encoding(a);
        lemma_system_register_encoding(b);
        lemma_packed_injective(a.encoding(), b.encoding());
    }
}

/// Well-formed encodings that pack to one number are one encoding.
pub proof fn lemma_packed_injective(x: SysRegEncoding, y: SysRegEncoding)
    requires
        x.in_range(),
        y.in_range(),
        x.packed() == y.packed(),
    ensures
        x == y,
{
}

} // verus!
