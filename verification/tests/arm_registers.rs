use xhypervisor::aarch64::registers::{
    HV_REG_CPSR, HV_REG_FP, HV_REG_FPCR, HV_REG_FPSR, HV_REG_LR, HV_REG_PC, HV_REG_X0, HV_REG_X29,
    HV_REG_X30,
};
use xhypervisor::aarch64::{hv_reg_t, hv_sys_reg_t, Register, SystemRegister};

const REGISTERS: [Register; 37] = [
    Register::X0, Register::X1, Register::X2, Register::X3, Register::X4, Register::X5,
    Register::X6, Register::X7, Register::X8, Register::X9, Register::X10, Register::X11,
    Register::X12, Register::X13, Register::X14, Register::X15, Register::X16, Register::X17,
    Register::X18, Register::X19, Register::X20, Register::X21, Register::X22, Register::X23,
    Register::X24, Register::X25, Register::X26, Register::X27, Register::X28, Register::X29,
    Register::FP, Register::X30, Register::LR, Register::PC, Register::FPCR, Register::FPSR,
    Register::CPSR,
];

fn system_registers() -> Vec<(SystemRegister, u16)> {
    vec![
        (SystemRegister::DBGBVR0_EL1, 0x8004),
        (SystemRegister::DBGBCR0_EL1, 0x8005),
        (SystemRegister::DBGWVR0_EL1, 0x8006),
        (SystemRegister::DBGWCR0_EL1, 0x8007),
        (SystemRegister::DBGBVR1_EL1, 0x800c),
        (SystemRegister::DBGBCR1_EL1, 0x800d),
        (SystemRegister::DBGWVR1_EL1, 0x800e),
        (SystemRegister::DBGWCR1_EL1, 0x800f),
        (SystemRegister::MDCCINT_EL1, 0x8010),
        (SystemRegister::MDSCR_EL1, 0x8012),
        (SystemRegister::DBGBVR2_EL1, 0x8014),
        (SystemRegister::DBGBCR2_EL1, 0x8015),
        (SystemRegister::DBGWVR2_EL1, 0x8016),
        (SystemRegister::DBGWCR2_EL1, 0x8017),
        (SystemRegister::DBGBVR3_EL1, 0x801c),
        (SystemRegister::DBGBCR3_EL1, 0x801d),
        (SystemRegister::DBGWVR3_EL1, 0x801e),
        (SystemRegister::DBGWCR3_EL1, 0x801f),
        (SystemRegister::DBGBVR4_EL1, 0x8024),
        (SystemRegister::DBGBCR4_EL1, 0x8025),
        (SystemRegister::DBGWVR4_EL1, 0x8026),
        (SystemRegister::DBGWCR4_EL1, 0x8027),
        (SystemRegister::DBGBVR5_EL1, 0x802c),
        (SystemRegister::DBGBCR5_EL1, 0x802d),
        (SystemRegister::DBGWVR5_EL1, 0x802e),
        (SystemRegister::DBGWCR5_EL1, 0x802f),
        (SystemRegister::DBGBVR6_EL1, 0x8034),
        (SystemRegister::DBGBCR6_EL1, 0x8035),
        (SystemRegister::DBGWVR6_EL1, 0x8036),
        (SystemRegister::DBGWCR6_EL1, 0x8037),
        (SystemRegister::DBGBVR7_EL1, 0x803c),
        (SystemRegister::DBGBCR7_EL1, 0x803d),
        (SystemRegister::DBGWVR7_EL1, 0x803e),
        (SystemRegister::DBGWCR7_EL1, 0x803f),
        (SystemRegister::DBGBVR8_EL1, 0x8044),
        (SystemRegister::DBGBCR8_EL1, 0x8045),
        (SystemRegister::DBGWVR8_EL1, 0x8046),
        (SystemRegister::DBGWCR8_EL1, 0x8047),
        (SystemRegister::DBGBVR9_EL1, 0x804c),
        (SystemRegister::DBGBCR9_EL1, 0x804d),
        (SystemRegister::DBGWVR9_EL1, 0x804e),
        (SystemRegister::DBGWCR9_EL1, 0x804f),
        (SystemRegister::DBGBVR10_EL1, 0x8054),
        (SystemRegister::DBGBCR10_EL1, 0x8055),
        (SystemRegister::DBGWVR10_EL1, 0x8056),
        (SystemRegister::DBGWCR10_EL1, 0x8057),
        (SystemRegister::DBGBVR11_EL1, 0x805c),
        (SystemRegister::DBGBCR11_EL1, 0x805d),
        (SystemRegister::DBGWVR11_EL1, 0x805e),
        (SystemRegister::DBGWCR11_EL1, 0x805f),
        (SystemRegister::DBGBVR12_EL1, 0x8064),
        (SystemRegister::DBGBCR12_EL1, 0x8065),
        (SystemRegister::DBGWVR12_EL1, 0x8066),
        (SystemRegister::DBGWCR12_EL1, 0x8067),
        (SystemRegister::DBGBVR13_EL1, 0x806c),
        (SystemRegister::DBGBCR13_EL1, 0x806d),
        (SystemRegister::DBGWVR13_EL1, 0x806e),
        (SystemRegister::DBGWCR13_EL1, 0x806f),
        (SystemRegister::DBGBVR14_EL1, 0x8074),
        (SystemRegister::DBGBCR14_EL1, 0x8075),
        (SystemRegister::DBGWVR14_EL1, 0x8076),
        (SystemRegister::DBGWCR14_EL1, 0x8077),
        (SystemRegister::DBGBVR15_EL1, 0x807c),
        (SystemRegister::DBGBCR15_EL1, 0x807d),
        (SystemRegister::DBGWVR15_EL1, 0x807e),
        (SystemRegister::DBGWCR15_EL1, 0x807f),
        (SystemRegister::MIDR_EL1, 0xc000),
        (SystemRegister::MPIDR_EL1, 0xc005),
        (SystemRegister::ID_AA64PFR0_EL1, 0xc020),
        (SystemRegister::ID_AA64PFR1_EL1, 0xc021),
        (SystemRegister::ID_AA64DFR0_EL1, 0xc028),
        (SystemRegister::ID_AA64DFR1_EL1, 0xc029),
        (SystemRegister::ID_AA64ISAR0_EL1, 0xc030),
        (SystemRegister::ID_AA64ISAR1_EL1, 0xc031),
        (SystemRegister::ID_AA64MMFR0_EL1, 0xc038),
        (SystemRegister::ID_AA64MMFR1_EL1, 0xc039),
        (SystemRegister::ID_AA64MMFR2_EL1, 0xc03a),
        (SystemRegister::SCTLR_EL1, 0xc080),
        (SystemRegister::CPACR_EL1, 0xc082),
        (SystemRegister::TTBR0_EL1, 0xc100),
        (SystemRegister::TTBR1_EL1, 0xc101),
        (SystemRegister::TCR_EL1, 0xc102),
        (SystemRegister::APIAKEYLO_EL1, 0xc108),
        (SystemRegister::APIAKEYHI_EL1, 0xc109),
        (SystemRegister::APIBKEYLO_EL1, 0xc10a),
        (SystemRegister::APIBKEYHI_EL1, 0xc10b),
        (SystemRegister::APDAKEYLO_EL1, 0xc110),
        (SystemRegister::APDAKEYHI_EL1, 0xc111),
        (SystemRegister::APDBKEYLO_EL1, 0xc112),
        (SystemRegister::APDBKEYHI_EL1, 0xc113),
        (SystemRegister::APGAKEYLO_EL1, 0xc118),
        (SystemRegister::APGAKEYHI_EL1, 0xc119),
        (SystemRegister::SPSR_EL1, 0xc200),
        (SystemRegister::ELR_EL1, 0xc201),
        (SystemRegister::SP_EL0, 0xc208),
        (SystemRegister::AFSR0_EL1, 0xc288),
        (SystemRegister::AFSR1_EL1, 0xc289),
        (SystemRegister::ESR_EL1, 0xc290),
        (SystemRegister::FAR_EL1, 0xc300),
        (SystemRegister::PAR_EL1, 0xc3a0),
        (SystemRegister::MAIR_EL1, 0xc510),
        (SystemRegister::AMAIR_EL1, 0xc518),
        (SystemRegister::VBAR_EL1, 0xc600),
        (SystemRegister::CONTEXTIDR_EL1, 0xc681),
        (SystemRegister::TPIDR_EL1, 0xc684),
        (SystemRegister::CNTKCTL_EL1, 0xc708),
        (SystemRegister::CSSELR_EL1, 0xd000),
        (SystemRegister::TPIDR_EL0, 0xde82),
        (SystemRegister::TPIDRRO_EL0, 0xde83),
        (SystemRegister::CNTV_CTL_EL0, 0xdf19),
        (SystemRegister::CNTV_CVAL_EL0, 0xdf1a),
        (SystemRegister::SP_EL1, 0xe208),
    ]
}

#[test]
fn arm_general_purpose_registers_are_numbered_from_zero() {
    for (i, reg) in REGISTERS[..30].iter().enumerate() {
        assert_eq!(hv_reg_t::from(*reg), i as u32);
    }
    assert_eq!(hv_reg_t::from(Register::X0), HV_REG_X0);
    assert_eq!(hv_reg_t::from(Register::X30), 30);
}

#[test]
fn arm_special_registers() {
    assert_eq!(hv_reg_t::from(Register::PC), 31);
    assert_eq!(hv_reg_t::from(Register::FPCR), 32);
    assert_eq!(hv_reg_t::from(Register::FPSR), 33);
    assert_eq!(hv_reg_t::from(Register::CPSR), 34);
    assert_eq!(HV_REG_PC, 31);
    assert_eq!(HV_REG_FPCR, 32);
    assert_eq!(HV_REG_FPSR, 33);
    assert_eq!(HV_REG_CPSR, 34);
}

#[test]
fn arm_fp_and_lr_are_second_names() {
    assert_eq!(hv_reg_t::from(Register::FP), hv_reg_t::from(Register::X29));
    assert_eq!(hv_reg_t::from(Register::LR), hv_reg_t::from(Register::X30));
    assert_eq!(HV_REG_FP, HV_REG_X29);
    assert_eq!(HV_REG_LR, HV_REG_X30);
}

#[test]
fn arm_registers_share_an_identifier_only_by_name() {
    for a in REGISTERS {
        for b in REGISTERS {
            let same = hv_reg_t::from(a) == hv_reg_t::from(b);
            let alias = |x: Register, y: Register| {
                (x == Register::FP && y == Register::X29) || (x == Register::LR && y == Register::X30)
            };
            assert_eq!(same, a == b || alias(a, b) || alias(b, a), "{:?} {:?}", a, b);
        }
    }
}

#[test]
fn arm_every_system_register_has_its_identifier() {
    let table = system_registers();
    assert_eq!(table.len(), 112);
    for (reg, id) in table {
        assert_eq!(hv_sys_reg_t::from(reg), id, "{:?}", reg);
    }
}

#[test]
fn arm_system_register_identifiers_are_distinct() {
    let table = system_registers();
    for (i, (a, _)) in table.iter().enumerate() {
        for (j, (b, _)) in table.iter().enumerate() {
            assert_eq!(hv_sys_reg_t::from(*a) == hv_sys_reg_t::from(*b), i == j);
        }
    }
}

#[test]
fn arm_debug_registers_follow_their_number() {
    assert_eq!(hv_sys_reg_t::from(SystemRegister::DBGBVR0_EL1), 0x8004);
    assert_eq!(hv_sys_reg_t::from(SystemRegister::DBGBCR0_EL1), 0x8005);
    assert_eq!(hv_sys_reg_t::from(SystemRegister::DBGWVR0_EL1), 0x8006);
    assert_eq!(hv_sys_reg_t::from(SystemRegister::DBGWCR0_EL1), 0x8007);
    assert_eq!(hv_sys_reg_t::from(SystemRegister::DBGBVR7_EL1), 0x8004 + 7 * 8);
    assert_eq!(hv_sys_reg_t::from(SystemRegister::DBGWCR15_EL1), 0x8007 + 15 * 8);
}

#[test]
fn arm_well_known_system_registers() {
    assert_eq!(hv_sys_reg_t::from(SystemRegister::MIDR_EL1), 0xc000);
    assert_eq!(hv_sys_reg_t::from(SystemRegister::SCTLR_EL1), 0xc080);
    assert_eq!(hv_sys_reg_t::from(SystemRegister::TTBR0_EL1), 0xc100);
    assert_eq!(hv_sys_reg_t::from(SystemRegister::ESR_EL1), 0xc290);
    assert_eq!(hv_sys_reg_t::from(SystemRegister::VBAR_EL1), 0xc600);
    assert_eq!(hv_sys_reg_t::from(SystemRegister::CNTV_CTL_EL0), 0xdf19);
    assert_eq!(hv_sys_reg_t::from(SystemRegister::SP_EL1), 0xe208);
}
