use xhypervisor::x86_64::exit::{
    VMX_REASON_EPT_VIOLATION, VMX_REASON_HLT, VMX_REASON_IO, VMX_REASON_IRQ, VMX_REASON_IRQ_WND,
};
use xhypervisor::x86_64::{
    basic_exit_reason, cap2ctrl, decode_exit, io_port, next_instruction, read_vmx_cap, Call,
    Register, VMXCap, VmExit,
};

#[test]
fn x86_cap2ctrl_formula() {
    assert_eq!(cap2ctrl(0x0000_007f_0000_0016, 0), 0x16);
    assert_eq!(cap2ctrl(0x0000_007f_0000_0016, 0xffff_ffff), 0x7f);
    assert_eq!(cap2ctrl(0x0000_007f_0000_0016, 0x41), 0x57);
    assert_eq!(cap2ctrl(0xffff_ffff_0000_0000, 0x1234_5678), 0x1234_5678);
    assert_eq!(cap2ctrl(0, 0xffff_ffff), 0);
    assert_eq!(cap2ctrl(0xffff_ffff_ffff_ffff, 0), 0xffff_ffff);
}

#[test]
fn x86_cap2ctrl_with_the_controls_of_a_small_guest() {
    let cap = 0xfff9_fffe_0401_e172u64;
    let desired = (1u64 << 7) | (1 << 19) | (1 << 20);
    assert_eq!(cap2ctrl(cap, desired), (desired | (cap & 0xffffffff)) & (cap >> 32));
    assert_eq!(cap2ctrl(cap, desired), 0x0419_e1f2);
}

#[test]
fn x86_cap2ctrl_bit_by_bit() {
    let caps = [0x0000_007f_0000_0016u64, 0xfff9_fffe_0401_e172, 0x0000_00ff_0000_0000,
        0x0000_ffff_0000_11ff, 0xffff_ffff_0000_0000, 0xaaaa_5555_0000_5555, 0];
    let wanted = [0u64, 0xffff_ffff, 0x1234_5678, 0x8000_0001, 0xffff_ffff_ffff_ffff, 0x5a5a_a5a5];
    for cap in caps {
        for desired in wanted {
            let word = cap2ctrl(cap, desired);
            for i in 0..64 {
                let forced_one = i < 32 && (cap >> i) & 1 == 1;
                let forced_zero = i >= 32 || (cap >> (32 + i)) & 1 == 0;
                let bit = (word >> i) & 1;
                if forced_zero {
                    assert_eq!(bit, 0);
                } else if forced_one {
                    assert_eq!(bit, 1);
                } else {
                    assert_eq!(bit, (desired >> i) & 1);
                }
            }
        }
    }
}

#[test]
fn x86_a_bit_fixed_both_ways_is_clear() {
    // bit 0 is set in the low half and clear in the high half
    assert_eq!(cap2ctrl(0x0000_0000_0000_0001, 0), 0);
    assert_eq!(cap2ctrl(0x0000_0000_0000_0001, 1), 0);
}

#[test]
fn x86_capability_classes() {
    assert_eq!(VMXCap::PINBASED.native_id(), 0);
    assert_eq!(VMXCap::PROCBASED.native_id(), 1);
    assert_eq!(VMXCap::PROCBASED2.native_id(), 2);
    assert_eq!(VMXCap::ENTRY.native_id(), 3);
    assert_eq!(VMXCap::EXIT.native_id(), 4);
    assert_eq!(VMXCap::PREEMPTION_TIMER.native_id(), 32);
    assert_eq!(read_vmx_cap(&VMXCap::PROCBASED2), Call::VmxReadCapability { capability: 2 });
    assert_eq!(read_vmx_cap(&VMXCap::PREEMPTION_TIMER), Call::VmxReadCapability { capability: 32 });
}

#[test]
fn x86_capability_descriptions() {
    assert_eq!(VMXCap::PINBASED.description(), "Pin-based VMX capabilities");
    assert_eq!(VMXCap::PROCBASED.description(), "Primary proc-based VMX capabilities");
    assert_eq!(VMXCap::PROCBASED2.description(), "Secondary proc-based VMX capabilities");
    assert_eq!(VMXCap::ENTRY.description(), "VM-entry VMX capabilities");
    assert_eq!(VMXCap::EXIT.description(), "VM-exit VMX capabilities");
    assert_eq!(VMXCap::PREEMPTION_TIMER.description(), "VMX preemption timer frequency");
}

#[test]
fn x86_exit_reason_is_the_low_sixteen_bits() {
    assert_eq!(basic_exit_reason(12), 12);
    assert_eq!(basic_exit_reason(0x8000_001e), 30);
    assert_eq!(basic_exit_reason(0xffff_ffff_ffff_0030), 48);
    assert_eq!(basic_exit_reason(0x1_0000), 0);
    assert_eq!(basic_exit_reason(u64::MAX), 0xffff);
}

#[test]
fn x86_reason_numbers() {
    assert_eq!(VMX_REASON_IRQ, 1);
    assert_eq!(VMX_REASON_IRQ_WND, 7);
    assert_eq!(VMX_REASON_HLT, 12);
    assert_eq!(VMX_REASON_IO, 30);
    assert_eq!(VMX_REASON_EPT_VIOLATION, 48);
}

#[test]
fn x86_io_address_is_bits_16_to_31() {
    assert_eq!(io_port(0x03f8_0000), 0x3f8);
    assert_eq!(io_port(0xffff_ffff_03f8_ffff), 0x3f8);
    assert_eq!(io_port(0xffff), 0);
    assert_eq!(io_port(u64::MAX), 0xffff);
}

#[test]
fn x86_exits_by_reason() {
    assert_eq!(decode_exit(1, 0), VmExit::Irq);
    assert_eq!(decode_exit(7, 0), VmExit::IrqWindow);
    assert_eq!(decode_exit(12, 0), VmExit::Hlt);
    assert_eq!(decode_exit(30, 0x03f8_0000), VmExit::Io { port: 0x3f8 });
    assert_eq!(decode_exit(48, 0x181), VmExit::EptViolation);
    assert_eq!(decode_exit(0, 0), VmExit::Other { reason: 0 });
    assert_eq!(decode_exit(10, 0), VmExit::Other { reason: 10 });
    assert_eq!(decode_exit(0xffff, 0), VmExit::Other { reason: 0xffff });
}

#[test]
fn x86_exits_ignore_the_flags_above_the_reason() {
    assert_eq!(decode_exit(0x8000_000c, 0), VmExit::Hlt);
    assert_eq!(decode_exit(0x1_0000_001e, 0x0060_0000), VmExit::Io { port: 0x60 });
    assert_eq!(decode_exit(0x0001_0000, 0), VmExit::Other { reason: 0 });
}

#[test]
fn x86_qualification_counts_for_io_only() {
    assert_eq!(decode_exit(12, 0x03f8_0000), VmExit::Hlt);
    assert_eq!(decode_exit(1, u64::MAX), VmExit::Irq);
}

#[test]
fn x86_stepping_over_an_instruction() {
    assert_eq!(next_instruction(0x107, 1), Some(0x108));
    assert_eq!(next_instruction(0, 0), Some(0));
    assert_eq!(next_instruction(0xffff_fff0, 15), Some(0xffff_ffff));
    assert_eq!(next_instruction(u64::MAX - 1, 1), Some(u64::MAX));
    assert_eq!(next_instruction(u64::MAX, 1), None);
    assert_eq!(next_instruction(1, u64::MAX), None);
}

#[test]
fn x86_registers_are_numbered_in_order() {
    assert_eq!(Register::RIP.native_id(), 0);
    assert_eq!(Register::RFLAGS.native_id(), 1);
    assert_eq!(Register::RAX.native_id(), 2);
    assert_eq!(Register::RCX.native_id(), 3);
    assert_eq!(Register::RDX.native_id(), 4);
    assert_eq!(Register::RBX.native_id(), 5);
    assert_eq!(Register::RSP.native_id(), 8);
    assert_eq!(Register::R8.native_id(), 10);
    assert_eq!(Register::R15.native_id(), 17);
    assert_eq!(Register::CS.native_id(), 18);
    assert_eq!(Register::GS.native_id(), 23);
    assert_eq!(Register::IDT_BASE.native_id(), 24);
    assert_eq!(Register::LDTR.native_id(), 28);
    assert_eq!(Register::TR.native_id(), 32);
    assert_eq!(Register::CR0.native_id(), 36);
    assert_eq!(Register::CR4.native_id(), 40);
    assert_eq!(Register::DR0.native_id(), 41);
    assert_eq!(Register::DR7.native_id(), 48);
    assert_eq!(Register::TPR.native_id(), 49);
    assert_eq!(Register::XCR0.native_id(), 50);
    assert_eq!(Register::REGISTERS_MAX.native_id(), 51);
}
