use xhypervisor::aarch64::exit::{
    EXCEPTION_CLASS_HVC, HV_EXIT_REASON_CANCELED, HV_EXIT_REASON_EXCEPTION,
    HV_EXIT_REASON_UNKNOWN, HV_EXIT_REASON_VTIMER_ACTIVATED,
};
use xhypervisor::aarch64::{
    create_vm, destroy_vm, hv_vcpu_exit_exception_t, hv_vcpu_exit_t, map_mem, protect_mem,
    unmap_mem, Call, Register, SystemRegister, VirtualCpu, VirtualCpuExitReason,
};
use xhypervisor::error::{HV_BUSY, HV_ERROR, HV_NO_DEVICE, HV_SUCCESS, HV_UNSUPPORTED};
use xhypervisor::{Error, MemPerm, VcpuState};

fn exception(syndrome: u64) -> hv_vcpu_exit_exception_t {
    hv_vcpu_exit_exception_t { syndrome, virtual_address: 0x1000, physical_address: 0x2000 }
}

fn record(reason: u32, syndrome: u64) -> hv_vcpu_exit_t {
    hv_vcpu_exit_t { reason, exception: exception(syndrome) }
}

fn vcpu() -> VirtualCpu {
    VirtualCpu::new(HV_SUCCESS, 5).unwrap()
}

#[test]
fn arm_requests_of_the_virtual_machine() {
    assert_eq!(create_vm(), Call::VmCreate);
    assert_eq!(destroy_vm(), Call::VmDestroy);
    assert_eq!(
        map_mem(0x4000, 0x8_0000, 0, MemPerm::ExecWrite),
        Call::VmMap { addr: 0x4000, ipa: 0, size: 0x8_0000, flags: 7 }
    );
    assert_eq!(
        map_mem(0x4000, 0x4000, 0x2_0000, MemPerm::Exec),
        Call::VmMap { addr: 0x4000, ipa: 0x2_0000, size: 0x4000, flags: 5 }
    );
    assert_eq!(unmap_mem(0x2_0000, 0x4000), Call::VmUnmap { ipa: 0x2_0000, size: 0x4000 });
    assert_eq!(
        protect_mem(0x2_0000, 0x4000, MemPerm::ReadWrite),
        Call::VmProtect { ipa: 0x2_0000, size: 0x4000, flags: 3 }
    );
}

#[test]
fn arm_creation() {
    assert_eq!(VirtualCpu::create(), Call::VcpuCreate);
    let vcpu = vcpu();
    assert_eq!(vcpu.get_id(), 5);
    assert_eq!(vcpu.state(), VcpuState::Runnable);
}

#[test]
fn arm_creation_that_failed() {
    assert_eq!(VirtualCpu::new(HV_NO_DEVICE, 5).err(), Some(Error::NoDev));
    assert_eq!(VirtualCpu::new(HV_UNSUPPORTED, 0).err(), Some(Error::Unsupp));
    assert_eq!(VirtualCpu::new(HV_BUSY, 0).err(), Some(Error::Busy));
    assert_eq!(VirtualCpu::new(3, 0).err(), Some(Error::Error));
}

#[test]
fn arm_requests_of_a_virtual_cpu() {
    let vcpu = vcpu();
    assert_eq!(vcpu.read_register(Register::X0), Call::VcpuGetReg { vcpu: 5, reg: 0 });
    assert_eq!(vcpu.read_register(Register::LR), Call::VcpuGetReg { vcpu: 5, reg: 30 });
    assert_eq!(
        vcpu.write_register(Register::CPSR, 0x3c4),
        Call::VcpuSetReg { vcpu: 5, reg: 34, value: 0x3c4 }
    );
    assert_eq!(
        vcpu.write_register(Register::PC, 0x20000),
        Call::VcpuSetReg { vcpu: 5, reg: 31, value: 0x20000 }
    );
    assert_eq!(
        vcpu.read_system_register(SystemRegister::SCTLR_EL1),
        Call::VcpuGetSysReg { vcpu: 5, sys_reg: 0xc080 }
    );
    assert_eq!(
        vcpu.write_system_register(SystemRegister::VBAR_EL1, 0x8000),
        Call::VcpuSetSysReg { vcpu: 5, sys_reg: 0xc600, value: 0x8000 }
    );
    assert_eq!(vcpu.destroy(), Call::VcpuDestroy { vcpu: 5 });
}

#[test]
fn arm_exit_records_by_tag() {
    assert_eq!(
        VirtualCpuExitReason::from(record(HV_EXIT_REASON_CANCELED, 7)),
        VirtualCpuExitReason::Cancelled
    );
    assert_eq!(
        VirtualCpuExitReason::from(record(HV_EXIT_REASON_EXCEPTION, 0x5a00_0000)),
        VirtualCpuExitReason::Exception { exception: exception(0x5a00_0000) }
    );
    assert_eq!(
        VirtualCpuExitReason::from(record(HV_EXIT_REASON_VTIMER_ACTIVATED, 7)),
        VirtualCpuExitReason::VTimerActivated
    );
    assert_eq!(
        VirtualCpuExitReason::from(record(HV_EXIT_REASON_UNKNOWN, 7)),
        VirtualCpuExitReason::Unknown
    );
}

#[test]
fn arm_an_unknown_tag_is_unknown() {
    assert_eq!(VirtualCpuExitReason::from(record(4, 0)), VirtualCpuExitReason::Unknown);
    assert_eq!(VirtualCpuExitReason::from(record(0x100, 0)), VirtualCpuExitReason::Unknown);
    assert_eq!(VirtualCpuExitReason::from(record(u32::MAX, 0)), VirtualCpuExitReason::Unknown);
}

#[test]
fn arm_tag_numbers() {
    assert_eq!(HV_EXIT_REASON_CANCELED, 0);
    assert_eq!(HV_EXIT_REASON_EXCEPTION, 1);
    assert_eq!(HV_EXIT_REASON_VTIMER_ACTIVATED, 2);
    assert_eq!(HV_EXIT_REASON_UNKNOWN, 3);
}

#[test]
fn arm_exception_class_is_bits_26_to_31() {
    assert_eq!(exception(0x5a00_0000).class(), 0x16);
    assert_eq!(exception(0x5a00_0000).class(), EXCEPTION_CLASS_HVC);
    assert_eq!(exception(0).class(), 0);
    assert_eq!(exception(0x03ff_ffff).class(), 0);
    assert_eq!(exception(0x0400_0000).class(), 1);
    assert_eq!(exception(0xfc00_0000).class(), 0x3f);
    assert_eq!(exception(0xffff_ffff_0000_0000).class(), 0);
    assert_eq!(exception(u64::MAX).class(), 0x3f);
    assert_eq!(exception(0x9200_0046).class(), 0x24);
}

#[test]
fn arm_the_exit_record_is_kept_while_exited() {
    let mut vcpu = vcpu();
    assert_eq!(vcpu.run(), Call::VcpuRun { vcpu: 5 });
    assert_eq!(vcpu.state(), VcpuState::Running);
    assert_eq!(vcpu.finish_run(HV_SUCCESS, record(HV_EXIT_REASON_EXCEPTION, 0x5a00_0000)), Ok(()));
    assert_eq!(vcpu.state(), VcpuState::Exited);
    assert_eq!(
        vcpu.exit_reason(),
        VirtualCpuExitReason::Exception { exception: exception(0x5a00_0000) }
    );
    assert_eq!(
        vcpu.exit_reason(),
        VirtualCpuExitReason::Exception { exception: exception(0x5a00_0000) }
    );
    vcpu.run();
    assert_eq!(vcpu.finish_run(HV_SUCCESS, record(HV_EXIT_REASON_VTIMER_ACTIVATED, 0)), Ok(()));
    assert_eq!(vcpu.exit_reason(), VirtualCpuExitReason::VTimerActivated);
}

#[test]
fn arm_a_run_that_fails_leaves_no_exit_record() {
    let mut vcpu = vcpu();
    vcpu.run();
    assert_eq!(
        vcpu.finish_run(HV_ERROR, record(HV_EXIT_REASON_EXCEPTION, 0x5a00_0000)),
        Err(Error::Error)
    );
    assert_eq!(vcpu.state(), VcpuState::Runnable);
    vcpu.run();
    assert_eq!(vcpu.finish_run(HV_SUCCESS, record(HV_EXIT_REASON_CANCELED, 0)), Ok(()));
    assert_eq!(vcpu.exit_reason(), VirtualCpuExitReason::Cancelled);
}

#[test]
fn arm_destruction() {
    let mut vcpu = vcpu();
    vcpu.run();
    vcpu.finish_run(HV_SUCCESS, record(HV_EXIT_REASON_CANCELED, 0)).unwrap();
    assert_eq!(vcpu.destroy(), Call::VcpuDestroy { vcpu: 5 });
    assert_eq!(vcpu.finish_destroy(HV_ERROR), Err(Error::Error));
    assert_eq!(vcpu.state(), VcpuState::Exited);
    assert_eq!(vcpu.exit_reason(), VirtualCpuExitReason::Cancelled);
    assert_eq!(vcpu.finish_destroy(HV_SUCCESS), Ok(()));
    assert_eq!(vcpu.state(), VcpuState::Destroyed);
    assert_eq!(vcpu.get_id(), 5);
}
