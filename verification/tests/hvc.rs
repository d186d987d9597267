//! A guest that moves 2 into `x0` and calls the hypervisor, run against a
//! host that is played by this file.

use xhypervisor::aarch64::exit::{HV_EXIT_REASON_EXCEPTION, HV_EXIT_REASON_UNKNOWN};
use xhypervisor::aarch64::{
    create_vm, destroy_vm, hv_vcpu_exit_exception_t, hv_vcpu_exit_t, map_mem, unmap_mem, Call,
    Register, VirtualCpu, VirtualCpuExitReason,
};
use xhypervisor::error::{HV_BAD_ARGUMENT, HV_BUSY, HV_ERROR, HV_NO_DEVICE, HV_SUCCESS};
use xhypervisor::{match_error_code, match_value, Error, MemPerm, VcpuState};

/// What a call hands back.
struct Reply {
    status: u32,
    value: u64,
    exit: hv_vcpu_exit_t,
}

/// A host with one possible virtual machine and one possible virtual CPU,
/// whose guest knows two instructions.
struct Host {
    memory: Vec<u8>,
    memory_at: usize,
    vm: bool,
    mapping: Option<(u64, usize, u64)>,
    vcpu: Option<u64>,
    registers: [u64; 35],
}

const NO_EXIT: hv_vcpu_exit_t = hv_vcpu_exit_t {
    reason: HV_EXIT_REASON_UNKNOWN,
    exception: hv_vcpu_exit_exception_t { syndrome: 0, virtual_address: 0, physical_address: 0 },
};

impl Host {
    fn new(capacity: usize) -> Host {
        Host {
            memory: vec![0; capacity],
            memory_at: 0x1_0000_4000,
            vm: false,
            mapping: None,
            vcpu: None,
            registers: [0; 35],
        }
    }

    fn status(status: u32) -> Reply {
        Reply { status, value: 0, exit: NO_EXIT }
    }

    fn fetch(&self, ipa: u64) -> Option<u32> {
        let (base, size, flags) = self.mapping?;
        if flags & 4 == 0 || ipa < base || ipa + 4 > base + size as u64 {
            return None;
        }
        let at = (ipa - base) as usize;
        let b = &self.memory[at..at + 4];
        Some(u32::from_le_bytes([b[0], b[1], b[2], b[3]]))
    }

    fn run(&mut self) -> Reply {
        loop {
            let pc = self.registers[31];
            let Some(word) = self.fetch(pc) else {
                return Host::status(HV_ERROR);
            };
            if word & 0xffe0_0000 == 0xd280_0000 {
                // movz xd, #imm16
                let rd = (word & 0x1f) as usize;
                self.registers[rd] = ((word >> 5) & 0xffff) as u64;
                self.registers[31] = pc + 4;
            } else if word & 0xffe0_001f == 0xd400_0002 {
                // hvc #imm16
                self.registers[31] = pc + 4;
                let syndrome = (0x16u64 << 26) | (1 << 25) | ((word >> 5) & 0xffff) as u64;
                let exit = hv_vcpu_exit_t {
                    reason: HV_EXIT_REASON_EXCEPTION,
                    exception: hv_vcpu_exit_exception_t {
                        syndrome,
                        virtual_address: 0,
                        physical_address: 0,
                    },
                };
                return Reply { status: HV_SUCCESS, value: 0, exit };
            } else {
                return Host::status(HV_ERROR);
            }
        }
    }

    fn perform(&mut self, call: Call) -> Reply {
        match call {
            Call::VmCreate => {
                if self.vm {
                    return Host::status(HV_BUSY);
                }
                self.vm = true;
                Host::status(HV_SUCCESS)
            }
            Call::VmDestroy => {
                if !self.vm {
                    return Host::status(HV_ERROR);
                }
                self.vm = false;
                self.mapping = None;
                Host::status(HV_SUCCESS)
            }
            Call::VmMap { addr, ipa, size, flags } => {
                if !self.vm || addr != self.memory_at || size > self.memory.len()
                    || size % 4096 != 0 || ipa % 4096 != 0 || self.mapping.is_some()
                {
                    return Host::status(HV_BAD_ARGUMENT);
                }
                self.mapping = Some((ipa, size, flags));
                Host::status(HV_SUCCESS)
            }
            Call::VmUnmap { ipa, size } => match self.mapping {
                Some((base, len, _)) if base == ipa && len == size => {
                    self.mapping = None;
                    Host::status(HV_SUCCESS)
                }
                _ => Host::status(HV_BAD_ARGUMENT),
            },
            Call::VmProtect { ipa, size, flags } => match self.mapping {
                Some((base, len, _)) if base == ipa && len == size => {
                    self.mapping = Some((base, len, flags));
                    Host::status(HV_SUCCESS)
                }
                _ => Host::status(HV_BAD_ARGUMENT),
            },
            Call::VcpuCreate => {
                if !self.vm || self.vcpu.is_some() {
                    return Host::status(HV_NO_DEVICE);
                }
                self.vcpu = Some(1);
                Reply { status: HV_SUCCESS, value: 1, exit: NO_EXIT }
            }
            Call::VcpuDestroy { vcpu } => {
                if self.vcpu != Some(vcpu) {
                    return Host::status(HV_BAD_ARGUMENT);
                }
                self.vcpu = None;
                Host::status(HV_SUCCESS)
            }
            Call::VcpuRun { vcpu } => {
                if self.vcpu != Some(vcpu) {
                    return Host::status(HV_BAD_ARGUMENT);
                }
                self.run()
            }
            Call::VcpuGetReg { vcpu, reg } => {
                if self.vcpu != Some(vcpu) || reg > 34 {
                    return Host::status(HV_BAD_ARGUMENT);
                }
                Reply { status: HV_SUCCESS, value: self.registers[reg as usize], exit: NO_EXIT }
            }
            Call::VcpuSetReg { vcpu, reg, value } => {
                if self.vcpu != Some(vcpu) || reg > 34 {
                    return Host::status(HV_BAD_ARGUMENT);
                }
                self.registers[reg as usize] = value;
                Host::status(HV_SUCCESS)
            }
            Call::VcpuGetSysReg { .. } | Call::VcpuSetSysReg { .. } => {
                Host::status(HV_BAD_ARGUMENT)
            }
        }
    }
}

#[test]
fn hvc_vm_create() {
    let el1_user_payload = [
        0x40, 0x00, 0x80, 0xD2, // mov x0, #2
        0x02, 0x00, 0x00, 0xD4, // hvc #0
    ];
    let sz = el1_user_payload.len();
    const EL1_USER_PAYLOAD_ADDRESS: u64 = 0x20000;

    let capacity: usize = 8 * 0x10000;
    let mut host = Host::new(capacity);

    let reply = host.perform(create_vm());
    match_error_code(reply.status).unwrap();

    println!("allocating memory at {:?}", host.memory_at);
    //copy kernel to the VM memory
    host.memory[EL1_USER_PAYLOAD_ADDRESS as usize..EL1_USER_PAYLOAD_ADDRESS as usize + sz]
        .clone_from_slice(&el1_user_payload);
    //map the vec at address 0
    let reply = host.perform(map_mem(host.memory_at, capacity, 0, MemPerm::ExecWrite));
    match_error_code(reply.status).unwrap();

    let reply = host.perform(VirtualCpu::create());
    let mut vcpu = VirtualCpu::new(reply.status, reply.value).unwrap();
    assert_eq!(vcpu.state(), VcpuState::Runnable);

    let reply = host.perform(vcpu.write_register(Register::CPSR, 0x3c4));
    match_error_code(reply.status).unwrap();
    let reply = host.perform(vcpu.write_register(Register::PC, EL1_USER_PAYLOAD_ADDRESS));
    match_error_code(reply.status).unwrap();

    let mut runs = 0;
    loop {
        let call = vcpu.run();
        assert_eq!(vcpu.state(), VcpuState::Running);
        let reply = host.perform(call);
        vcpu.finish_run(reply.status, reply.exit).unwrap();
        assert_eq!(vcpu.state(), VcpuState::Exited);
        runs += 1;
        let reason = vcpu.exit_reason();

        match reason {
            VirtualCpuExitReason::Exception { exception } => {
                let ec = (exception.syndrome >> 26) & 0x3f;
                assert_eq!(exception.class() as u64, ec);

                if ec == 0x16 {
                    let reply = host.perform(vcpu.read_register(Register::X0));
                    let x0 = match_value(reply.status, reply.value).unwrap();
                    println!("HVC executed! x0 is {}", x0);
                    assert_eq!(x0, 2);
                    break;
                } else {
                    panic!("Unknown exception class 0x{:x}", ec);
                }
            }
            reason => {
                panic!("Unexpected exit! Reason: {:?}", reason);
            }
        }
    }
    assert_eq!(runs, 1);

    let reply = host.perform(vcpu.destroy());
    vcpu.finish_destroy(reply.status).unwrap();
    assert_eq!(vcpu.state(), VcpuState::Destroyed);
    let reply = host.perform(unmap_mem(0, capacity));
    match_error_code(reply.status).unwrap();
}

#[test]
fn destroy_without_create_is_an_error_and_no_fault() {
    let mut host = Host::new(4096);
    let reply = host.perform(destroy_vm());
    assert_eq!(match_error_code(reply.status), Err(Error::Error));
    let reply = host.perform(create_vm());
    assert_eq!(match_error_code(reply.status), Ok(()));
    let reply = host.perform(create_vm());
    assert_eq!(match_error_code(reply.status), Err(Error::Busy));
    let reply = host.perform(destroy_vm());
    assert_eq!(match_error_code(reply.status), Ok(()));
    let reply = host.perform(destroy_vm());
    assert_eq!(match_error_code(reply.status), Err(Error::Error));
}

#[test]
fn unmap_then_map_asks_for_a_fresh_mapping() {
    let mut host = Host::new(0x4000);
    match_error_code(host.perform(create_vm()).status).unwrap();
    let first = map_mem(host.memory_at, 0x4000, 0x8000, MemPerm::ReadWrite);
    assert_eq!(first, Call::VmMap { addr: host.memory_at, ipa: 0x8000, size: 0x4000, flags: 3 });
    match_error_code(host.perform(first).status).unwrap();
    let unmap = unmap_mem(0x8000, 0x4000);
    assert_eq!(unmap, Call::VmUnmap { ipa: 0x8000, size: 0x4000 });
    match_error_code(host.perform(unmap).status).unwrap();
    let second = map_mem(host.memory_at, 0x4000, 0x8000, MemPerm::Read);
    assert_eq!(second, Call::VmMap { addr: host.memory_at, ipa: 0x8000, size: 0x4000, flags: 1 });
    match_error_code(host.perform(second).status).unwrap();
    assert_eq!(host.mapping, Some((0x8000, 0x4000, 1)));
    let again = map_mem(host.memory_at, 0x4000, 0x8000, MemPerm::ReadWrite);
    assert_eq!(again, first);
}

#[test]
fn every_register_reads_back_what_was_written() {
    let registers = [
        Register::X0, Register::X1, Register::X2, Register::X3, Register::X4, Register::X5,
        Register::X6, Register::X7, Register::X8, Register::X9, Register::X10, Register::X11,
        Register::X12, Register::X13, Register::X14, Register::X15, Register::X16, Register::X17,
        Register::X18, Register::X19, Register::X20, Register::X21, Register::X22, Register::X23,
        Register::X24, Register::X25, Register::X26, Register::X27, Register::X28, Register::X29,
        Register::FP, Register::X30, Register::LR, Register::PC, Register::FPCR, Register::FPSR,
        Register::CPSR,
    ];
    let mut host = Host::new(4096);
    match_error_code(host.perform(create_vm()).status).unwrap();
    let reply = host.perform(VirtualCpu::create());
    let vcpu = VirtualCpu::new(reply.status, reply.value).unwrap();
    for (i, reg) in registers.iter().enumerate() {
        let sentinel = 0xfeed_face_0000_0000 | i as u64;
        let reply = host.perform(vcpu.write_register(*reg, sentinel));
        match_error_code(reply.status).unwrap();
        let reply = host.perform(vcpu.read_register(*reg));
        assert_eq!(match_value(reply.status, reply.value), Ok(sentinel));
    }
}
