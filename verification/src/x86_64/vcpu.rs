//! A virtual CPU: what may be asked of it, and what becomes of it.

use vstd::prelude::*;

use crate::error::{hv_return_t, match_error_code, status_outcome, Error, HV_SUCCESS};
use crate::lifecycle::VcpuState;
use crate::x86_64::call::{hv_gpaddr_t, hv_vcpuid_t, Call, HV_VCPU_DEFAULT};
use crate::x86_64::dump::{CpuState, Source, SOURCES};
use crate::x86_64::registers::Register;
use crate::x86_64::vmcs::{VMCS_RO_EXIT_QUALIFIC, VMCS_RO_EXIT_REASON};
use crate::x86_64::vmx::{cap2ctrl, enforced, VMXCap};

verus! {

/// What a virtual CPU is, to a contract.
pub struct VirtualCpuView {
    /// The number that the caller gave it.
    pub id: u32,
    /// The native handle.
    pub vcpu_handle: hv_vcpuid_t,
    /// Where the virtual CPU stands in its life.
    pub state: VcpuState,
}

impl VirtualCpuView {
    /// The call that reads the number at `source`.
    pub open spec fn read_at(self, source: Source) -> Call {
        match source {
            Source::Vmcs { field } => Call::VmxVcpuReadVmcs { vcpu: self.vcpu_handle, field },
            Source::Register { reg } => Call::VcpuReadRegister {
                vcpu: self.vcpu_handle,
                reg: reg.native_id(),
            },
        }
    }
}

/// Virtual CPU
pub struct VirtualCpu {
    /// Virtual CPU Id
    id: u32,
    /// Virtual CPU handle
    vcpu_handle: hv_vcpuid_t,
    /// Where the virtual CPU stands in its life.
    state: VcpuState,
}

impl View for VirtualCpu {
    type V = VirtualCpuView;

    closed spec fn view(&self) -> VirtualCpuView {
        VirtualCpuView { id: self.id, vcpu_handle: self.vcpu_handle, state: self.state }
    }
}

impl VirtualCpu {
    /// Asks for a virtual CPU to be created for the calling thread.
    pub fn create() -> (call: Call)
        ensures
            call == (Call::VcpuCreate { vcpu_options: HV_VCPU_DEFAULT }),
    {
        Call::VcpuCreate { vcpu_options: HV_VCPU_DEFAULT }
    }

    /// The virtual CPU that the native layer created, if it did: `code` is
    /// the status of the call that [`VirtualCpu::create`] asked for,
    /// `vcpu_handle` the handle that it wrote. The virtual CPU is `Runnable`.
    ///
    /// `id` represents the internal numbering of the processor.
    pub fn new(id: u32, code: hv_return_t, vcpu_handle: hv_vcpuid_t) -> (created: Result<
        VirtualCpu,
        Error,
    >)
        ensures
            created is Ok <==> code == HV_SUCCESS,
            created matches Ok(vcpu) ==> vcpu@ == (VirtualCpuView {
                id,
                vcpu_handle,
                state: VcpuState::Runnable,
            }),
            created matches Err(e) ==> status_outcome(code) == Err::<(), Error>(e),
    {
        match match_error_code(code) {
            Ok(()) => Ok(VirtualCpu { id, vcpu_handle, state: VcpuState::Runnable }),
            Err(e) => Err(e),
        }
    }

    /// The number that the caller gave the virtual CPU.
    pub fn get_id(&self) -> (id: u32)
        ensures
            id == self@.id,
    {
        self.id
    }

    /// The native handle of the virtual CPU.
    pub fn get_handle(&self) -> (vcpu_handle: hv_vcpuid_t)
        ensures
            vcpu_handle == self@.vcpu_handle,
    {
        self.vcpu_handle
    }

    /// Where the virtual CPU stands in its life.
    pub fn state(&self) -> (state: VcpuState)
        ensures
            state == self@.state,
    {
        self.state
    }

    /// Asks for the virtual CPU to be destroyed. It must not be `Running`.
    /// Nothing changes until [`VirtualCpu::finish_destroy`] hears of the
    /// outcome.
    pub fn destroy(&self) -> (call: Call)
        requires
            self@.state.may_destroy(),
        ensures
            call == (Call::VcpuDestroy { vcpu: self@.vcpu_handle }),
    {
        Call::VcpuDestroy { vcpu: self.vcpu_handle }
    }

    /// Takes note of how the destruction went that [`VirtualCpu::destroy`]
    /// asked for: the virtual CPU is `Destroyed` if the call succeeded, and
    /// as it was if not.
    pub fn finish_destroy(&mut self, code: hv_return_t) -> (outcome: Result<(), Error>)
        requires
            old(self)@.state.may_destroy(),
        ensures
            outcome == status_outcome(code),
            final(self)@ == (VirtualCpuView {
                state: old(self)@.state.after_destroy(code),
                ..old(self)@
            }),
    {
        let outcome = match_error_code(code);
        if outcome.is_ok() {
            self.state = VcpuState::Destroyed;
        }
        outcome
    }

    /// Asks for the virtual CPU to run, which it does until the guest exits.
    /// It must be `Runnable` or `Exited`; it is `Running` from now on.
    pub fn run(&mut self) -> (call: Call)
        requires
            old(self)@.state.may_run(),
        ensures
            call == (Call::VcpuRun { vcpu: old(self)@.vcpu_handle }),
            final(self)@ == (VirtualCpuView { state: VcpuState::Running, ..old(self)@ }),
    {
        self.state = VcpuState::Running;
        Call::VcpuRun { vcpu: self.vcpu_handle }
    }

    /// Takes note of how the run ended that [`VirtualCpu::run`] asked for:
    /// the virtual CPU is `Exited` if the call succeeded, and the control
    /// structure then tells why the guest was left; it is `Runnable` if the
    /// call failed.
    pub fn finish_run(&mut self, code: hv_return_t) -> (outcome: Result<(), Error>)
        requires
            old(self)@.state is Running,
        ensures
            outcome == status_outcome(code),
            final(self)@ == (VirtualCpuView {
                state: VcpuState::after_run(code),
                ..old(self)@
            }),
    {
        let outcome = match_error_code(code);
        if outcome.is_ok() {
            self.state = VcpuState::Exited;
        } else {
            self.state = VcpuState::Runnable;
        }
        outcome
    }

    /// Asks why the last run ended: for the exit reason and for the
    /// qualification, in this order, which `decode_exit` takes. The virtual
    /// CPU must be `Exited`: at no other time do the two fields describe an
    /// exit.
    pub fn exit_reads(&self) -> (calls: (Call, Call))
        requires
            self@.state is Exited,
        ensures
            calls.0 == (Call::VmxVcpuReadVmcs {
                vcpu: self@.vcpu_handle,
                field: VMCS_RO_EXIT_REASON,
            }),
            calls.1 == (Call::VmxVcpuReadVmcs {
                vcpu: self@.vcpu_handle,
                field: VMCS_RO_EXIT_QUALIFIC,
            }),
    {
        (self.read_vmcs(VMCS_RO_EXIT_REASON), self.read_vmcs(VMCS_RO_EXIT_QUALIFIC))
    }

    /// Asks for the virtual CPU to be forced out of the guest at once. Meant
    /// to be asked from another thread while the virtual CPU runs; asked at
    /// another time, it cuts the next run short.
    pub fn interrupt(&self) -> (call: Call)
        requires
            self@.state.is_live(),
        ensures
            call matches Call::VcpuInterrupt { vcpus, vcpu_count } && vcpus@ == seq![
                self@.vcpu_handle,
            ] && vcpu_count == 1,
    {
        let mut vcpus: Vec<hv_vcpuid_t> = Vec::new();
        vcpus.push(self.vcpu_handle);
        Call::VcpuInterrupt { vcpus, vcpu_count: 1 }
    }

    /// Asks for the time that the virtual CPU has run, in nanoseconds.
    pub fn exec_time(&self) -> (call: Call)
        requires
            self@.state.is_live(),
        ensures
            call == (Call::VcpuGetExecTime { vcpu: self@.vcpu_handle }),
    {
        Call::VcpuGetExecTime { vcpu: self.vcpu_handle }
    }

    /// Asks for the cached state of the virtual CPU to be written back.
    pub fn flush(&self) -> (call: Call)
        requires
            self@.state.is_live(),
        ensures
            call == (Call::VcpuFlush { vcpu: self@.vcpu_handle }),
    {
        Call::VcpuFlush { vcpu: self.vcpu_handle }
    }

    /// Asks for the translation lookaside buffer of the virtual CPU to be
    /// invalidated.
    pub fn invalidate_tlb(&self) -> (call: Call)
        requires
            self@.state.is_live(),
        ensures
            call == (Call::VcpuInvalidateTlb { vcpu: self@.vcpu_handle }),
    {
        Call::VcpuInvalidateTlb { vcpu: self.vcpu_handle }
    }

    /// Asks for the guest to be given native use of a machine-specific
    /// register, or for that to end.
    pub fn enable_native_msr(&self, msr: u32, enable: bool) -> (call: Call)
        requires
            self@.state.is_live(),
        ensures
            call == (Call::VcpuEnableNativeMsr { vcpu: self@.vcpu_handle, msr, enable }),
    {
        Call::VcpuEnableNativeMsr { vcpu: self.vcpu_handle, msr, enable }
    }

    /// Asks for the value of a machine-specific register.
    pub fn read_msr(&self, msr: u32) -> (call: Call)
        requires
            self@.state.is_live(),
        ensures
            call == (Call::VcpuReadMsr { vcpu: self@.vcpu_handle, msr }),
    {
        Call::VcpuReadMsr { vcpu: self.vcpu_handle, msr }
    }

    /// Asks for a machine-specific register to be set to `value`.
    pub fn write_msr(&self, msr: u32, value: u64) -> (call: Call)
        requires
            self@.state.is_live(),
        ensures
            call == (Call::VcpuWriteMsr { vcpu: self@.vcpu_handle, msr, value }),
    {
        Call::VcpuWriteMsr { vcpu: self.vcpu_handle, msr, value }
    }

    /// Asks for the value of an architectural register.
    pub fn read_register(&self, reg: &Register) -> (call: Call)
        requires
            self@.state.is_live(),
        ensures
            call == (Call::VcpuReadRegister { vcpu: self@.vcpu_handle, reg: reg.native_id() }),
    {
        Call::VcpuReadRegister { vcpu: self.vcpu_handle, reg: reg.native_id() }
    }

    /// Asks for an architectural register to be set to `value`. The virtual
    /// CPU must not be `Running`.
    pub fn write_register(&self, reg: &Register, value: u64) -> (call: Call)
        requires
            self@.state.is_stopped(),
        ensures
            call == (Call::VcpuWriteRegister {
                vcpu: self@.vcpu_handle,
                reg: reg.native_id(),
                value,
            }),
    {
        Call::VcpuWriteRegister { vcpu: self.vcpu_handle, reg: reg.native_id(), value }
    }

    /// Asks for the value of a field of the control structure. Which fields
    /// there are is the native layer's to say.
    pub fn read_vmcs(&self, field: u32) -> (call: Call)
        requires
            self@.state.is_live(),
        ensures
            call == (Call::VmxVcpuReadVmcs { vcpu: self@.vcpu_handle, field }),
    {
        Call::VmxVcpuReadVmcs { vcpu: self.vcpu_handle, field }
    }

    /// Asks for a field of the control structure to be set to `value`. Which
    /// values a field takes is the native layer's to say.
    pub fn write_vmcs(&self, field: u32, value: u64) -> (call: Call)
        requires
            self@.state.is_live(),
        ensures
            call == (Call::VmxVcpuWriteVmcs { vcpu: self@.vcpu_handle, field, value }),
    {
        Call::VmxVcpuWriteVmcs { vcpu: self.vcpu_handle, field, value }
    }

    /// Asks for the control word of the class `class` to be set as near to
    /// `desired` as `capability` allows, which is the capability word that
    /// the host reported for the class. Every control word is to be set so
    /// before the first run. There is nothing to ask for a class that
    /// constrains no control word.
    pub fn write_control(&self, class: &VMXCap, capability: u64, desired: u64) -> (call: Option<
        Call,
    >)
        requires
            self@.state.is_live(),
        ensures
            call is Some <==> class.control_field() is Some,
            class.control_field() matches Some(field) ==> call == Some(
                Call::VmxVcpuWriteVmcs {
                    vcpu: self@.vcpu_handle,
                    field,
                    value: enforced(capability, desired),
                },
            ),
    {
        match class.control_field() {
            Some(field) => Some(self.write_vmcs(field, cap2ctrl(capability, desired))),
            None => None,
        }
    }

    /// Asks for the interrupt controller of the guest to be placed at the
    /// guest physical address `gpa`.
    pub fn set_apic_addr(&self, gpa: u64) -> (call: Call)
        requires
            self@.state.is_live(),
        ensures
            call == (Call::VmxVcpuSetApicAddress {
                vcpu: self@.vcpu_handle,
                gpa: gpa as hv_gpaddr_t,
            }),
    {
        Call::VmxVcpuSetApicAddress { vcpu: self.vcpu_handle, gpa }
    }

    /// Asks for the floating-point and SIMD state to be copied into the
    /// `size` bytes of host memory at `buffer`. The native layer refuses a
    /// size that is not the size of the state.
    pub fn read_fpstate(&self, buffer: usize, size: usize) -> (call: Call)
        requires
            self@.state.is_live(),
        ensures
            call == (Call::VcpuReadFpstate { vcpu: self@.vcpu_handle, buffer, size }),
    {
        Call::VcpuReadFpstate { vcpu: self.vcpu_handle, buffer, size }
    }

    /// Asks for the floating-point and SIMD state to be set from the `size`
    /// bytes of host memory at `buffer`. The native layer refuses a size
    /// that is not the size of the state.
    pub fn write_fpstate(&self, buffer: usize, size: usize) -> (call: Call)
        requires
            self@.state.is_live(),
        ensures
            call == (Call::VcpuWriteFpstate { vcpu: self@.vcpu_handle, buffer, size }),
    {
        Call::VcpuWriteFpstate { vcpu: self.vcpu_handle, buffer, size }
    }

    /// Asks for the number at `source`.
    pub fn read_source(&self, source: &Source) -> (call: Call)
        requires
            self@.state.is_live(),
        ensures
            call == self@.read_at(*source),
    {
        match source {
            Source::Vmcs { field } => self.read_vmcs(*field),
            Source::Register { reg } => self.read_register(reg),
        }
    }

    /// Asks for every number that a description of the state is made of:
    /// the calls that read them, in the order in which
    /// [`CpuState::from_values`] takes what they hand back.
    pub fn dump_reads(&self) -> (calls: Vec<Call>)
        requires
            self@.state.is_live(),
        ensures
            calls@.len() == SOURCES,
            forall|i: int|
                0 <= i < SOURCES ==> #[trigger] calls@[i] == self@.read_at(CpuState::sources()[i]),
    {
        let sources = CpuState::source_list();
        let mut calls: Vec<Call> = Vec::new();
        let mut i: usize = 0;
        while i < sources.len()
            invariant
                self@.state.is_live(),
                sources@ == CpuState::sources(),
                sources@.len() == SOURCES,
                i <= sources@.len(),
                calls@.len() == i,
                forall|k: int| 0 <= k < i ==> #[trigger] calls@[k] == self@.read_at(sources@[k]),
            decreases sources@.len() - i,
        {
            calls.push(self.read_source(&sources[i]));
            i += 1;
        }
        calls
    }
}

} // verus!
