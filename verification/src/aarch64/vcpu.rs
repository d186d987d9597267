//! A virtual CPU: what may be asked of it, and what becomes of it.

use vstd::prelude::*;

use crate::aarch64::call::{hv_vcpu_t, Call};
use crate::aarch64::exit::{hv_vcpu_exit_t, VirtualCpuExitReason};
use crate::aarch64::registers::{hv_reg_t, Register};
use crate::aarch64::system_registers::{hv_sys_reg_t, SystemRegister};
use crate::error::{hv_return_t, match_error_code, status_outcome, Error, HV_SUCCESS};
use crate::lifecycle::VcpuState;

verus! {

/// What a virtual CPU is, to a contract.
pub struct VirtualCpuView {
    /// The native handle.
    pub id: hv_vcpu_t,
    /// Where the virtual CPU stands in its life.
    pub state: VcpuState,
    /// The exit record of the last run, while it is valid.
    pub exit: Option<hv_vcpu_exit_t>,
}

impl VirtualCpuView {
    /// An exit record is held exactly while the virtual CPU is `Exited`: the
    /// record of a run is valid from the return of that run to the start of
    /// the next, and at no other time.
    pub open spec fn well_formed(self) -> bool {
        self.exit is Some <==> self.state is Exited
    }
}

/// Virtual CPU
pub struct VirtualCpu {
    /// Virtual CPU handle
    id: hv_vcpu_t,
    /// Where the virtual CPU stands in its life.
    state: VcpuState,
    /// The exit record of the last run, copied when the run returned.
    vcpu_exit: Option<hv_vcpu_exit_t>,
}

impl View for VirtualCpu {
    type V = VirtualCpuView;

    closed spec fn view(&self) -> VirtualCpuView {
        VirtualCpuView { id: self.id, state: self.state, exit: self.vcpu_exit }
    }
}

impl VirtualCpu {
    #[verifier::type_invariant]
    spec fn holds_exit_while_exited(&self) -> bool {
        self@.well_formed()
    }

    /// Asks for a virtual CPU to be created for the calling thread.
    pub fn create() -> (call: Call)
        ensures
            call == Call::VcpuCreate,
    {
        Call::VcpuCreate
    }

    /// The virtual CPU that the native layer created, if it did: `code` is
    /// the status of the call that [`VirtualCpu::create`] asked for, `id` the
    /// handle that it wrote. The virtual CPU is `Runnable`.
    pub fn new(code: hv_return_t, id: hv_vcpu_t) -> (created: Result<VirtualCpu, Error>)
        ensures
            created is Ok <==> code == HV_SUCCESS,
            created matches Ok(vcpu) ==> vcpu@ == (VirtualCpuView {
                id,
                state: VcpuState::Runnable,
                exit: None,
            }),
            created matches Err(e) ==> status_outcome(code) == Err::<(), Error>(e),
    {
        match match_error_code(code) {
            Ok(()) => Ok(VirtualCpu { id, state: VcpuState::Runnable, vcpu_exit: None }),
            Err(e) => Err(e),
        }
    }

    /// The native handle of the virtual CPU.
    pub fn get_id(&self) -> (id: hv_vcpu_t)
        ensures
            id == self@.id,
    {
        self.id
    }

    /// Where the virtual CPU stands in its life.
    pub fn state(&self) -> (state: VcpuState)
        ensures
            state == self@.state,
    {
        self.state
    }

    /// Asks for the virtual CPU to be destroyed. It must not be `Running`.
    /// Nothing changes until [`VirtualCpu::finish_destroy`] hears of the
    /// outcome.
    pub fn destroy(&self) -> (call: Call)
        requires
            self@.state.may_destroy(),
        ensures
            call == (Call::VcpuDestroy { vcpu: self@.id }),
    {
        Call::VcpuDestroy { vcpu: self.id }
    }

    /// Takes note of how the destruction went that [`VirtualCpu::destroy`]
    /// asked for: the virtual CPU is `Destroyed` if the call succeeded, and
    /// as it was if not.
    pub fn finish_destroy(&mut self, code: hv_return_t) -> (outcome: Result<(), Error>)
        requires
            old(self)@.state.may_destroy(),
        ensures
            outcome == status_outcome(code),
            final(self)@.id == old(self)@.id,
            final(self)@.state == old(self)@.state.after_destroy(code),
            code != HV_SUCCESS ==> final(self)@ == old(self)@,
            final(self)@.well_formed(),
    {
        proof {
            use_type_invariant(&*self);
        }
        let outcome = match_error_code(code);
        if outcome.is_ok() {
            *self = VirtualCpu { id: self.id, state: VcpuState::Destroyed, vcpu_exit: None };
        }
        outcome
    }

    /// Asks for the virtual CPU to run, which it does until the guest exits.
    /// It must be `Runnable` or `Exited`; it is `Running` from now on, and
    /// the exit record of its last run is no longer valid.
    pub fn run(&mut self) -> (call: Call)
        requires
            old(self)@.state.may_run(),
        ensures
            call == (Call::VcpuRun { vcpu: old(self)@.id }),
            final(self)@ == (VirtualCpuView {
                id: old(self)@.id,
                state: VcpuState::Running,
                exit: None,
            }),
    {
        *self = VirtualCpu { id: self.id, state: VcpuState::Running, vcpu_exit: None };
        Call::VcpuRun { vcpu: self.id }
    }

    /// Takes note of how the run ended that [`VirtualCpu::run`] asked for.
    /// If the call succeeded the virtual CPU is `Exited` and `exit`, the
    /// record that the native layer filled in, is kept until the next run.
    /// If it failed the virtual CPU is `Runnable` and `exit` is dropped.
    pub fn finish_run(&mut self, code: hv_return_t, exit: hv_vcpu_exit_t) -> (outcome: Result<
        (),
        Error,
    >)
        requires
            old(self)@.state is Running,
        ensures
            outcome == status_outcome(code),
            final(self)@ == (VirtualCpuView {
                id: old(self)@.id,
                state: VcpuState::after_run(code),
                exit: if code == HV_SUCCESS {
                    Some(exit)
                } else {
                    None
                },
            }),
    {
        let outcome = match_error_code(code);
        if outcome.is_ok() {
            *self = VirtualCpu { id: self.id, state: VcpuState::Exited, vcpu_exit: Some(exit) };
        } else {
            *self = VirtualCpu { id: self.id, state: VcpuState::Runnable, vcpu_exit: None };
        }
        outcome
    }

    /// Why the last run ended. The virtual CPU must be `Exited`: at no other
    /// time is there a valid exit record to read.
    pub fn exit_reason(&self) -> (reason: VirtualCpuExitReason)
        requires
            self@.state is Exited,
        ensures
            self@.exit matches Some(exit) && reason == VirtualCpuExitReason::of_record(exit),
    {
        proof {
            use_type_invariant(self);
        }
        match self.vcpu_exit {
            Some(exit) => VirtualCpuExitReason::from(exit),
            None => VirtualCpuExitReason::Unknown,
        }
    }

    /// Asks for the value of an architectural register.
    pub fn read_register(&self, reg: Register) -> (call: Call)
        requires
            self@.state.is_live(),
        ensures
            call == (Call::VcpuGetReg { vcpu: self@.id, reg: reg.native_id() }),
    {
        Call::VcpuGetReg { vcpu: self.id, reg: hv_reg_t::from(reg) }
    }

    /// Asks for an architectural register to be set to `value`.
    pub fn write_register(&self, reg: Register, value: u64) -> (call: Call)
        requires
            self@.state.is_live(),
        ensures
            call == (Call::VcpuSetReg { vcpu: self@.id, reg: reg.native_id(), value }),
    {
        Call::VcpuSetReg { vcpu: self.id, reg: hv_reg_t::from(reg), value }
    }

    /// Asks for the value of a system register.
    pub fn read_system_register(&self, reg: SystemRegister) -> (call: Call)
        requires
            self@.state.is_live(),
        ensures
            call == (Call::VcpuGetSysReg { vcpu: self@.id, sys_reg: reg.native_id() }),
    {
        Call::VcpuGetSysReg { vcpu: self.id, sys_reg: hv_sys_reg_t::from(reg) }
    }

    /// Asks for a system register to be set to `value`.
    pub fn write_system_register(&self, reg: SystemRegister, value: u64) -> (call: Call)
        requires
            self@.state.is_live(),
        ensures
            call == (Call::VcpuSetSysReg { vcpu: self@.id, sys_reg: reg.native_id(), value }),
    {
        Call::VcpuSetSysReg { vcpu: self.id, sys_reg: hv_sys_reg_t::from(reg), value }
    }
}

} // verus!
