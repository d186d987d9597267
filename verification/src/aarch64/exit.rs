//! Why a virtual CPU stopped running.

use vstd::prelude::*;

verus! {

/// Tag of an exit record.
#[allow(non_camel_case_types)]
pub type hv_exit_reason_t = u32;

/// The run was cancelled from outside.
pub const HV_EXIT_REASON_CANCELED: hv_exit_reason_t = 0;

/// The guest raised an exception that the host has to handle.
pub const HV_EXIT_REASON_EXCEPTION: hv_exit_reason_t = 1;

/// The virtual timer of the guest became pending.
pub const HV_EXIT_REASON_VTIMER_ACTIVATED: hv_exit_reason_t = 2;

/// The native layer could not tell why.
pub const HV_EXIT_REASON_UNKNOWN: hv_exit_reason_t = 3;

/// Exception class of a hypervisor call from a 64-bit guest.
pub const EXCEPTION_CLASS_HVC: u8 = 0x16;

/// The details of a guest exception.
#[allow(non_camel_case_types)]
#[derive(Clone, Copy, Debug, PartialEq, Eq, Structural)]
pub struct hv_vcpu_exit_exception_t {
    /// The syndrome of the exception.
    pub syndrome: u64,
    /// The guest virtual address that faulted.
    pub virtual_address: u64,
    /// The guest physical address that faulted.
    pub physical_address: u64,
}

/// The exit record of a virtual CPU, as the native layer fills it in.
#[allow(non_camel_case_types)]
#[derive(Clone, Copy, Debug, PartialEq, Eq, Structural)]
pub struct hv_vcpu_exit_t {
    /// The tag: one of the `HV_EXIT_REASON_` values, or a value that this
    /// library does not know.
    pub reason: hv_exit_reason_t,
    /// The details, which mean something only for an exception.
    pub exception: hv_vcpu_exit_exception_t,
}

/// The class of the exception that a syndrome reports: its bits 26 to 31.
pub open spec fn syndrome_class(syndrome: u64) -> u8 {
    ((syndrome >> 26) & 0x3f) as u8
}

impl hv_vcpu_exit_exception_t {
    /// The class of the exception: bits 26 to 31 of the syndrome. No other
    /// bit of the syndrome bears on it.
    pub fn class(&self) -> (class: u8)
        ensures
            class == syndrome_class(self.syndrome),
            class == (self.syndrome as nat / 0x400_0000) % 64,
            class < 64,
    {
        let syndrome = self.syndrome;
        assert(((syndrome >> 26) & 0x3f) < 64 && ((syndrome >> 26) & 0x3f) == (syndrome
            / 0x400_0000) % 64) by (bit_vector);
        ((syndrome >> 26) & 0x3f) as u8
    }
}

/// Exit reason of a virtual CPU
#[derive(Copy, Clone, Debug, PartialEq, Eq, Structural)]
pub enum VirtualCpuExitReason {
    /// Asynchronous exit.
    Cancelled,
    /// Guest exception.
    Exception {
        /// The informations about the guest exception.
        exception: hv_vcpu_exit_exception_t,
    },
    /// Virtual Timer enters the pending state.
    VTimerActivated,
    /// Unexpected exit.
    Unknown,
}

impl VirtualCpuExitReason {
    /// The reason that an exit record stands for. A record with a tag that
    /// is not known stands for `Unknown`; the details are kept for an
    /// exception and for nothing else.
    pub open spec fn of_record(value: hv_vcpu_exit_t) -> VirtualCpuExitReason {
        if value.reason == HV_EXIT_REASON_CANCELED {
            VirtualCpuExitReason::Cancelled
        } else if value.reason == HV_EXIT_REASON_EXCEPTION {
            VirtualCpuExitReason::Exception { exception: value.exception }
        } else if value.reason == HV_EXIT_REASON_VTIMER_ACTIVATED {
            VirtualCpuExitReason::VTimerActivated
        } else {
            VirtualCpuExitReason::Unknown
        }
    }
}

impl From<hv_vcpu_exit_t> for VirtualCpuExitReason {
    fn from(value: hv_vcpu_exit_t) -> (reason: VirtualCpuExitReason) {
        match value.reason {
            HV_EXIT_REASON_CANCELED => VirtualCpuExitReason::Cancelled,
            HV_EXIT_REASON_EXCEPTION => VirtualCpuExitReason::Exception {
                exception: value.exception,
            },
            HV_EXIT_REASON_VTIMER_ACTIVATED => VirtualCpuExitReason::VTimerActivated,
            HV_EXIT_REASON_UNKNOWN => VirtualCpuExitReason::Unknown,
            _ => VirtualCpuExitReason::Unknown,
        }
    }
}

impl vstd::std_specs::convert::FromSpecImpl<hv_vcpu_exit_t> for VirtualCpuExitReason {
    open spec fn obeys_from_spec() -> bool {
        true
    }

    open spec fn from_spec(v: hv_vcpu_exit_t) -> VirtualCpuExitReason {
        VirtualCpuExitReason::of_record(v)
    }
}

} // verus!
