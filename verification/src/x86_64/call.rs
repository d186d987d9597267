//! The native calls of the backend, as values.

use vstd::prelude::*;

use libc::{c_uint, size_t};

use crate::memory::hv_memory_flags_t;
use crate::x86_64::registers::hv_x86_reg_t;

verus! {

/// Native handle of a virtual CPU.
#[allow(non_camel_case_types)]
pub type hv_vcpuid_t = c_uint;

/// An address in the memory that the guest takes for physical.
#[allow(non_camel_case_types)]
pub type hv_gpaddr_t = u64;

/// Options of the creation of a virtual machine.
#[allow(non_camel_case_types)]
pub type hv_vm_options_t = u64;

/// Options of the creation of a virtual CPU.
#[allow(non_camel_case_types)]
pub type hv_vcpu_options_t = u64;

/// Native identifier of a class of capabilities.
#[allow(non_camel_case_types)]
pub type hv_vmx_capability_t = c_uint;

/// The default options of a virtual machine.
pub const HV_VM_DEFAULT: hv_vm_options_t = 0;

/// The default options of a virtual CPU.
pub const HV_VCPU_DEFAULT: hv_vcpu_options_t = 0;

/// One call into the native layer, with its arguments: what the library has
/// decided to ask for. Whoever embeds the library makes the call and hands
/// back the status word, and the value that the call wrote, if it writes
/// one.
#[derive(Debug, PartialEq, Eq)]
pub enum Call {
    /// Create the virtual machine of this process.
    VmCreate { vm_options: hv_vm_options_t },
    /// Destroy the virtual machine of this process.
    VmDestroy,
    /// Map `size` bytes of host memory at `uva` to the guest at `gpa`.
    VmMap { uva: usize, gpa: hv_gpaddr_t, size: size_t, flags: hv_memory_flags_t },
    /// Remove the mapping of `size` bytes at `gpa`.
    VmUnmap { gpa: hv_gpaddr_t, size: size_t },
    /// Change the protection of `size` bytes at `gpa`.
    VmProtect { gpa: hv_gpaddr_t, size: size_t, flags: hv_memory_flags_t },
    /// Set the time-stamp counter of every virtual CPU to `tsc`.
    VmSyncTsc { tsc: u64 },
    /// Read a class of capabilities of the host. Hands back the capability
    /// word.
    VmxReadCapability { capability: hv_vmx_capability_t },
    /// Create a virtual CPU for the calling thread. Hands back its handle.
    VcpuCreate { vcpu_options: hv_vcpu_options_t },
    /// Destroy a virtual CPU.
    VcpuDestroy { vcpu: hv_vcpuid_t },
    /// Run a virtual CPU until it exits.
    VcpuRun { vcpu: hv_vcpuid_t },
    /// Force the `vcpu_count` virtual CPUs with the handles `vcpus` to exit.
    VcpuInterrupt { vcpus: Vec<hv_vcpuid_t>, vcpu_count: c_uint },
    /// Read the time that a virtual CPU has run, in nanoseconds. Hands back
    /// the time.
    VcpuGetExecTime { vcpu: hv_vcpuid_t },
    /// Write back the cached state of a virtual CPU.
    VcpuFlush { vcpu: hv_vcpuid_t },
    /// Invalidate the translation lookaside buffer of a virtual CPU.
    VcpuInvalidateTlb { vcpu: hv_vcpuid_t },
    /// Let the guest use a machine-specific register natively, or stop it.
    VcpuEnableNativeMsr { vcpu: hv_vcpuid_t, msr: u32, enable: bool },
    /// Read a machine-specific register. Hands back its value.
    VcpuReadMsr { vcpu: hv_vcpuid_t, msr: u32 },
    /// Write a machine-specific register.
    VcpuWriteMsr { vcpu: hv_vcpuid_t, msr: u32, value: u64 },
    /// Read an architectural register. Hands back its value.
    VcpuReadRegister { vcpu: hv_vcpuid_t, reg: hv_x86_reg_t },
    /// Write an architectural register.
    VcpuWriteRegister { vcpu: hv_vcpuid_t, reg: hv_x86_reg_t, value: u64 },
    /// Read a field of the control structure. Hands back its value.
    VmxVcpuReadVmcs { vcpu: hv_vcpuid_t, field: u32 },
    /// Write a field of the control structure.
    VmxVcpuWriteVmcs { vcpu: hv_vcpuid_t, field: u32, value: u64 },
    /// Set the guest physical address of the interrupt controller.
    VmxVcpuSetApicAddress { vcpu: hv_vcpuid_t, gpa: hv_gpaddr_t },
    /// Copy the floating-point and SIMD state into the `size` bytes of host
    /// memory at `buffer`.
    VcpuReadFpstate { vcpu: hv_vcpuid_t, buffer: usize, size: size_t },
    /// Set the floating-point and SIMD state from the `size` bytes of host
    /// memory at `buffer`.
    VcpuWriteFpstate { vcpu: hv_vcpuid_t, buffer: usize, size: size_t },
}

} // verus!
