//! The native calls of the backend, as values.

use libc::size_t;
use vstd::prelude::*;

use crate::aarch64::registers::hv_reg_t;
use crate::aarch64::system_registers::hv_sys_reg_t;
use crate::memory::hv_memory_flags_t;

verus! {

/// Native handle of a virtual CPU.
#[allow(non_camel_case_types)]
pub type hv_vcpu_t = u64;

/// An address in the memory that the guest takes for physical.
#[allow(non_camel_case_types)]
pub type hv_ipa_t = u64;

/// One call into the native layer, with its arguments: what the library has
/// decided to ask for. Whoever embeds the library makes the call and hands
/// back the status word, and the values that the call wrote.
#[derive(Clone, Copy, Debug, PartialEq, Eq, Structural)]
pub enum Call {
    /// Create the virtual machine of this process, with the default
    /// configuration.
    VmCreate,
    /// Destroy the virtual machine of this process.
    VmDestroy,
    /// Map `size` bytes of host memory at `addr` to the guest at `ipa`.
    VmMap { addr: usize, ipa: hv_ipa_t, size: size_t, flags: hv_memory_flags_t },
    /// Remove the mapping of `size` bytes at `ipa`.
    VmUnmap { ipa: hv_ipa_t, size: size_t },
    /// Change the protection of `size` bytes at `ipa`.
    VmProtect { ipa: hv_ipa_t, size: size_t, flags: hv_memory_flags_t },
    /// Create a virtual CPU for the calling thread, with the default
    /// configuration. Hands back its handle and the place of its exit
    /// record.
    VcpuCreate,
    /// Destroy a virtual CPU.
    VcpuDestroy { vcpu: hv_vcpu_t },
    /// Run a virtual CPU until it exits.
    VcpuRun { vcpu: hv_vcpu_t },
    /// Read an architectural register. Hands back its value.
    VcpuGetReg { vcpu: hv_vcpu_t, reg: hv_reg_t },
    /// Write an architectural register.
    VcpuSetReg { vcpu: hv_vcpu_t, reg: hv_reg_t, value: u64 },
    /// Read a system register. Hands back its value.
    VcpuGetSysReg { vcpu: hv_vcpu_t, sys_reg: hv_sys_reg_t },
    /// Write a system register.
    VcpuSetSysReg { vcpu: hv_vcpu_t, sys_reg: hv_sys_reg_t, value: u64 },
}

} // verus!
