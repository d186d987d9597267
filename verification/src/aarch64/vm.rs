//! The virtual machine of the process and its memory.

use vstd::prelude::*;

use crate::aarch64::call::{hv_ipa_t, Call};
use crate::memory::{match_MemPerm, MemPerm};

verus! {

/// Asks for the virtual machine of this process to be created. The native
/// layer refuses with `Busy` where one exists already.
pub fn create_vm() -> (call: Call)
    ensures
        call == Call::VmCreate,
{
    Call::VmCreate
}

/// Asks for the virtual machine of this process to be destroyed. Mappings
/// and virtual CPUs are not released with it.
pub fn destroy_vm() -> (call: Call)
    ensures
        call == Call::VmDestroy,
{
    Call::VmDestroy
}

/// Asks for the `size` bytes of host memory at `addr` to be mapped into the
/// guest at `ipa`, with the protection that `mem_perm` encodes. The memory
/// stays the caller's, who keeps it in place until the mapping is removed.
pub fn map_mem(addr: usize, size: usize, ipa: u64, mem_perm: MemPerm) -> (call: Call)
    ensures
        call == (Call::VmMap { addr, ipa: ipa as hv_ipa_t, size, flags: mem_perm.flags() }),
{
    Call::VmMap { addr, ipa, size, flags: match_MemPerm(mem_perm) }
}

/// Asks for the mapping of the `size` bytes at `ipa` to be removed.
pub fn unmap_mem(ipa: u64, size: usize) -> (call: Call)
    ensures
        call == (Call::VmUnmap { ipa: ipa as hv_ipa_t, size }),
{
    Call::VmUnmap { ipa, size }
}

/// Asks for the protection of the `size` bytes at `ipa` to be changed to
/// what `mem_perm` encodes.
pub fn protect_mem(ipa: u64, size: usize, mem_perm: MemPerm) -> (call: Call)
    ensures
        call == (Call::VmProtect { ipa: ipa as hv_ipa_t, size, flags: mem_perm.flags() }),
{
    Call::VmProtect { ipa, size, flags: match_MemPerm(mem_perm) }
}

} // verus!
