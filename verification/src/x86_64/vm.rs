//! The virtual machine of the process, its memory and what concerns all of
//! its virtual CPUs.

use libc::c_uint;
use vstd::prelude::*;

use crate::memory::{match_MemPerm, MemPerm};
use crate::x86_64::call::{hv_gpaddr_t, Call, HV_VM_DEFAULT};

verus! {

/// Asks for the virtual machine of this process to be created. The native
/// layer refuses with `Busy` where one exists already.
pub fn create_vm() -> (call: Call)
    ensures
        call == (Call::VmCreate { vm_options: HV_VM_DEFAULT }),
{
    Call::VmCreate { vm_options: HV_VM_DEFAULT }
}

/// Asks for the virtual machine of this process to be destroyed. Mappings
/// and virtual CPUs are not released with it.
pub fn destroy_vm() -> (call: Call)
    ensures
        call == Call::VmDestroy,
{
    Call::VmDestroy
}

/// Asks for the `size` bytes of host memory at `uva` to be mapped into the
/// guest at `gpa`, with the protection that `mem_perm` encodes. The memory
/// stays the caller's, who keeps it in place until the mapping is removed.
pub fn map_mem(uva: usize, size: usize, gpa: u64, mem_perm: MemPerm) -> (call: Call)
    ensures
        call == (Call::VmMap { uva, gpa: gpa as hv_gpaddr_t, size, flags: mem_perm.flags() }),
{
    Call::VmMap { uva, gpa, size, flags: match_MemPerm(mem_perm) }
}

/// Asks for the protection of the `size` bytes at `gpa` to be changed to
/// what `mem_perm` encodes.
pub fn protect_mem(gpa: u64, size: usize, mem_perm: MemPerm) -> (call: Call)
    ensures
        call == (Call::VmProtect { gpa: gpa as hv_gpaddr_t, size, flags: mem_perm.flags() }),
{
    Call::VmProtect { gpa, size, flags: match_MemPerm(mem_perm) }
}

/// Asks for the mapping of the `size` bytes at `gpa` to be removed.
pub fn unmap_mem(gpa: u64, size: usize) -> (call: Call)
    ensures
        call == (Call::VmUnmap { gpa: gpa as hv_gpaddr_t, size }),
{
    Call::VmUnmap { gpa, size }
}

/// Asks for the time-stamp counters of all virtual CPUs to be set to `tsc`.
pub fn sync_tsc(tsc: u64) -> (call: Call)
    ensures
        call == (Call::VmSyncTsc { tsc }),
{
    Call::VmSyncTsc { tsc }
}

/// Asks for the virtual CPUs with the handles `vcpu_ids` to be forced out of
/// the guest at once. The native layer takes their number as a C `unsigned
/// int`, so there can be no more than that holds.
pub fn interrupt_vcpus(vcpu_ids: &[u32]) -> (call: Call)
    requires
        vcpu_ids@.len() <= c_uint::MAX,
    ensures
        call matches Call::VcpuInterrupt { vcpus, vcpu_count } && vcpus@ == vcpu_ids@
            && vcpu_count == vcpu_ids@.len(),
{
    let mut vcpus: Vec<u32> = Vec::new();
    let mut i: usize = 0;
    while i < vcpu_ids.len()
        invariant
            i <= vcpu_ids@.len(),
            vcpus@ == vcpu_ids@.subrange(0, i as int),
        decreases vcpu_ids@.len() - i,
    {
        vcpus.push(vcpu_ids[i]);
        i += 1;
    }
    Call::VcpuInterrupt { vcpus, vcpu_count: vcpu_ids.len() as c_uint }
}

} // verus!
