//! Protection of guest physical memory.

use vstd::prelude::*;

verus! {

/// Protection flags as the native layer takes them.
#[allow(non_camel_case_types)]
pub type hv_memory_flags_t = u64;

/// The guest may read the region.
pub const HV_MEMORY_READ: hv_memory_flags_t = 0x1;

/// The guest may write the region.
pub const HV_MEMORY_WRITE: hv_memory_flags_t = 0x2;

/// The guest may fetch instructions from the region.
pub const HV_MEMORY_EXEC: hv_memory_flags_t = 0x4;

/// Guest physical memory region permissions.
///
/// A variant names what the caller asks for. `Write`, `Exec` and `ExecWrite`
/// ask for no read access; at least one backend cannot grant that, so the
/// encoding grants read access with them (see [`match_MemPerm`]). Nothing is
/// known of a host that would honour execution without read access.
#[derive(Clone, Copy, Debug, PartialEq, Eq, Structural)]
pub enum MemPerm {
    /// No access
    NoAccess,
    /// Read
    Read,
    /// Write
    Write,
    /// Read and write access
    ReadWrite,
    /// Execute
    Exec,
    /// Execute and write
    ExecWrite,
    /// Execute and read
    ExecRead,
    /// Execute, read and write
    ExecReadWrite,
}

impl MemPerm {
    /// Read access is asked for by name.
    pub open spec fn asks_read(self) -> bool {
        self is Read || self is ReadWrite || self is ExecRead || self is ExecReadWrite
    }

    /// Write access is asked for.
    pub open spec fn asks_write(self) -> bool {
        self is Write || self is ReadWrite || self is ExecWrite || self is ExecReadWrite
    }

    /// Execution is asked for.
    pub open spec fn asks_exec(self) -> bool {
        self is Exec || self is ExecWrite || self is ExecRead || self is ExecReadWrite
    }

    /// Read access is granted: it was asked for, or it comes with write
    /// access or execution.
    pub open spec fn grants_read(self) -> bool {
        self.asks_read() || self.asks_write() || self.asks_exec()
    }

    /// The flags that stand for the permission: one bit for each access
    /// granted, and no other.
    pub open spec fn flags(self) -> hv_memory_flags_t {
        let read: hv_memory_flags_t = if self.grants_read() { HV_MEMORY_READ } else { 0 };
        let write: hv_memory_flags_t = if self.asks_write() { HV_MEMORY_WRITE } else { 0 };
        let exec: hv_memory_flags_t = if self.asks_exec() { HV_MEMORY_EXEC } else { 0 };
        (read + write + exec) as hv_memory_flags_t
    }
}

/// `flags` has every bit of `bit` set.
pub open spec fn has_flag(flags: hv_memory_flags_t, bit: hv_memory_flags_t) -> bool {
    flags & bit == bit
}

/// Encodes a permission as native protection flags. Write access and
/// execution carry read access with them, so that both backends treat a
/// region alike.
#[allow(non_snake_case)]
pub fn match_MemPerm(mem_perm: MemPerm) -> (flags: hv_memory_flags_t)
    ensures
        flags == mem_perm.flags(),
        has_flag(flags, HV_MEMORY_READ) <==> mem_perm.grants_read(),
        has_flag(flags, HV_MEMORY_WRITE) <==> mem_perm.asks_write(),
        has_flag(flags, HV_MEMORY_EXEC) <==> mem_perm.asks_exec(),
        mem_perm.asks_write() || mem_perm.asks_exec() ==> has_flag(flags, HV_MEMORY_READ),
{
    proof {
        lemma_flag_bits();
    }
    match mem_perm {
        MemPerm::NoAccess => 0,
        MemPerm::Read => HV_MEMORY_READ,
        MemPerm::Write => HV_MEMORY_WRITE | HV_MEMORY_READ,
        MemPerm::ReadWrite => HV_MEMORY_WRITE | HV_MEMORY_READ,
        MemPerm::Exec => HV_MEMORY_EXEC | HV_MEMORY_READ,
        MemPerm::ExecWrite => HV_MEMORY_EXEC | HV_MEMORY_WRITE | HV_MEMORY_READ,
        MemPerm::ExecRead => HV_MEMORY_EXEC | HV_MEMORY_READ,
        MemPerm::ExecReadWrite => HV_MEMORY_EXEC | HV_MEMORY_READ | HV_MEMORY_WRITE,
    }
}

/// Read access comes with write access and with execution, whatever the
/// permission; write access and execution come only where they are asked
/// for; and the flags hold no bit but the three.
pub proof fn lemma_read_is_implied(mem_perm: MemPerm)
    ensures
        mem_perm.asks_write() || mem_perm.asks_exec() ==> has_flag(
            mem_perm.flags(),
            HV_MEMORY_READ,
        ),
        has_flag(mem_perm.flags(), HV_MEMORY_READ) <==> mem_perm.grants_read(),
        has_flag(mem_perm.flags(), HV_MEMORY_WRITE) <==> mem_perm.asks_write(),
        has_flag(mem_perm.flags(), HV_MEMORY_EXEC) <==> mem_perm.asks_exec(),
        mem_perm.flags() <= (HV_MEMORY_READ + HV_MEMORY_WRITE + HV_MEMORY_EXEC),
{
    lemma_flag_bits();
}

/// The unions of the three flags, and which flags each of the eight values
/// holds.
proof fn lemma_flag_bits()
    ensures
        0x2u64 | 0x1u64 == 0x3u64,
        0x4u64 | 0x1u64 == 0x5u64,
        0x4u64 | 0x2u64 | 0x1u64 == 0x7u64,
        0x4u64 | 0x1u64 | 0x2u64 == 0x7u64,
        forall|f: u64| f <= 7 ==> (#[trigger] has_flag(f, 0x1) <==> f == 1 || f == 3 || f == 5 || f == 7),
        forall|f: u64| f <= 7 ==> (#[trigger] has_flag(f, 0x2) <==> f == 2 || f == 3 || f == 6 || f == 7),
        forall|f: u64| f <= 7 ==> (#[trigger] has_flag(f, 0x4) <==> f >= 4),
{
    assert(0x2u64 | 0x1u64 == 0x3u64) by (bit_vector);
    assert(0x4u64 | 0x1u64 == 0x5u64) by (bit_vector);
    assert(0x4u64 | 0x2u64 | 0x1u64 == 0x7u64) by (bit_vector);
    assert(0x4u64 | 0x1u64 | 0x2u64 == 0x7u64) by (bit_vector);
    assert(forall|f: u64| f <= 7 ==> (#[trigger] (f & 0x1) == 0x1 <==> f == 1 || f == 3 || f == 5 || f == 7)) by (bit_vector);
    assert(forall|f: u64| f <= 7 ==> (#[trigger] (f & 0x2) == 0x2 <==> f == 2 || f == 3 || f == 6 || f == 7)) by (bit_vector);
    assert(forall|f: u64| f <= 7 ==> (#[trigger] (f & 0x4) == 0x4 <==> f >= 4)) by (bit_vector);
}

} // verus!
