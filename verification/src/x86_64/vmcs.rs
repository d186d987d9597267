//! Fields of the control structure of a virtual CPU.
//!
//! A field is named by a 32-bit identifier. The library gives names to the
//! fields that it reads itself and to those that a caller needs to set up
//! and follow a guest; any other identifier that the native layer takes can
//! be handed to the accessors as a number.

use vstd::prelude::*;

verus! {

/// Selector of the guest's `ES`.
pub const VMCS_GUEST_ES: u32 = 0x0800;

/// Selector of the guest's `CS`.
pub const VMCS_GUEST_CS: u32 = 0x0802;

/// Selector of the guest's `SS`.
pub const VMCS_GUEST_SS: u32 = 0x0804;

/// Selector of the guest's `DS`.
pub const VMCS_GUEST_DS: u32 = 0x0806;

/// Selector of the guest's `FS`.
pub const VMCS_GUEST_FS: u32 = 0x0808;

/// Selector of the guest's `GS`.
pub const VMCS_GUEST_GS: u32 = 0x080a;

/// Selector of the guest's local descriptor table.
pub const VMCS_GUEST_LDTR: u32 = 0x080c;

/// Selector of the guest's task register.
pub const VMCS_GUEST_TR: u32 = 0x080e;

/// The link pointer of the control structure.
pub const VMCS_GUEST_LINK_POINTER: u32 = 0x2800;

/// The guest's extended feature enable register.
pub const VMCS_GUEST_IA32_EFER: u32 = 0x2806;

/// Pin-based controls.
pub const VMCS_CTRL_PIN_BASED: u32 = 0x4000;

/// Primary processor-based controls.
pub const VMCS_CTRL_CPU_BASED: u32 = 0x4002;

/// The exceptions that leave the guest.
pub const VMCS_CTRL_EXC_BITMAP: u32 = 0x4004;

/// Controls of the exit from the guest.
pub const VMCS_CTRL_VMEXIT_CONTROLS: u32 = 0x400c;

/// Controls of the entry into the guest.
pub const VMCS_CTRL_VMENTRY_CONTROLS: u32 = 0x4012;

/// Secondary processor-based controls.
pub const VMCS_CTRL_CPU_BASED2: u32 = 0x401e;

/// Why the guest was left. The low 16 bits hold the reason.
pub const VMCS_RO_EXIT_REASON: u32 = 0x4402;

/// Length of the instruction that left the guest.
pub const VMCS_RO_VMEXIT_INSTR_LEN: u32 = 0x440c;

/// Limit of the guest's `ES`.
pub const VMCS_GUEST_ES_LIMIT: u32 = 0x4800;

/// Limit of the guest's `CS`.
pub const VMCS_GUEST_CS_LIMIT: u32 = 0x4802;

/// Limit of the guest's `SS`.
pub const VMCS_GUEST_SS_LIMIT: u32 = 0x4804;

/// Limit of the guest's `DS`.
pub const VMCS_GUEST_DS_LIMIT: u32 = 0x4806;

/// Limit of the guest's `FS`.
pub const VMCS_GUEST_FS_LIMIT: u32 = 0x4808;

/// Limit of the guest's `GS`.
pub const VMCS_GUEST_GS_LIMIT: u32 = 0x480a;

/// Limit of the guest's local descriptor table.
pub const VMCS_GUEST_LDTR_LIMIT: u32 = 0x480c;

/// Limit of the guest's task state segment.
pub const VMCS_GUEST_TR_LIMIT: u32 = 0x480e;

/// Limit of the guest's global descriptor table.
pub const VMCS_GUEST_GDTR_LIMIT: u32 = 0x4810;

/// Limit of the guest's interrupt descriptor table.
pub const VMCS_GUEST_IDTR_LIMIT: u32 = 0x4812;

/// Access rights of the guest's `ES`.
pub const VMCS_GUEST_ES_AR: u32 = 0x4814;

/// Access rights of the guest's `CS`.
pub const VMCS_GUEST_CS_AR: u32 = 0x4816;

/// Access rights of the guest's `SS`.
pub const VMCS_GUEST_SS_AR: u32 = 0x4818;

/// Access rights of the guest's `DS`.
pub const VMCS_GUEST_DS_AR: u32 = 0x481a;

/// Access rights of the guest's `FS`.
pub const VMCS_GUEST_FS_AR: u32 = 0x481c;

/// Access rights of the guest's `GS`.
pub const VMCS_GUEST_GS_AR: u32 = 0x481e;

/// Access rights of the guest's local descriptor table.
pub const VMCS_GUEST_LDTR_AR: u32 = 0x4820;

/// Access rights of the guest's task state segment.
pub const VMCS_GUEST_TR_AR: u32 = 0x4822;

/// The bits of `CR0` that the host owns.
pub const VMCS_CTRL_CR0_MASK: u32 = 0x6000;

/// The bits of `CR4` that the host owns.
pub const VMCS_CTRL_CR4_MASK: u32 = 0x6002;

/// What the guest reads in the bits of `CR0` that the host owns.
pub const VMCS_CTRL_CR0_SHADOW: u32 = 0x6004;

/// What the guest reads in the bits of `CR4` that the host owns.
pub const VMCS_CTRL_CR4_SHADOW: u32 = 0x6006;

/// Details of the exit, whose meaning depends on the reason.
pub const VMCS_RO_EXIT_QUALIFIC: u32 = 0x6400;

/// The guest's `CR0`.
pub const VMCS_GUEST_CR0: u32 = 0x6800;

/// The guest's `CR3`.
pub const VMCS_GUEST_CR3: u32 = 0x6802;

/// The guest's `CR4`.
pub const VMCS_GUEST_CR4: u32 = 0x6804;

/// Base of the guest's `ES`.
pub const VMCS_GUEST_ES_BASE: u32 = 0x6806;

/// Base of the guest's `CS`.
pub const VMCS_GUEST_CS_BASE: u32 = 0x6808;

/// Base of the guest's `SS`.
pub const VMCS_GUEST_SS_BASE: u32 = 0x680a;

/// Base of the guest's `DS`.
pub const VMCS_GUEST_DS_BASE: u32 = 0x680c;

/// Base of the guest's `FS`.
pub const VMCS_GUEST_FS_BASE: u32 = 0x680e;

/// Base of the guest's `GS`.
pub const VMCS_GUEST_GS_BASE: u32 = 0x6810;

/// Base of the guest's local descriptor table.
pub const VMCS_GUEST_LDTR_BASE: u32 = 0x6812;

/// Base of the guest's task state segment.
pub const VMCS_GUEST_TR_BASE: u32 = 0x6814;

/// Base of the guest's global descriptor table.
pub const VMCS_GUEST_GDTR_BASE: u32 = 0x6816;

/// Base of the guest's interrupt descriptor table.
pub const VMCS_GUEST_IDTR_BASE: u32 = 0x6818;

} // verus!
