//! The state of a virtual CPU, written out for a reader.

use vstd::prelude::*;
use vstd::string::*;

use crate::text::{decimal, decimal_digits, hex, hex_text};
use crate::x86_64::registers::Register;
use crate::x86_64::vmcs::{
    VMCS_CTRL_CPU_BASED,
    VMCS_CTRL_CPU_BASED2,
    VMCS_CTRL_CR0_MASK,
    VMCS_CTRL_CR0_SHADOW,
    VMCS_CTRL_CR4_MASK,
    VMCS_CTRL_CR4_SHADOW,
    VMCS_CTRL_PIN_BASED,
    VMCS_CTRL_VMENTRY_CONTROLS,
    VMCS_CTRL_VMEXIT_CONTROLS,
    VMCS_GUEST_CS_AR,
    VMCS_GUEST_CS_BASE,
    VMCS_GUEST_CS_LIMIT,
    VMCS_GUEST_DS_AR,
    VMCS_GUEST_DS_BASE,
    VMCS_GUEST_DS_LIMIT,
    VMCS_GUEST_ES_AR,
    VMCS_GUEST_ES_BASE,
    VMCS_GUEST_ES_LIMIT,
    VMCS_GUEST_FS_AR,
    VMCS_GUEST_FS_BASE,
    VMCS_GUEST_FS_LIMIT,
    VMCS_GUEST_GDTR_BASE,
    VMCS_GUEST_GDTR_LIMIT,
    VMCS_GUEST_GS_AR,
    VMCS_GUEST_GS_BASE,
    VMCS_GUEST_GS_LIMIT,
    VMCS_GUEST_IA32_EFER,
    VMCS_GUEST_IDTR_BASE,
    VMCS_GUEST_IDTR_LIMIT,
    VMCS_GUEST_LDTR_AR,
    VMCS_GUEST_LDTR_BASE,
    VMCS_GUEST_LDTR_LIMIT,
    VMCS_GUEST_LINK_POINTER,
    VMCS_GUEST_SS_AR,
    VMCS_GUEST_SS_BASE,
    VMCS_GUEST_SS_LIMIT,
    VMCS_GUEST_TR_AR,
    VMCS_GUEST_TR_BASE,
    VMCS_GUEST_TR_LIMIT,
};

verus! {

/// The fields of the control structure that govern a guest.
#[derive(Clone, Copy, Debug, PartialEq, Eq, Structural)]
pub struct Controls {
    /// The bits of `CR0` that the host owns.
    pub cr0_mask: u64,
    /// What the guest reads in those bits.
    pub cr0_shadow: u64,
    /// The bits of `CR4` that the host owns.
    pub cr4_mask: u64,
    /// What the guest reads in those bits.
    pub cr4_shadow: u64,
    /// Pin-based controls.
    pub pin_based: u64,
    /// Primary processor-based controls.
    pub cpu_based: u64,
    /// Secondary processor-based controls.
    pub cpu_based2: u64,
    /// Controls of the entry into the guest.
    pub entry: u64,
    /// Controls of the exit from the guest.
    pub exit: u64,
}

/// The instruction pointer, the flags and the general-purpose registers.
#[derive(Clone, Copy, Debug, PartialEq, Eq, Structural)]
pub struct GeneralRegisters {
    pub rip: u64,
    pub rflags: u64,
    pub rsp: u64,
    pub rbp: u64,
    pub rax: u64,
    pub rbx: u64,
    pub rcx: u64,
    pub rdx: u64,
    pub rsi: u64,
    pub rdi: u64,
    pub r8: u64,
    pub r9: u64,
    pub r10: u64,
    pub r11: u64,
    pub r12: u64,
    pub r13: u64,
    pub r14: u64,
    pub r15: u64,
}

/// The control registers, and the extended feature enable register.
#[derive(Clone, Copy, Debug, PartialEq, Eq, Structural)]
pub struct ControlRegisters {
    pub cr0: u64,
    pub cr2: u64,
    pub cr3: u64,
    pub cr4: u64,
    pub efer: u64,
}

/// A segment register with the hidden part that the processor keeps of it.
#[derive(Clone, Copy, Debug, PartialEq, Eq, Structural)]
pub struct Segment {
    pub selector: u64,
    pub base: u64,
    pub limit: u64,
    /// The access rights, packed into one word (see [`AccessRights`]).
    pub access_rights: u64,
}

/// The access rights of a segment, field by field.
#[derive(Clone, Copy, Debug, PartialEq, Eq, Structural)]
pub struct AccessRights {
    /// Bits 0 to 3: the type of the segment.
    pub kind: u64,
    /// Bit 4: the descriptor is of code or data, not of the system.
    pub s: u64,
    /// Bits 5 and 6: the privilege level of the descriptor.
    pub dpl: u64,
    /// Bit 7: the segment is present.
    pub p: u64,
    /// Bit 12: free for system software.
    pub avl: u64,
    /// Bit 13: 64-bit mode is active, which means something for `CS` only.
    pub l: u64,
    /// Bit 14: operations are 32 bits wide by default, not 16.
    pub db: u64,
    /// Bit 15: the limit counts pages, not bytes.
    pub g: u64,
}

impl AccessRights {
    /// The fields of the access rights word `ar`.
    pub open spec fn of_word(ar: u64) -> AccessRights {
        AccessRights {
            kind: ar & 0xf,
            s: (ar >> 4) & 0x1,
            dpl: (ar >> 5) & 0x3,
            p: (ar >> 7) & 0x1,
            avl: (ar >> 12) & 1,
            l: (ar >> 13) & 0x1,
            db: (ar >> 14) & 0x1,
            g: (ar >> 15) & 0x1,
        }
    }

    /// Takes the access rights word `ar` apart. Each field is the number
    /// that its bits hold, taken for themselves.
    pub fn decode(ar: u64) -> (rights: AccessRights)
        ensures
            rights == AccessRights::of_word(ar),
            rights.kind == ar as nat % 16,
            rights.s == (ar as nat / 16) % 2,
            rights.dpl == (ar as nat / 32) % 4,
            rights.p == (ar as nat / 128) % 2,
            rights.avl == (ar as nat / 0x1000) % 2,
            rights.l == (ar as nat / 0x2000) % 2,
            rights.db == (ar as nat / 0x4000) % 2,
            rights.g == (ar as nat / 0x8000) % 2,
    {
        assert(ar & 0xf == ar % 16 && (ar >> 4) & 0x1 == (ar / 16) % 2 && (ar >> 5) & 0x3 == (ar
            / 32) % 4 && (ar >> 7) & 0x1 == (ar / 128) % 2 && (ar >> 12) & 1 == (ar / 0x1000) % 2
            && (ar >> 13) & 0x1 == (ar / 0x2000) % 2 && (ar >> 14) & 0x1 == (ar / 0x4000) % 2 && (
        ar >> 15) & 0x1 == (ar / 0x8000) % 2) by (bit_vector);
        AccessRights {
            kind: ar & 0xf,
            s: (ar >> 4) & 0x1,
            dpl: (ar >> 5) & 0x3,
            p: (ar >> 7) & 0x1,
            avl: (ar >> 12) & 1,
            l: (ar >> 13) & 0x1,
            db: (ar >> 14) & 0x1,
            g: (ar >> 15) & 0x1,
        }
    }
}

/// The segment registers, the task register and the register of the local
/// descriptor table.
#[derive(Clone, Copy, Debug, PartialEq, Eq, Structural)]
pub struct SegmentRegisters {
    pub cs: Segment,
    pub ss: Segment,
    pub ds: Segment,
    pub es: Segment,
    pub fs: Segment,
    pub gs: Segment,
    pub tr: Segment,
    pub ldtr: Segment,
}

/// Where the global and the interrupt descriptor table lie.
#[derive(Clone, Copy, Debug, PartialEq, Eq, Structural)]
pub struct DescriptorTables {
    pub gdt_base: u64,
    pub gdt_limit: u64,
    pub idt_base: u64,
    pub idt_limit: u64,
}

/// What is read of a virtual CPU to describe its state.
#[derive(Clone, Copy, Debug, PartialEq, Eq, Structural)]
pub struct CpuState {
    /// The number that the caller gave the virtual CPU.
    pub id: u32,
    pub controls: Controls,
    pub registers: GeneralRegisters,
    pub control_registers: ControlRegisters,
    pub segments: SegmentRegisters,
    pub tables: DescriptorTables,
    /// The link pointer of the control structure.
    pub link_pointer: u64,
}

/// The line that opens the description.
pub open spec fn heading_text(id: u32) -> Seq<char> {
    "\nDump state of CPU "@
        + decimal_digits(id as nat)
}

/// Writes the line that opens the description.
fn heading(id: u32) -> (text: String)
    ensures
        text@ == heading_text(id),
{
    let mut text = String::from_str("\nDump state of CPU ");
    text.append(decimal(id as u64).as_str());
    text
}

/// The controls, under their heading.
pub open spec fn controls_text(c: Controls) -> Seq<char> {
    "VMCS:"@
        + "-----"@
        + "CR0: mask "@
        + hex_text(c.cr0_mask as nat, 16)
        + "  shadow "@
        + hex_text(c.cr0_shadow as nat, 16)
        + "CR4: mask "@
        + hex_text(c.cr4_mask as nat, 16)
        + "  shadow "@
        + hex_text(c.cr4_shadow as nat, 16)
        + "Pinbased: "@
        + hex_text(c.pin_based as nat, 16)
        + "\n1st:      "@
        + hex_text(c.cpu_based as nat, 16)
        + "\n2nd:      "@
        + hex_text(c.cpu_based2 as nat, 16)
        + "Entry:    "@
        + hex_text(c.entry as nat, 16)
        + "\nExit:     "@
        + hex_text(c.exit as nat, 16)
}

/// Writes the controls.
fn controls(c: &Controls) -> (text: String)
    ensures
        text@ == controls_text(*c),
{
    let mut text = String::from_str("VMCS:");
    text.append("-----");
    text.append("CR0: mask ");
    text.append(hex(c.cr0_mask, 16).as_str());
    text.append("  shadow ");
    text.append(hex(c.cr0_shadow, 16).as_str());
    text.append("CR4: mask ");
    text.append(hex(c.cr4_mask, 16).as_str());
    text.append("  shadow ");
    text.append(hex(c.cr4_shadow, 16).as_str());
    text.append("Pinbased: ");
    text.append(hex(c.pin_based, 16).as_str());
    text.append("\n1st:      ");
    text.append(hex(c.cpu_based, 16).as_str());
    text.append("\n2nd:      ");
    text.append(hex(c.cpu_based2, 16).as_str());
    text.append("Entry:    ");
    text.append(hex(c.entry, 16).as_str());
    text.append("\nExit:     ");
    text.append(hex(c.exit, 16).as_str());
    text
}

/// The instruction pointer, the flags and the general-purpose registers, under
/// their heading.
pub open spec fn registers_text(r: GeneralRegisters) -> Seq<char> {
    "\nRegisters:"@
        + "----------"@
        + "rip: "@
        + hex_text(r.rip as nat, 16)
        + "   rsp: "@
        + hex_text(r.rsp as nat, 16)
        + " flags: "@
        + hex_text(r.rflags as nat, 16)
        + "\nrax: "@
        + hex_text(r.rax as nat, 16)
        + "   rbx: "@
        + hex_text(r.rbx as nat, 16)
        + "   rcx: "@
        + hex_text(r.rcx as nat, 16)
        + "\nrdx: "@
        + hex_text(r.rdx as nat, 16)
        + "   rsi: "@
        + hex_text(r.rsi as nat, 16)
        + "   rdi: "@
        + hex_text(r.rdi as nat, 16)
        + "\nrbp: "@
        + hex_text(r.rbp as nat, 16)
        + "    r8: "@
        + hex_text(r.r8 as nat, 16)
        + "    r9: "@
        + hex_text(r.r9 as nat, 16)
        + "\nr10: "@
        + hex_text(r.r10 as nat, 16)
        + "   r11: "@
        + hex_text(r.r11 as nat, 16)
        + "   r12: "@
        + hex_text(r.r12 as nat, 16)
        + "\nr13: "@
        + hex_text(r.r13 as nat, 16)
        + "   r14: "@
        + hex_text(r.r14 as nat, 16)
        + "   r15: "@
        + hex_text(r.r15 as nat, 16)
        + "\n"@
}

/// Writes the general-purpose registers.
fn registers(r: &GeneralRegisters) -> (text: String)
    ensures
        text@ == registers_text(*r),
{
    let mut text = String::from_str("\nRegisters:");
    text.append("----------");
    text.append("rip: ");
    text.append(hex(r.rip, 16).as_str());
    text.append("   rsp: ");
    text.append(hex(r.rsp, 16).as_str());
    text.append(" flags: ");
    text.append(hex(r.rflags, 16).as_str());
    text.append("\nrax: ");
    text.append(hex(r.rax, 16).as_str());
    text.append("   rbx: ");
    text.append(hex(r.rbx, 16).as_str());
    text.append("   rcx: ");
    text.append(hex(r.rcx, 16).as_str());
    text.append("\nrdx: ");
    text.append(hex(r.rdx, 16).as_str());
    text.append("   rsi: ");
    text.append(hex(r.rsi, 16).as_str());
    text.append("   rdi: ");
    text.append(hex(r.rdi, 16).as_str());
    text.append("\nrbp: ");
    text.append(hex(r.rbp, 16).as_str());
    text.append("    r8: ");
    text.append(hex(r.r8, 16).as_str());
    text.append("    r9: ");
    text.append(hex(r.r9, 16).as_str());
    text.append("\nr10: ");
    text.append(hex(r.r10, 16).as_str());
    text.append("   r11: ");
    text.append(hex(r.r11, 16).as_str());
    text.append("   r12: ");
    text.append(hex(r.r12, 16).as_str());
    text.append("\nr13: ");
    text.append(hex(r.r13, 16).as_str());
    text.append("   r14: ");
    text.append(hex(r.r14, 16).as_str());
    text.append("   r15: ");
    text.append(hex(r.r15, 16).as_str());
    text.append("\n");
    text
}

/// The control registers.
pub open spec fn control_registers_text(c: ControlRegisters) -> Seq<char> {
    "cr0: "@
        + hex_text(c.cr0 as nat, 16)
        + "   cr2: "@
        + hex_text(c.cr2 as nat, 16)
        + "   cr3: "@
        + hex_text(c.cr3 as nat, 16)
        + "\ncr4: "@
        + hex_text(c.cr4 as nat, 16)
        + "  efer: "@
        + hex_text(c.efer as nat, 16)
}

/// Writes the control registers.
fn control_registers(c: &ControlRegisters) -> (text: String)
    ensures
        text@ == control_registers_text(*c),
{
    let mut text = String::from_str("cr0: ");
    text.append(hex(c.cr0, 16).as_str());
    text.append("   cr2: ");
    text.append(hex(c.cr2, 16).as_str());
    text.append("   cr3: ");
    text.append(hex(c.cr3, 16).as_str());
    text.append("\ncr4: ");
    text.append(hex(c.cr4, 16).as_str());
    text.append("  efer: ");
    text.append(hex(c.efer, 16).as_str());
    text
}

/// One row of the table of segments: the name, then the selector, the base,
/// the limit and the fields of the access rights in the order of the
/// table's heading.
pub open spec fn segment_row_text(name: Seq<char>, seg: Segment) -> Seq<char> {
    name
        + hex_text(seg.selector as nat, 4)
        + "      "@
        + hex_text(seg.base as nat, 16)
        + "  "@
        + hex_text(seg.limit as nat, 8)
        + "  "@
        + hex_text(AccessRights::of_word(seg.access_rights).kind as nat, 2)
        + "    "@
        + hex_text(AccessRights::of_word(seg.access_rights).p as nat, 0)
        + " "@
        + hex_text(AccessRights::of_word(seg.access_rights).dpl as nat, 0)
        + "   "@
        + hex_text(AccessRights::of_word(seg.access_rights).db as nat, 0)
        + "  "@
        + hex_text(AccessRights::of_word(seg.access_rights).s as nat, 0)
        + " "@
        + hex_text(AccessRights::of_word(seg.access_rights).l as nat, 0)
        + " "@
        + hex_text(AccessRights::of_word(seg.access_rights).g as nat, 0)
        + " "@
        + hex_text(AccessRights::of_word(seg.access_rights).avl as nat, 0)
}

/// Writes one row of the table of segments.
fn segment_row(name: &str, seg: &Segment) -> (text: String)
    ensures
        text@ == segment_row_text(name@, *seg),
{
    let rights = AccessRights::decode(seg.access_rights);
    let mut text = String::from_str(name);
    text.append(hex(seg.selector, 4).as_str());
    text.append("      ");
    text.append(hex(seg.base, 16).as_str());
    text.append("  ");
    text.append(hex(seg.limit, 8).as_str());
    text.append("  ");
    text.append(hex(rights.kind, 2).as_str());
    text.append("    ");
    text.append(hex(rights.p, 0).as_str());
    text.append(" ");
    text.append(hex(rights.dpl, 0).as_str());
    text.append("   ");
    text.append(hex(rights.db, 0).as_str());
    text.append("  ");
    text.append(hex(rights.s, 0).as_str());
    text.append(" ");
    text.append(hex(rights.l, 0).as_str());
    text.append(" ");
    text.append(hex(rights.g, 0).as_str());
    text.append(" ");
    text.append(hex(rights.avl, 0).as_str());
    text
}

/// The table of segments, under its heading.
pub open spec fn segments_text(s: SegmentRegisters) -> Seq<char> {
    "\nSegment registers:"@
        + "------------------"@
        + "register  selector  base              limit     type  p dpl db s l g avl"@
        + segment_row_text("cs        "@, s.cs)
        + segment_row_text("ss        "@, s.ss)
        + segment_row_text("ds        "@, s.ds)
        + segment_row_text("es        "@, s.es)
        + segment_row_text("fs        "@, s.fs)
        + segment_row_text("gs        "@, s.gs)
        + segment_row_text("tr        "@, s.tr)
        + segment_row_text("ldt       "@, s.ldtr)
}

/// Writes the table of segments.
fn segments(s: &SegmentRegisters) -> (text: String)
    ensures
        text@ == segments_text(*s),
{
    let mut text = String::from_str("\nSegment registers:");
    text.append("------------------");
    text.append("register  selector  base              limit     type  p dpl db s l g avl");
    text.append(segment_row("cs        ", &s.cs).as_str());
    text.append(segment_row("ss        ", &s.ss).as_str());
    text.append(segment_row("ds        ", &s.ds).as_str());
    text.append(segment_row("es        ", &s.es).as_str());
    text.append(segment_row("fs        ", &s.fs).as_str());
    text.append(segment_row("gs        ", &s.gs).as_str());
    text.append(segment_row("tr        ", &s.tr).as_str());
    text.append(segment_row("ldt       ", &s.ldtr).as_str());
    text
}

/// The descriptor tables, in the columns of the table of segments.
pub open spec fn tables_text(t: DescriptorTables) -> Seq<char> {
    "gdt                 "@
        + hex_text(t.gdt_base as nat, 16)
        + "  "@
        + hex_text(t.gdt_limit as nat, 8)
        + "idt                 "@
        + hex_text(t.idt_base as nat, 16)
        + "  "@
        + hex_text(t.idt_limit as nat, 8)
}

/// Writes the descriptor tables.
fn tables(t: &DescriptorTables) -> (text: String)
    ensures
        text@ == tables_text(*t),
{
    let mut text = String::from_str("gdt                 ");
    text.append(hex(t.gdt_base, 16).as_str());
    text.append("  ");
    text.append(hex(t.gdt_limit, 8).as_str());
    text.append("idt                 ");
    text.append(hex(t.idt_base, 16).as_str());
    text.append("  ");
    text.append(hex(t.idt_limit, 8).as_str());
    text
}

/// The line that closes the description.
pub open spec fn link_pointer_text(value: u64) -> Seq<char> {
    "VMCS link pointer   "@
        + hex_text(value as nat, 16)
}

/// Writes the line that closes the description.
fn link_pointer(value: u64) -> (text: String)
    ensures
        text@ == link_pointer_text(value),
{
    let mut text = String::from_str("VMCS link pointer   ");
    text.append(hex(value, 16).as_str());
    text
}

/// Where a number of the description is read.
#[derive(Clone, Copy, Debug, PartialEq, Eq, Structural)]
pub enum Source {
    /// In a field of the control structure.
    Vmcs { field: u32 },
    /// In an architectural register.
    Register { reg: Register },
}

/// The numbers that a virtual CPU holds, as far as a description needs
/// them: what a read of each field of the control structure and of each
/// register would give.
pub struct Machine {
    pub vmcs: spec_fn(u32) -> u64,
    pub register: spec_fn(Register) -> u64,
}

impl Machine {
    /// The number that field `field` of the control structure holds.
    pub open spec fn vmcs(self, field: u32) -> u64 {
        (self.vmcs)(field)
    }

    /// The number that the register `reg` holds.
    pub open spec fn register(self, reg: Register) -> u64 {
        (self.register)(reg)
    }

    /// The number that is read at `source`.
    pub open spec fn at(self, source: Source) -> u64 {
        match source {
            Source::Vmcs { field } => self.vmcs(field),
            Source::Register { reg } => self.register(reg),
        }
    }
}

/// How many numbers a description is made of.
pub const SOURCES: usize = 69;

impl CpuState {
    /// The places where the numbers of a description are read, in the order
    /// in which [`CpuState::from_values`] takes the numbers.
    pub open spec fn sources() -> Seq<Source> {
        seq![
            Source::Vmcs { field: VMCS_CTRL_CR0_MASK },
            Source::Vmcs { field: VMCS_CTRL_CR0_SHADOW },
            Source::Vmcs { field: VMCS_CTRL_CR4_MASK },
            Source::Vmcs { field: VMCS_CTRL_CR4_SHADOW },
            Source::Vmcs { field: VMCS_CTRL_PIN_BASED },
            Source::Vmcs { field: VMCS_CTRL_CPU_BASED },
            Source::Vmcs { field: VMCS_CTRL_CPU_BASED2 },
            Source::Vmcs { field: VMCS_CTRL_VMENTRY_CONTROLS },
            Source::Vmcs { field: VMCS_CTRL_VMEXIT_CONTROLS },
            Source::Register { reg: Register::RIP },
            Source::Register { reg: Register::RFLAGS },
            Source::Register { reg: Register::RSP },
            Source::Register { reg: Register::RBP },
            Source::Register { reg: Register::RAX },
            Source::Register { reg: Register::RBX },
            Source::Register { reg: Register::RCX },
            Source::Register { reg: Register::RDX },
            Source::Register { reg: Register::RSI },
            Source::Register { reg: Register::RDI },
            Source::Register { reg: Register::R8 },
            Source::Register { reg: Register::R9 },
            Source::Register { reg: Register::R10 },
            Source::Register { reg: Register::R11 },
            Source::Register { reg: Register::R12 },
            Source::Register { reg: Register::R13 },
            Source::Register { reg: Register::R14 },
            Source::Register { reg: Register::R15 },
            Source::Register { reg: Register::CR0 },
            Source::Register { reg: Register::CR2 },
            Source::Register { reg: Register::CR3 },
            Source::Register { reg: Register::CR4 },
            Source::Vmcs { field: VMCS_GUEST_IA32_EFER },
            Source::Register { reg: Register::CS },
            Source::Register { reg: Register::DS },
            Source::Register { reg: Register::ES },
            Source::Register { reg: Register::SS },
            Source::Register { reg: Register::FS },
            Source::Register { reg: Register::GS },
            Source::Register { reg: Register::TR },
            Source::Register { reg: Register::LDTR },
            Source::Vmcs { field: VMCS_GUEST_CS_LIMIT },
            Source::Vmcs { field: VMCS_GUEST_CS_BASE },
            Source::Vmcs { field: VMCS_GUEST_CS_AR },
            Source::Vmcs { field: VMCS_GUEST_SS_LIMIT },
            Source::Vmcs { field: VMCS_GUEST_SS_BASE },
            Source::Vmcs { field: VMCS_GUEST_SS_AR },
            Source::Vmcs { field: VMCS_GUEST_DS_LIMIT },
            Source::Vmcs { field: VMCS_GUEST_DS_BASE },
            Source::Vmcs { field: VMCS_GUEST_DS_AR },
            Source::Vmcs { field: VMCS_GUEST_ES_LIMIT },
            Source::Vmcs { field: VMCS_GUEST_ES_BASE },
            Source::Vmcs { field: VMCS_GUEST_ES_AR },
            Source::Vmcs { field: VMCS_GUEST_FS_LIMIT },
            Source::Vmcs { field: VMCS_GUEST_FS_BASE },
            Source::Vmcs { field: VMCS_GUEST_FS_AR },
            Source::Vmcs { field: VMCS_GUEST_GS_LIMIT },
            Source::Vmcs { field: VMCS_GUEST_GS_BASE },
            Source::Vmcs { field: VMCS_GUEST_GS_AR },
            Source::Vmcs { field: VMCS_GUEST_TR_LIMIT },
            Source::Vmcs { field: VMCS_GUEST_TR_BASE },
            Source::Vmcs { field: VMCS_GUEST_TR_AR },
            Source::Vmcs { field: VMCS_GUEST_LDTR_LIMIT },
            Source::Vmcs { field: VMCS_GUEST_LDTR_BASE },
            Source::Vmcs { field: VMCS_GUEST_LDTR_AR },
            Source::Vmcs { field: VMCS_GUEST_GDTR_BASE },
            Source::Vmcs { field: VMCS_GUEST_GDTR_LIMIT },
            Source::Vmcs { field: VMCS_GUEST_IDTR_BASE },
            Source::Vmcs { field: VMCS_GUEST_IDTR_LIMIT },
            Source::Vmcs { field: VMCS_GUEST_LINK_POINTER },
        ]
    }

    /// The state of the virtual CPU numbered `id` that holds the numbers of
    /// `machine`: where each number of the description comes from.
    pub open spec fn of_machine(id: u32, machine: Machine) -> CpuState {
        CpuState {
            id,
            controls: Controls {
                cr0_mask: machine.vmcs(VMCS_CTRL_CR0_MASK),
                cr0_shadow: machine.vmcs(VMCS_CTRL_CR0_SHADOW),
                cr4_mask: machine.vmcs(VMCS_CTRL_CR4_MASK),
                cr4_shadow: machine.vmcs(VMCS_CTRL_CR4_SHADOW),
                pin_based: machine.vmcs(VMCS_CTRL_PIN_BASED),
                cpu_based: machine.vmcs(VMCS_CTRL_CPU_BASED),
                cpu_based2: machine.vmcs(VMCS_CTRL_CPU_BASED2),
                entry: machine.vmcs(VMCS_CTRL_VMENTRY_CONTROLS),
                exit: machine.vmcs(VMCS_CTRL_VMEXIT_CONTROLS),
            },
            registers: GeneralRegisters {
                rip: machine.register(Register::RIP),
                rflags: machine.register(Register::RFLAGS),
                rsp: machine.register(Register::RSP),
                rbp: machine.register(Register::RBP),
                rax: machine.register(Register::RAX),
                rbx: machine.register(Register::RBX),
                rcx: machine.register(Register::RCX),
                rdx: machine.register(Register::RDX),
                rsi: machine.register(Register::RSI),
                rdi: machine.register(Register::RDI),
                r8: machine.register(Register::R8),
                r9: machine.register(Register::R9),
                r10: machine.register(Register::R10),
                r11: machine.register(Register::R11),
                r12: machine.register(Register::R12),
                r13: machine.register(Register::R13),
                r14: machine.register(Register::R14),
                r15: machine.register(Register::R15),
            },
            control_registers: ControlRegisters {
                cr0: machine.register(Register::CR0),
                cr2: machine.register(Register::CR2),
                cr3: machine.register(Register::CR3),
                cr4: machine.register(Register::CR4),
                efer: machine.vmcs(VMCS_GUEST_IA32_EFER),
            },
            segments: SegmentRegisters {
                cs: Segment {
                    selector: machine.register(Register::CS),
                    base: machine.vmcs(VMCS_GUEST_CS_BASE),
                    limit: machine.vmcs(VMCS_GUEST_CS_LIMIT),
                    access_rights: machine.vmcs(VMCS_GUEST_CS_AR),
                },
                ss: Segment {
                    selector: machine.register(Register::SS),
                    base: machine.vmcs(VMCS_GUEST_SS_BASE),
                    limit: machine.vmcs(VMCS_GUEST_SS_LIMIT),
                    access_rights: machine.vmcs(VMCS_GUEST_SS_AR),
                },
                ds: Segment {
                    selector: machine.register(Register::DS),
                    base: machine.vmcs(VMCS_GUEST_DS_BASE),
                    limit: machine.vmcs(VMCS_GUEST_DS_LIMIT),
                    access_rights: machine.vmcs(VMCS_GUEST_DS_AR),
                },
                es: Segment {
                    selector: machine.register(Register::ES),
                    base: machine.vmcs(VMCS_GUEST_ES_BASE),
                    limit: machine.vmcs(VMCS_GUEST_ES_LIMIT),
                    access_rights: machine.vmcs(VMCS_GUEST_ES_AR),
                },
                fs: Segment {
                    selector: machine.register(Register::FS),
                    base: machine.vmcs(VMCS_GUEST_FS_BASE),
                    limit: machine.vmcs(VMCS_GUEST_FS_LIMIT),
                    access_rights: machine.vmcs(VMCS_GUEST_FS_AR),
                },
                gs: Segment {
                    selector: machine.register(Register::GS),
                    base: machine.vmcs(VMCS_GUEST_GS_BASE),
                    limit: machine.vmcs(VMCS_GUEST_GS_LIMIT),
                    access_rights: machine.vmcs(VMCS_GUEST_GS_AR),
                },
                tr: Segment {
                    selector: machine.register(Register::TR),
                    base: machine.vmcs(VMCS_GUEST_TR_BASE),
                    limit: machine.vmcs(VMCS_GUEST_TR_LIMIT),
                    access_rights: machine.vmcs(VMCS_GUEST_TR_AR),
                },
                ldtr: Segment {
                    selector: machine.register(Register::LDTR),
                    base: machine.vmcs(VMCS_GUEST_LDTR_BASE),
                    limit: machine.vmcs(VMCS_GUEST_LDTR_LIMIT),
                    access_rights: machine.vmcs(VMCS_GUEST_LDTR_AR),
                },
            },
            tables: DescriptorTables {
                gdt_base: machine.vmcs(VMCS_GUEST_GDTR_BASE),
                gdt_limit: machine.vmcs(VMCS_GUEST_GDTR_LIMIT),
                idt_base: machine.vmcs(VMCS_GUEST_IDTR_BASE),
                idt_limit: machine.vmcs(VMCS_GUEST_IDTR_LIMIT),
            },
            link_pointer: machine.vmcs(VMCS_GUEST_LINK_POINTER),
        }
    }

    /// The state made of `values`, taken in the order of
    /// [`CpuState::sources`].
    pub open spec fn of_values(id: u32, values: Seq<u64>) -> CpuState {
        CpuState {
            id,
            controls: Controls {
                cr0_mask: values[0],
                cr0_shadow: values[1],
                cr4_mask: values[2],
                cr4_shadow: values[3],
                pin_based: values[4],
                cpu_based: values[5],
                cpu_based2: values[6],
                entry: values[7],
                exit: values[8],
            },
            registers: GeneralRegisters {
                rip: values[9],
                rflags: values[10],
                rsp: values[11],
                rbp: values[12],
                rax: values[13],
                rbx: values[14],
                rcx: values[15],
                rdx: values[16],
                rsi: values[17],
                rdi: values[18],
                r8: values[19],
                r9: values[20],
                r10: values[21],
                r11: values[22],
                r12: values[23],
                r13: values[24],
                r14: values[25],
                r15: values[26],
            },
            control_registers: ControlRegisters {
                cr0: values[27],
                cr2: values[28],
                cr3: values[29],
                cr4: values[30],
                efer: values[31],
            },
            segments: SegmentRegisters {
                cs: Segment {
                    selector: values[32],
                    base: values[41],
                    limit: values[40],
                    access_rights: values[42],
                },
                ss: Segment {
                    selector: values[35],
                    base: values[44],
                    limit: values[43],
                    access_rights: values[45],
                },
                ds: Segment {
                    selector: values[33],
                    base: values[47],
                    limit: values[46],
                    access_rights: values[48],
                },
                es: Segment {
                    selector: values[34],
                    base: values[50],
                    limit: values[49],
                    access_rights: values[51],
                },
                fs: Segment {
                    selector: values[36],
                    base: values[53],
                    limit: values[52],
                    access_rights: values[54],
                },
                gs: Segment {
                    selector: values[37],
                    base: values[56],
                    limit: values[55],
                    access_rights: values[57],
                },
                tr: Segment {
                    selector: values[38],
                    base: values[59],
                    limit: values[58],
                    access_rights: values[60],
                },
                ldtr: Segment {
                    selector: values[39],
                    base: values[62],
                    limit: values[61],
                    access_rights: values[63],
                },
            },
            tables: DescriptorTables {
                gdt_base: values[64],
                gdt_limit: values[65],
                idt_base: values[66],
                idt_limit: values[67],
            },
            link_pointer: values[68],
        }
    }

    /// The places where the numbers of a description are read, in order.
    pub fn source_list() -> (list: Vec<Source>)
        ensures
            list@ == CpuState::sources(),
            list@.len() == SOURCES,
    {
        let mut list: Vec<Source> = Vec::new();
        list.push(Source::Vmcs { field: VMCS_CTRL_CR0_MASK });
        list.push(Source::Vmcs { field: VMCS_CTRL_CR0_SHADOW });
        list.push(Source::Vmcs { field: VMCS_CTRL_CR4_MASK });
        list.push(Source::Vmcs { field: VMCS_CTRL_CR4_SHADOW });
        list.push(Source::Vmcs { field: VMCS_CTRL_PIN_BASED });
        list.push(Source::Vmcs { field: VMCS_CTRL_CPU_BASED });
        list.push(Source::Vmcs { field: VMCS_CTRL_CPU_BASED2 });
        list.push(Source::Vmcs { field: VMCS_CTRL_VMENTRY_CONTROLS });
        list.push(Source::Vmcs { field: VMCS_CTRL_VMEXIT_CONTROLS });
        list.push(Source::Register { reg: Register::RIP });
        list.push(Source::Register { reg: Register::RFLAGS });
        list.push(Source::Register { reg: Register::RSP });
        list.push(Source::Register { reg: Register::RBP });
        list.push(Source::Register { reg: Register::RAX });
        list.push(Source::Register { reg: Register::RBX });
        list.push(Source::Register { reg: Register::RCX });
        list.push(Source::Register { reg: Register::RDX });
        list.push(Source::Register { reg: Register::RSI });
        list.push(Source::Register { reg: Register::RDI });
        list.push(Source::Register { reg: Register::R8 });
        list.push(Source::Register { reg: Register::R9 });
        list.push(Source::Register { reg: Register::R10 });
        list.push(Source::Register { reg: Register::R11 });
        list.push(Source::Register { reg: Register::R12 });
        list.push(Source::Register { reg: Register::R13 });
        list.push(Source::Register { reg: Register::R14 });
        list.push(Source::Register { reg: Register::R15 });
        list.push(Source::Register { reg: Register::CR0 });
        list.push(Source::Register { reg: Register::CR2 });
        list.push(Source::Register { reg: Register::CR3 });
        list.push(Source::Register { reg: Register::CR4 });
        list.push(Source::Vmcs { field: VMCS_GUEST_IA32_EFER });
        list.push(Source::Register { reg: Register::CS });
        list.push(Source::Register { reg: Register::DS });
        list.push(Source::Register { reg: Register::ES });
        list.push(Source::Register { reg: Register::SS });
        list.push(Source::Register { reg: Register::FS });
        list.push(Source::Register { reg: Register::GS });
        list.push(Source::Register { reg: Register::TR });
        list.push(Source::Register { reg: Register::LDTR });
        list.push(Source::Vmcs { field: VMCS_GUEST_CS_LIMIT });
        list.push(Source::Vmcs { field: VMCS_GUEST_CS_BASE });
        list.push(Source::Vmcs { field: VMCS_GUEST_CS_AR });
        list.push(Source::Vmcs { field: VMCS_GUEST_SS_LIMIT });
        list.push(Source::Vmcs { field: VMCS_GUEST_SS_BASE });
        list.push(Source::Vmcs { field: VMCS_GUEST_SS_AR });
        list.push(Source::Vmcs { field: VMCS_GUEST_DS_LIMIT });
        list.push(Source::Vmcs { field: VMCS_GUEST_DS_BASE });
        list.push(Source::Vmcs { field: VMCS_GUEST_DS_AR });
        list.push(Source::Vmcs { field: VMCS_GUEST_ES_LIMIT });
        list.push(Source::Vmcs { field: VMCS_GUEST_ES_BASE });
        list.push(Source::Vmcs { field: VMCS_GUEST_ES_AR });
        list.push(Source::Vmcs { field: VMCS_GUEST_FS_LIMIT });
        list.push(Source::Vmcs { field: VMCS_GUEST_FS_BASE });
        list.push(Source::Vmcs { field: VMCS_GUEST_FS_AR });
        list.push(Source::Vmcs { field: VMCS_GUEST_GS_LIMIT });
        list.push(Source::Vmcs { field: VMCS_GUEST_GS_BASE });
        list.push(Source::Vmcs { field: VMCS_GUEST_GS_AR });
        list.push(Source::Vmcs { field: VMCS_GUEST_TR_LIMIT });
        list.push(Source::Vmcs { field: VMCS_GUEST_TR_BASE });
        list.push(Source::Vmcs { field: VMCS_GUEST_TR_AR });
        list.push(Source::Vmcs { field: VMCS_GUEST_LDTR_LIMIT });
        list.push(Source::Vmcs { field: VMCS_GUEST_LDTR_BASE });
        list.push(Source::Vmcs { field: VMCS_GUEST_LDTR_AR });
        list.push(Source::Vmcs { field: VMCS_GUEST_GDTR_BASE });
        list.push(Source::Vmcs { field: VMCS_GUEST_GDTR_LIMIT });
        list.push(Source::Vmcs { field: VMCS_GUEST_IDTR_BASE });
        list.push(Source::Vmcs { field: VMCS_GUEST_IDTR_LIMIT });
        list.push(Source::Vmcs { field: VMCS_GUEST_LINK_POINTER });
        assert(list@ =~= CpuState::sources());
        list
    }

    /// Puts together the state of the virtual CPU numbered `id` from the
    /// numbers read at the places that [`CpuState::source_list`] names, in
    /// that order.
    pub fn from_values(id: u32, values: &[u64]) -> (state: CpuState)
        requires
            values@.len() == SOURCES,
        ensures
            state == CpuState::of_values(id, values@),
    {
        CpuState {
            id,
            controls: Controls {
                cr0_mask: values[0],
                cr0_shadow: values[1],
                cr4_mask: values[2],
                cr4_shadow: values[3],
                pin_based: values[4],
                cpu_based: values[5],
                cpu_based2: values[6],
                entry: values[7],
                exit: values[8],
            },
            registers: GeneralRegisters {
                rip: values[9],
                rflags: values[10],
                rsp: values[11],
                rbp: values[12],
                rax: values[13],
                rbx: values[14],
                rcx: values[15],
                rdx: values[16],
                rsi: values[17],
                rdi: values[18],
                r8: values[19],
                r9: values[20],
                r10: values[21],
                r11: values[22],
                r12: values[23],
                r13: values[24],
                r14: values[25],
                r15: values[26],
            },
            control_registers: ControlRegisters {
                cr0: values[27],
                cr2: values[28],
                cr3: values[29],
                cr4: values[30],
                efer: values[31],
            },
            segments: SegmentRegisters {
                cs: Segment {
                    selector: values[32],
                    base: values[41],
                    limit: values[40],
                    access_rights: values[42],
                },
                ss: Segment {
                    selector: values[35],
                    base: values[44],
                    limit: values[43],
                    access_rights: values[45],
                },
                ds: Segment {
                    selector: values[33],
                    base: values[47],
                    limit: values[46],
                    access_rights: values[48],
                },
                es: Segment {
                    selector: values[34],
                    base: values[50],
                    limit: values[49],
                    access_rights: values[51],
                },
                fs: Segment {
                    selector: values[36],
                    base: values[53],
                    limit: values[52],
                    access_rights: values[54],
                },
                gs: Segment {
                    selector: values[37],
                    base: values[56],
                    limit: values[55],
                    access_rights: values[57],
                },
                tr: Segment {
                    selector: values[38],
                    base: values[59],
                    limit: values[58],
                    access_rights: values[60],
                },
                ldtr: Segment {
                    selector: values[39],
                    base: values[62],
                    limit: values[61],
                    access_rights: values[63],
                },
            },
            tables: DescriptorTables {
                gdt_base: values[64],
                gdt_limit: values[65],
                idt_base: values[66],
                idt_limit: values[67],
            },
            link_pointer: values[68],
        }
    }

    /// The description of the state: the controls, the registers and the
    /// segments, each under a heading, every number in hexadecimal. The
    /// parts follow one another with no line break but those that they hold
    /// themselves.
    pub open spec fn dump_text(self) -> Seq<char> {
        heading_text(self.id)
            + controls_text(self.controls)
            + registers_text(self.registers)
            + control_registers_text(self.control_registers)
            + segments_text(self.segments)
            + tables_text(self.tables)
            + link_pointer_text(self.link_pointer)
    }

    /// Describes the state for a reader.
    pub fn dump(&self) -> (text: String)
        ensures
            text@ == self.dump_text(),
    {
        let mut text = heading(self.id);
        text.append(controls(&self.controls).as_str());
        text.append(registers(&self.registers).as_str());
        text.append(control_registers(&self.control_registers).as_str());
        text.append(segments(&self.segments).as_str());
        text.append(tables(&self.tables).as_str());
        text.append(link_pointer(self.link_pointer).as_str());
        text
    }
}

/// Numbers that were read at the places of [`CpuState::sources`], in that
/// order, make up the state of the machine that they were read from.
pub proof fn lemma_values_describe_machine(id: u32, values: Seq<u64>, machine: Machine)
    requires
        values.len() == SOURCES,
        forall|i: int| 0 <= i < SOURCES ==> values[i] == machine.at(#[trigger] CpuState::sources()[i]),
    ensures
        CpuState::of_values(id, values) == CpuState::of_machine(id, machine),
{
    let sources = CpuState::sources();
    assert(values[0] == machine.at(sources[0]));
    assert(values[1] == machine.at(sources[1]));
    assert(values[2] == machine.at(sources[2]));
    assert(values[3] == machine.at(sources[3]));
    assert(values[4] == machine.at(sources[4]));
    assert(values[5] == machine.at(sources[5]));
    assert(values[6] == machine.at(sources[6]));
    assert(values[7] == machine.at(sources[7]));
    assert(values[8] == machine.at(sources[8]));
    assert(values[9] == machine.at(sources[9]));
    assert(values[10] == machine.at(sources[10]));
    assert(values[11] == machine.at(sources[11]));
    assert(values[12] == machine.at(sources[12]));
    assert(values[13] == machine.at(sources[13]));
    assert(values[14] == machine.at(sources[14]));
    assert(values[15] == machine.at(sources[15]));
    assert(values[16] == machine.at(sources[16]));
    assert(values[17] == machine.at(sources[17]));
    assert(values[18] == machine.at(sources[18]));
    assert(values[19] == machine.at(sources[19]));
    assert(values[20] == machine.at(sources[20]));
    assert(values[21] == machine.at(sources[21]));
    assert(values[22] == machine.at(sources[22]));
    assert(values[23] == machine.at(sources[23]));
    assert(values[24] == machine.at(sources[24]));
    assert(values[25] == machine.at(sources[25]));
    assert(values[26] == machine.at(sources[26]));
    assert(values[27] == machine.at(sources[27]));
    assert(values[28] == machine.at(sources[28]));
    assert(values[29] == machine.at(sources[29]));
    assert(values[30] == machine.at(sources[30]));
    assert(values[31] == machine.at(sources[31]));
    assert(values[32] == machine.at(sources[32]));
    assert(values[33] == machine.at(sources[33]));
    assert(values[34] == machine.at(sources[34]));
    assert(values[35] == machine.at(sources[35]));
    assert(values[36] == machine.at(sources[36]));
    assert(values[37] == machine.at(sources[37]));
    assert(values[38] == machine.at(sources[38]));
    assert(values[39] == machine.at(sources[39]));
    assert(values[40] == machine.at(sources[40]));
    assert(values[41] == machine.at(sources[41]));
    assert(values[42] == machine.at(sources[42]));
    assert(values[43] == machine.at(sources[43]));
    assert(values[44] == machine.at(sources[44]));
    assert(values[45] == machine.at(sources[45]));
    assert(values[46] == machine.at(sources[46]));
    assert(values[47] == machine.at(sources[47]));
    assert(values[48] == machine.at(sources[48]));
    assert(values[49] == machine.at(sources[49]));
    assert(values[50] == machine.at(sources[50]));
    assert(values[51] == machine.at(sources[51]));
    assert(values[52] == machine.at(sources[52]));
    assert(values[53] == machine.at(sources[53]));
    assert(values[54] == machine.at(sources[54]));
    assert(values[55] == machine.at(sources[55]));
    assert(values[56] == machine.at(sources[56]));
    assert(values[57] == machine.at(sources[57]));
    assert(values[58] == machine.at(sources[58]));
    assert(values[59] == machine.at(sources[59]));
    assert(values[60] == machine.at(sources[60]));
    assert(values[61] == machine.at(sources[61]));
    assert(values[62] == machine.at(sources[62]));
    assert(values[63] == machine.at(sources[63]));
    assert(values[64] == machine.at(sources[64]));
    assert(values[65] == machine.at(sources[65]));
    assert(values[66] == machine.at(sources[66]));
    assert(values[67] == machine.at(sources[67]));
    assert(values[68] == machine.at(sources[68]));
}

} // verus!
