//! The backend built on the x86 virtual-machine extensions.

pub mod call;
pub mod dump;
pub mod exit;
pub mod registers;
pub mod vcpu;
pub mod vm;
pub mod vmcs;
pub mod vmx;

pub use call::{hv_gpaddr_t, hv_vcpuid_t, Call};
pub use dump::{
    AccessRights, ControlRegisters, Controls, CpuState, DescriptorTables, GeneralRegisters, Machine,
    Segment, SegmentRegisters, Source, SOURCES,
};
pub use exit::{basic_exit_reason, decode_exit, io_port, next_instruction, VmExit};
pub use registers::{hv_x86_reg_t, Register};
pub use vcpu::{VirtualCpu, VirtualCpuView};
pub use vm::{create_vm, destroy_vm, interrupt_vcpus, map_mem, protect_mem, sync_tsc, unmap_mem};
pub use vmx::{cap2ctrl, read_vmx_cap, VMXCap};
