//! The backend built on the ARM virtualization extensions.

pub mod call;
pub mod exit;
pub mod registers;
pub mod system_registers;
pub mod vcpu;
pub mod vm;

pub use call::{hv_ipa_t, hv_vcpu_t, Call};
pub use exit::{hv_vcpu_exit_exception_t, hv_vcpu_exit_t, VirtualCpuExitReason};
pub use registers::{hv_reg_t, Register};
pub use system_registers::{hv_sys_reg_t, SystemRegister};
pub use vcpu::{VirtualCpu, VirtualCpuView};
pub use vm::{create_vm, destroy_vm, map_mem, protect_mem, unmap_mem};
