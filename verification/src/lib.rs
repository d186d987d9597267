//! Control plane for hardware-assisted virtualization, written without I/O.
//!
//! The library never touches the host's virtualization facility itself.
//! Every operation is split around the native call it stands for. A function
//! here decides which call to make and with which arguments, and hands it
//! out as a `Call`; the embedding program makes the call; and a second
//! function here takes the status word and the values that came back:
//! [`match_error_code`] and [`match_value`] for most calls, and the
//! `finish_` methods of a virtual CPU for the calls that change its state.
//! What lies between the two, the state of a virtual CPU and the rules on
//! what may be asked of it in which state, is kept by the types of this
//! crate. A function that must not be called in some state says so in its
//! `requires`; a caller that is not verified tests the state first.
//!
//! Two backends are covered, and they differ in more than encoding:
//! [`x86_64`] reports why a virtual CPU stopped through fields of a control
//! structure that the caller reads and hands to `decode_exit`, [`aarch64`]
//! through a tagged record that is valid from the return of a run to the
//! start of the next.
//!
//! A virtual CPU belongs to the thread that created it: run it, and read and
//! write its registers, from that thread only. No type here can hold a
//! thread to that.

pub mod aarch64;
pub mod error;
pub mod lifecycle;
pub mod memory;
pub mod text;
pub mod x86_64;

pub use error::{match_error_code, match_value, Error};
pub use lifecycle::VcpuState;
pub use memory::{match_MemPerm, MemPerm};
