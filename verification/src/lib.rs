//! Core of a Nintendo 64 emulator: the VR4300 CPU interpreter with its
//! system-control coprocessor, the physical memory interconnect, and the
//! command language of the interactive debugger.
pub mod error;
pub mod mem_map;
pub mod rsp;
pub mod interconnect;
pub mod cpu;
pub mod n64;
pub mod debugger;

pub use crate::cpu::Cpu;
pub use crate::debugger::Debugger;
pub use crate::error::N64Error;
pub use crate::interconnect::Interconnect;
pub use crate::n64::N64;
