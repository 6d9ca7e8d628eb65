//! A virtual machine for a small 16-bit load/store RISC ISA.
//!
//! The crate models the CPU core: a register file with a hard-wired zero
//! register, a segmented 64 KiB memory with MMIO dispatch, the instruction
//! encoding and decoder, the fetch-decode-execute engine, the exception and
//! interrupt machinery, and the interactive debugger's expression language.

pub mod cpu;
pub mod debugger;
pub mod decode;
pub mod defs_uses;
pub mod dex;
pub mod instr;
pub mod interrupts;
pub mod mem;
pub mod props;
pub mod regs;
pub mod stg_loc;
pub mod word;

pub use word::s16;
