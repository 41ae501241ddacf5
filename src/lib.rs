//! An instruction-level interpreter for the MOS 6502 processor.
//!
//! - `flags`: the status byte and its named bits.
//! - `cpu`: the processor with its 64 KiB memory, its abstract view `CpuState`, and the
//!   addressing-mode resolver.
//! - `decode`: the opcode table.
//! - `semantics`: what each instruction and each step does, as functions on `CpuState`.
//! - `instructions`: the handlers, the dispatcher and `Cpu::step`, each proved to follow
//!   `semantics`.
//! - `laws`: properties of the instruction set proved over `semantics`.
//! - `dump`: the layout of a memory dump.

pub mod flags;
pub mod cpu;
pub mod decode;
pub mod semantics;
pub mod instructions;
pub mod laws;
pub mod dump;
