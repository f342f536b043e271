//! A cycle-phased emulator core for a 32-bit big-endian MIPS-style processor.
//!
//! The processor never touches memory itself: each call of `CPU::tick` advances
//! one phase and hands back a `MemoryBuffer` describing the single bus
//! transaction that the driver must serve against a `Memory`. Floating-point
//! arithmetic is left to the host: an instruction that needs it leaves a
//! `FloatOp` behind, and the host hands the result back through
//! `CPU::complete_float_op`.
pub mod word;
pub mod memory;
pub mod instruction;
pub mod state;
pub mod cpu;
pub mod laws;
pub mod computer;

pub use computer::{Computer, MemoryLayout, StepFault, LOOP_INSTRUCTION};
pub use cpu::CPU;
pub use instruction::{FloatFormat, FloatOpKind, Op, Precision};
pub use memory::Memory;
pub use state::{FloatOp, Fault, MemoryBuffer, PartialWrite, Phase, ResultSlot};
