//! An emulator core for the 6502 microprocessor: registers, status flags,
//! addressing modes, the opcode table, instruction semantics and the
//! fetch-decode-execute loop, over a flat 64 KiB memory.
pub mod ram;
pub mod bus;
pub mod status;
pub mod opcodes;
pub mod state;
pub mod semantics;
pub mod cpu;
pub mod laws;

pub use bus::BUS;
pub use cpu::{StepOutcome, CPU};
pub use opcodes::{decode, AddressingMode, Instruction};
pub use ram::RAM;
pub use state::Operand;
pub use status::{Flag, Status};
