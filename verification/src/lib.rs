//! Instruction-level emulation core for a classic 8-bit CPU.
//!
//! The crate models the register file with its packed condition flags, the
//! 16-bit program counter with wraparound semantics, the opcode decode
//! tables, the bank-switched cartridge memory, and the fetch-decode-execute
//! engine. Every state change is pinned down by a contract over the plain
//! integer fields of the machine state.

pub mod cartridge;
pub mod cpu;
pub mod flags_register;
pub mod gpu;
pub mod instruction;
pub mod memory_bus;
pub mod program_counter;
pub mod registers;

pub use cartridge::Cartridge;
pub use cartridge::Mbc3;
pub use cpu::Cpu;
pub use flags_register::FlagsRegister;
pub use gpu::Gpu;
pub use memory_bus::MemoryBus;
pub use program_counter::ProgramCounter;
pub use registers::Registers;
