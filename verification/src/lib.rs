//! Instruction-level core of an 8-bit handheld console: the register file and
//! its flag arithmetic, the address-space dispatcher with its bank-switching
//! cartridge controller, and the instruction decoder and executor.
//!
//! Every executable function carries a contract over a mathematical model of
//! the machine state, and the contracts are machine-checked. The model of
//! the registers is the register file itself, `cpu::Cpu`; the model of the
//! address space is `memory::MemoryModel`.

pub mod addr;
pub mod alu;
pub mod bits;
pub mod cpu;
pub mod error;
pub mod instructions;
pub mod laws;
pub mod logo;
pub mod mapper;
pub mod memory;
pub mod rom;
pub mod stack;
pub mod step;
pub mod util;
