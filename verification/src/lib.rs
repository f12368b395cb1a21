//! A cycle-accurate emulator of Caxton C. Foster's Blue computer: a 16-bit
//! accumulator machine with 4096 words of memory, a 4-bit opcode and a 12-bit
//! address in each instruction word, and an eight-phase clock cycle.
//!
//! Every executable function carries a contract over the mathematical model
//! of the machine, and every contract is proved.
//!
//! - [`word`], [`flags`], [`alu`]: words and their fields, the flag unit, the
//!   arithmetic unit.
//! - [`instruction`]: the instruction set and its decoder.
//! - [`state`], [`microprogram`]: the model of the machine, and what each tick
//!   of each instruction does to it.
//! - [`computer`]: the machine: its handlers, the clock sequencer, the I/O
//!   handshake, the debug surface, and runs against a scripted device.
//! - [`cycle`], [`frame`], [`theorems`]: what whole cycles amount to, what
//!   ticks leave alone, and what follows for the program counter, the flags,
//!   the memory and the handshake.
//! - [`program`], [`command`], [`text`]: program images from bytes and from
//!   hexadecimal text, and the command language of the debug layer.
//!
//! The machine never touches a console or a file. A caller runs it cycle by
//! cycle, asks after each cycle what its device is to do, and hands input
//! bytes back.

pub mod alu;
pub mod command;
pub mod computer;
pub mod cycle;
pub mod flags;
pub mod frame;
pub mod instruction;
pub mod microprogram;
pub mod program;
pub mod state;
pub mod text;
pub mod theorems;
pub mod word;

pub use computer::debugger::{DebugAction, DebugCommand, Register};
pub use computer::handshake::IoRequest;
pub use computer::run::{RunReport, RunStop};
pub use computer::BlueComputer;
pub use instruction::{DecodeError, Instruction};
pub use state::{DebugSettings, IoState, State};
pub use word::{BlueRegister, RAM_LENGTH};
