//! Core of a PDP-11 family minicomputer emulator: word and byte values, the
//! unified register and memory address space with its RK11 disk-controller
//! window, the instruction decoder, the addressing-mode evaluator and the
//! execution engine, each stated against a mathematical model of the machine
//! (`machine`), with the laws that model obeys (`laws`).

pub mod access;
pub mod bootrom;
pub mod byte;
pub mod cpu;
pub mod disasm;
pub mod insns;
pub mod laws;
pub mod machine;
pub mod operand;
pub mod psw;
pub mod ram;
pub mod register;
pub mod rk;
pub mod word;

pub use access::{Address, MemoryAcceess};
pub use byte::Byte;
pub use cpu::Cpu;
pub use insns::Instruction;
pub use machine::{CpuState, Fault, Location, StepEvent, Width};
pub use operand::{Offset, Operand, RegisterAddressingMode};
pub use psw::{Flags, ProcessorStatusWord, PswState};
pub use ram::{MemState, Ram};
pub use register::{Register, Registers};
pub use rk::{Rk, RkState};
pub use word::Word;
