use vstd::prelude::*;

use crate::register::{reg_index, register_of, Register};

verus! {

/// The eight register addressing modes.
#[derive(Clone, Copy, Debug, PartialEq, Eq, Structural)]
pub enum RegisterAddressingMode {
    Register,
    RegisterDeferred,
    Autoincrement,
    AutoincrementDeferred,
    Autodecrement,
    AutodecrementDeferred,
    Index,
    IndexDeferred,
}

/// The mode's number, as an opcode encodes it.
pub open spec fn mode_index(m: RegisterAddressingMode) -> int {
    match m {
        RegisterAddressingMode::Register => 0,
        RegisterAddressingMode::RegisterDeferred => 1,
        RegisterAddressingMode::Autoincrement => 2,
        RegisterAddressingMode::AutoincrementDeferred => 3,
        RegisterAddressingMode::Autodecrement => 4,
        RegisterAddressingMode::AutodecrementDeferred => 5,
        RegisterAddressingMode::Index => 6,
        RegisterAddressingMode::IndexDeferred => 7,
    }
}

/// The mode with number `code`.
pub open spec fn mode_of(code: int) -> RegisterAddressingMode {
    if code == 0 {
        RegisterAddressingMode::Register
    } else if code == 1 {
        RegisterAddressingMode::RegisterDeferred
    } else if code == 2 {
        RegisterAddressingMode::Autoincrement
    } else if code == 3 {
        RegisterAddressingMode::AutoincrementDeferred
    } else if code == 4 {
        RegisterAddressingMode::Autodecrement
    } else if code == 5 {
        RegisterAddressingMode::AutodecrementDeferred
    } else if code == 6 {
        RegisterAddressingMode::Index
    } else {
        RegisterAddressingMode::IndexDeferred
    }
}

impl RegisterAddressingMode {
    /// The mode with number `code`.
    pub fn from_code(code: u16) -> (r: RegisterAddressingMode)
        requires
            code < 8,
        ensures
            r == mode_of(code as int),
            mode_index(r) == code,
    {
        match code {
            0 => RegisterAddressingMode::Register,
            1 => RegisterAddressingMode::RegisterDeferred,
            2 => RegisterAddressingMode::Autoincrement,
            3 => RegisterAddressingMode::AutoincrementDeferred,
            4 => RegisterAddressingMode::Autodecrement,
            5 => RegisterAddressingMode::AutodecrementDeferred,
            6 => RegisterAddressingMode::Index,
            _ => RegisterAddressingMode::IndexDeferred,
        }
    }
}

/// An operand: an addressing mode applied to a register.
#[derive(Clone, Copy, Debug, PartialEq, Eq, Structural)]
pub struct Operand {
    pub mode: RegisterAddressingMode,
    pub register: Register,
}

/// The operand that a 6-bit field encodes: mode in bits 3..=5, register in
/// bits 0..=2.
pub open spec fn operand_of(field: int) -> Operand {
    Operand { mode: mode_of(field / 8 % 8), register: register_of(field % 8) }
}

/// The 6-bit field that encodes an operand.
pub open spec fn operand_field(op: Operand) -> int {
    mode_index(op.mode) * 8 + reg_index(op.register)
}

impl Operand {
    /// The operand in bits 0..=5 of `opcode` (the destination field).
    pub fn from_0_5(opcode: u16) -> (r: Operand)
        ensures
            r == operand_of(opcode as int % 64),
            operand_field(r) == opcode % 64,
    {
        assert((opcode & 0o000070) >> 3 == opcode % 64 / 8 % 8) by (bit_vector);
        assert(opcode & 0o000007 == opcode % 64 % 8) by (bit_vector);
        let mode = RegisterAddressingMode::from_code((opcode & 0o000070) >> 3);
        let register = Register::from_code(opcode & 0o000007);
        Operand { mode, register }
    }

    /// The operand in bits 6..=11 of `opcode` (the source field).
    pub fn from_6_11(opcode: u16) -> (r: Operand)
        ensures
            r == operand_of(opcode as int / 64 % 64),
            operand_field(r) == opcode / 64 % 64,
    {
        assert((opcode & 0o007000) >> 9 == opcode / 64 % 64 / 8 % 8) by (bit_vector);
        assert((opcode & 0o000700) >> 6 == opcode / 64 % 64 % 8) by (bit_vector);
        let mode = RegisterAddressingMode::from_code((opcode & 0o007000) >> 9);
        let register = Register::from_code((opcode & 0o000700) >> 6);
        Operand { mode, register }
    }

    /// `(PC)+`: the operand through which instruction words are fetched.
    pub open spec fn pc_spec() -> Operand {
        Operand { mode: RegisterAddressingMode::Autoincrement, register: Register::PC }
    }

    /// `(PC)+`: the operand through which instruction words are fetched.
    pub fn pc() -> (r: Operand)
        ensures
            r == Operand::pc_spec(),
    {
        Operand { mode: RegisterAddressingMode::Autoincrement, register: Register::PC }
    }
}

/// A branch displacement in words, relative to the word after the branch.
#[derive(Clone, Copy, Debug, PartialEq, Eq, Structural)]
pub struct Offset(pub i8);

} // verus!
