use vstd::prelude::*;

use crate::access::MemoryAcceess;
use crate::word::{wrap, Word};

verus! {

/// One of the eight general registers.
#[derive(Clone, Copy, Debug, PartialEq, Eq, Structural)]
pub enum Register {
    R0,
    R1,
    R2,
    R3,
    R4,
    R5,
    SP,
    PC,
}

/// The register's number, as an opcode encodes it.
pub open spec fn reg_index(r: Register) -> int {
    match r {
        Register::R0 => 0,
        Register::R1 => 1,
        Register::R2 => 2,
        Register::R3 => 3,
        Register::R4 => 4,
        Register::R5 => 5,
        Register::SP => 6,
        Register::PC => 7,
    }
}

/// The register with number `code`.
pub open spec fn register_of(code: int) -> Register {
    if code == 0 {
        Register::R0
    } else if code == 1 {
        Register::R1
    } else if code == 2 {
        Register::R2
    } else if code == 3 {
        Register::R3
    } else if code == 4 {
        Register::R4
    } else if code == 5 {
        Register::R5
    } else if code == 6 {
        Register::SP
    } else {
        Register::PC
    }
}

/// Assembler name of a register.
pub open spec fn register_name(r: Register) -> Seq<char> {
    match r {
        Register::R0 => seq!['R', '0'],
        Register::R1 => seq!['R', '1'],
        Register::R2 => seq!['R', '2'],
        Register::R3 => seq!['R', '3'],
        Register::R4 => seq!['R', '4'],
        Register::R5 => seq!['R', '5'],
        Register::SP => seq!['S', 'P'],
        Register::PC => seq!['P', 'C'],
    }
}

/// How far auto-increment and auto-decrement move register `r` for an access
/// of `size` bytes: the program counter always moves by a whole word.
pub open spec fn step_size(r: Register, size: nat) -> nat {
    if r == Register::PC {
        2
    } else {
        size
    }
}

impl Register {
    /// The register with number `code`.
    pub fn from_code(code: u16) -> (r: Register)
        requires
            code < 8,
        ensures
            r == register_of(code as int),
            reg_index(r) == code,
    {
        match code {
            0 => Register::R0,
            1 => Register::R1,
            2 => Register::R2,
            3 => Register::R3,
            4 => Register::R4,
            5 => Register::R5,
            6 => Register::SP,
            _ => Register::PC,
        }
    }

    /// The register's number.
    pub fn index(&self) -> (r: usize)
        ensures
            r == reg_index(*self),
    {
        match self {
            Register::R0 => 0,
            Register::R1 => 1,
            Register::R2 => 2,
            Register::R3 => 3,
            Register::R4 => 4,
            Register::R5 => 5,
            Register::SP => 6,
            Register::PC => 7,
        }
    }

    pub fn as_str(&self) -> (r: &'static str)
        ensures
            r@ == register_name(*self),
    {
        let r = match self {
            Register::R0 => "R0",
            Register::R1 => "R1",
            Register::R2 => "R2",
            Register::R3 => "R3",
            Register::R4 => "R4",
            Register::R5 => "R5",
            Register::SP => "SP",
            Register::PC => "PC",
        };
        proof {
            reveal_strlit("R0");
            reveal_strlit("R1");
            reveal_strlit("R2");
            reveal_strlit("R3");
            reveal_strlit("R4");
            reveal_strlit("R5");
            reveal_strlit("SP");
            reveal_strlit("PC");
        }
        assert(r@ =~= register_name(*self));
        r
    }
}

/// The eight general registers R0..R5, SP (R6) and PC (R7).
#[derive(Clone, Copy, Debug)]
pub struct Registers {
    cells: [u16; 8],
}

impl View for Registers {
    type V = Seq<u16>;

    closed spec fn view(&self) -> Seq<u16> {
        self.cells@
    }
}

impl Registers {
    /// All registers zero.
    pub fn new() -> (r: Registers)
        ensures
            r@ == Seq::new(8, |i: int| 0u16),
    {
        let r = Registers { cells: [0u16; 8] };
        assert(r@ =~= Seq::new(8, |i: int| 0u16));
        r
    }

    pub fn reset(&mut self)
        ensures
            final(self)@ == Seq::new(8, |i: int| 0u16),
    {
        *self = Registers::new();
    }

    pub fn get(&self, register: Register) -> (r: Word)
        ensures
            self@.len() == 8,
            r@ == self@[reg_index(register)],
    {
        Word::from_u16(self.cells[register.index()])
    }

    pub fn set(&mut self, register: Register, value: Word)
        ensures
            old(self)@.len() == 8,
            final(self)@ == old(self)@.update(reg_index(register), value@),
    {
        self.cells[register.index()] = value.as_u16();
    }

    /// Reads `register`, then advances it past one access of width `M`.
    pub fn get_inc<M: MemoryAcceess>(&mut self, register: Register) -> (r: Word)
        ensures
            old(self)@.len() == 8,
            r@ == old(self)@[reg_index(register)],
            final(self)@ == old(self)@.update(
                reg_index(register),
                wrap(old(self)@[reg_index(register)] + step_size(register, M::spec_size())),
            ),
    {
        let i = register.index();
        let word = self.cells[i];
        let step: u16 = if i == 7 { 2 } else { M::size() };
        self.cells[i] = word.wrapping_add(step);
        Word::from_u16(word)
    }

    /// Moves `register` back by one access of width `M`, then reads it.
    pub fn dec_get<M: MemoryAcceess>(&mut self, register: Register) -> (r: Word)
        ensures
            old(self)@.len() == 8,
            final(self)@ == old(self)@.update(
                reg_index(register),
                wrap(old(self)@[reg_index(register)] - step_size(register, M::spec_size())),
            ),
            r@ == final(self)@[reg_index(register)],
    {
        let i = register.index();
        let step: u16 = if i == 7 { 2 } else { M::size() };
        self.cells[i] = self.cells[i].wrapping_sub(step);
        Word::from_u16(self.cells[i])
    }
}

} // verus!
