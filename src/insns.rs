use vstd::prelude::*;

use crate::operand::{operand_field, operand_of, Offset, Operand};
use crate::word::Word;

verus! {

/// A decoded instruction.
#[derive(Clone, Copy, Debug, PartialEq, Eq, Structural)]
pub enum Instruction {
    Halt,
    Wait,
    Reset,
    Clr(Operand),
    Asl(Operand),
    Jmp(Operand),
    Swab(Operand),
    Tst(Operand),
    Mov(Operand, Operand),
    Cmp(Operand, Operand),
    Bit(Operand, Operand),
    Bpl(Offset),
    Tstb(Operand),
    Invalid(u16),
}

/// The signed value of the low byte `b` (0..=255) of a word.
pub open spec fn signed_byte(b: int) -> i8 {
    if b < 128 {
        b as i8
    } else {
        (b - 256) as i8
    }
}

/// The low byte that encodes signed value `o`.
pub open spec fn unsigned_byte(o: i8) -> int {
    if o >= 0 {
        o as int
    } else {
        o + 256
    }
}

/// The destination operand, bits 0..=5.
pub open spec fn dst_of(op: u16) -> Operand {
    operand_of(op as int % 64)
}

/// The source operand, bits 6..=11.
pub open spec fn src_of(op: u16) -> Operand {
    operand_of(op as int / 64 % 64)
}

/// What each opcode decodes to.
pub open spec fn decoded(op: u16) -> Instruction {
    if op == 0o000000 {
        Instruction::Halt
    } else if op == 0o000001 {
        Instruction::Wait
    } else if op == 0o000005 {
        Instruction::Reset
    } else if 0o000100 <= op <= 0o000177 {
        Instruction::Jmp(dst_of(op))
    } else if 0o000300 <= op <= 0o000377 {
        Instruction::Swab(dst_of(op))
    } else if 0o005000 <= op <= 0o005077 {
        Instruction::Clr(dst_of(op))
    } else if 0o005700 <= op <= 0o005777 {
        Instruction::Tst(dst_of(op))
    } else if 0o006300 <= op <= 0o006377 {
        Instruction::Asl(dst_of(op))
    } else if 0o010000 <= op <= 0o017777 {
        Instruction::Mov(src_of(op), dst_of(op))
    } else if 0o020000 <= op <= 0o027777 {
        Instruction::Cmp(src_of(op), dst_of(op))
    } else if 0o030000 <= op <= 0o037777 {
        Instruction::Bit(src_of(op), dst_of(op))
    } else if 0o100000 <= op <= 0o100377 {
        Instruction::Bpl(Offset(signed_byte(op as int % 256)))
    } else if 0o105700 <= op <= 0o105777 {
        Instruction::Tstb(dst_of(op))
    } else {
        Instruction::Invalid(op)
    }
}

/// The opcode of an instruction: the mnemonic's base pattern with its
/// operand fields filled in.
pub open spec fn encoded(i: Instruction) -> int {
    match i {
        Instruction::Halt => 0o000000,
        Instruction::Wait => 0o000001,
        Instruction::Reset => 0o000005,
        Instruction::Jmp(d) => 0o000100 + operand_field(d),
        Instruction::Swab(d) => 0o000300 + operand_field(d),
        Instruction::Clr(d) => 0o005000 + operand_field(d),
        Instruction::Tst(d) => 0o005700 + operand_field(d),
        Instruction::Asl(d) => 0o006300 + operand_field(d),
        Instruction::Mov(s, d) => 0o010000 + 64 * operand_field(s) + operand_field(d),
        Instruction::Cmp(s, d) => 0o020000 + 64 * operand_field(s) + operand_field(d),
        Instruction::Bit(s, d) => 0o030000 + 64 * operand_field(s) + operand_field(d),
        Instruction::Bpl(o) => 0o100000 + unsigned_byte(o.0),
        Instruction::Tstb(d) => 0o105700 + operand_field(d),
        Instruction::Invalid(raw) => raw as int,
    }
}

impl Instruction {
    /// Decodes one opcode; anything outside the implemented set is
    /// `Invalid`.
    pub fn decode(opcode: u16) -> (r: Instruction)
        ensures
            r == decoded(opcode),
    {
        if opcode == 0o000000 {
            Instruction::Halt
        } else if opcode == 0o000001 {
            Instruction::Wait
        } else if opcode == 0o000005 {
            Instruction::Reset
        } else if 0o000100 <= opcode && opcode <= 0o000177 {
            Instruction::Jmp(Operand::from_0_5(opcode))
        } else if 0o000300 <= opcode && opcode <= 0o000377 {
            Instruction::Swab(Operand::from_0_5(opcode))
        } else if 0o005000 <= opcode && opcode <= 0o005077 {
            Instruction::Clr(Operand::from_0_5(opcode))
        } else if 0o005700 <= opcode && opcode <= 0o005777 {
            Instruction::Tst(Operand::from_0_5(opcode))
        } else if 0o006300 <= opcode && opcode <= 0o006377 {
            Instruction::Asl(Operand::from_0_5(opcode))
        } else if 0o010000 <= opcode && opcode <= 0o017777 {
            Instruction::Mov(Operand::from_6_11(opcode), Operand::from_0_5(opcode))
        } else if 0o020000 <= opcode && opcode <= 0o027777 {
            Instruction::Cmp(Operand::from_6_11(opcode), Operand::from_0_5(opcode))
        } else if 0o030000 <= opcode && opcode <= 0o037777 {
            Instruction::Bit(Operand::from_6_11(opcode), Operand::from_0_5(opcode))
        } else if 0o100000 <= opcode && opcode <= 0o100377 {
            let low = opcode % 256;
            let offset: i8 = if low < 128 {
                low as i8
            } else {
                (low as i16 - 256) as i8
            };
            Instruction::Bpl(Offset(offset))
        } else if 0o105700 <= opcode && opcode <= 0o105777 {
            Instruction::Tstb(Operand::from_0_5(opcode))
        } else {
            Instruction::Invalid(opcode)
        }
    }
}

impl From<Word> for Instruction {
    fn from(opcode: Word) -> Instruction {
        Instruction::decode(opcode.as_u16())
    }
}

impl vstd::std_specs::convert::FromSpecImpl<Word> for Instruction {
    open spec fn obeys_from_spec() -> bool {
        true
    }

    open spec fn from_spec(opcode: Word) -> Instruction {
        decoded(opcode@)
    }
}

} // verus!
