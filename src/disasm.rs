use vstd::prelude::*;
use vstd::string::StringExecFns;

use crate::insns::Instruction;
use crate::operand::{Offset, Operand, RegisterAddressingMode};
use crate::register::register_name;

verus! {

/// The character of decimal digit `d` (0..=9).
pub open spec fn digit_char(d: int) -> char {
    if d == 0 {
        '0'
    } else if d == 1 {
        '1'
    } else if d == 2 {
        '2'
    } else if d == 3 {
        '3'
    } else if d == 4 {
        '4'
    } else if d == 5 {
        '5'
    } else if d == 6 {
        '6'
    } else if d == 7 {
        '7'
    } else if d == 8 {
        '8'
    } else {
        '9'
    }
}

/// `n` (below 1000) in decimal, without leading zeros.
pub open spec fn decimal_text(n: int) -> Seq<char> {
    if n < 10 {
        seq![digit_char(n)]
    } else if n < 100 {
        seq![digit_char(n / 10), digit_char(n % 10)]
    } else {
        seq![digit_char(n / 100), digit_char(n / 10 % 10), digit_char(n % 10)]
    }
}

/// `v` as `0o` and six octal digits.
pub open spec fn octal_text(v: u16) -> Seq<char> {
    seq![
        '0',
        'o',
        digit_char(v as int / 32768 % 8),
        digit_char(v as int / 4096 % 8),
        digit_char(v as int / 512 % 8),
        digit_char(v as int / 64 % 8),
        digit_char(v as int / 8 % 8),
        digit_char(v as int % 8),
    ]
}

/// Assembler syntax of an operand.
pub open spec fn operand_text(op: Operand) -> Seq<char> {
    let name = register_name(op.register);
    match op.mode {
        RegisterAddressingMode::Register => name,
        RegisterAddressingMode::RegisterDeferred => seq!['('] + name + seq![')'],
        RegisterAddressingMode::Autoincrement => seq!['('] + name + seq![')', '+'],
        RegisterAddressingMode::AutoincrementDeferred => seq!['@', '('] + name + seq![')', '+'],
        RegisterAddressingMode::Autodecrement => seq!['-', '('] + name + seq![')'],
        RegisterAddressingMode::AutodecrementDeferred => seq!['@', '-', '('] + name + seq![')'],
        RegisterAddressingMode::Index => seq!['X', '('] + name + seq![')'],
        RegisterAddressingMode::IndexDeferred => seq!['@', 'X', '('] + name + seq![')'],
    }
}

/// A branch offset as `.` followed by its signed decimal value.
pub open spec fn offset_text(o: Offset) -> Seq<char> {
    if o.0 >= 0 {
        seq!['.', '+'] + decimal_text(o.0 as int)
    } else {
        seq!['.', '-'] + decimal_text(-o.0)
    }
}

/// A mnemonic, a tab and one operand.
pub open spec fn single_text(mnemonic: Seq<char>, op: Operand) -> Seq<char> {
    mnemonic + seq!['\t'] + operand_text(op)
}

/// A mnemonic, a tab and two operands.
pub open spec fn double_text(mnemonic: Seq<char>, src: Operand, dst: Operand) -> Seq<char> {
    mnemonic + seq!['\t'] + operand_text(src) + seq![',', ' '] + operand_text(dst)
}

/// Assembler syntax of an instruction.
pub open spec fn instruction_text(i: Instruction) -> Seq<char> {
    match i {
        Instruction::Halt => seq!['H', 'A', 'L', 'T'],
        Instruction::Wait => seq!['W', 'A', 'I', 'T'],
        Instruction::Reset => seq!['R', 'E', 'S', 'E', 'T'],
        Instruction::Clr(d) => single_text(seq!['C', 'L', 'R'], d),
        Instruction::Asl(d) => single_text(seq!['A', 'S', 'L'], d),
        Instruction::Jmp(d) => single_text(seq!['J', 'M', 'P'], d),
        Instruction::Swab(d) => single_text(seq!['S', 'W', 'A', 'B'], d),
        Instruction::Tst(d) => single_text(seq!['T', 'S', 'T'], d),
        Instruction::Mov(s, d) => double_text(seq!['M', 'O', 'V'], s, d),
        Instruction::Cmp(s, d) => double_text(seq!['C', 'M', 'P'], s, d),
        Instruction::Bit(s, d) => double_text(seq!['B', 'I', 'T'], s, d),
        Instruction::Bpl(o) => seq!['B', 'P', 'L', '\t'] + offset_text(o),
        Instruction::Tstb(d) => single_text(seq!['T', 'S', 'T', 'B'], d),
        Instruction::Invalid(raw) => "Invalid opcode "@ + octal_text(raw),
    }
}

fn digit(d: u16) -> (r: &'static str)
    requires
        d < 10,
    ensures
        r@ == seq![digit_char(d as int)],
{
    proof {
        reveal_strlit("0");
        reveal_strlit("1");
        reveal_strlit("2");
        reveal_strlit("3");
        reveal_strlit("4");
        reveal_strlit("5");
        reveal_strlit("6");
        reveal_strlit("7");
        reveal_strlit("8");
        reveal_strlit("9");
    }
    let r = if d == 0 {
        "0"
    } else if d == 1 {
        "1"
    } else if d == 2 {
        "2"
    } else if d == 3 {
        "3"
    } else if d == 4 {
        "4"
    } else if d == 5 {
        "5"
    } else if d == 6 {
        "6"
    } else if d == 7 {
        "7"
    } else if d == 8 {
        "8"
    } else {
        "9"
    };
    assert(r@ =~= seq![digit_char(d as int)]);
    r
}

/// Appends `n` (below 1000) in decimal.
fn push_decimal(text: &mut String, n: u16)
    requires
        n < 1000,
    ensures
        final(text)@ == old(text)@ + decimal_text(n as int),
{
    if n >= 100 {
        text.append(digit(n / 100));
    }
    if n >= 10 {
        text.append(digit(n / 10 % 10));
    }
    text.append(digit(n % 10));
    assert(final(text)@ =~= old(text)@ + decimal_text(n as int));
}

/// Appends `v` as `0o` and six octal digits.
fn push_octal(text: &mut String, v: u16)
    ensures
        final(text)@ == old(text)@ + octal_text(v),
{
    proof {
        reveal_strlit("0o");
    }
    text.append("0o");
    text.append(digit(v / 32768 % 8));
    text.append(digit(v / 4096 % 8));
    text.append(digit(v / 512 % 8));
    text.append(digit(v / 64 % 8));
    text.append(digit(v / 8 % 8));
    text.append(digit(v % 8));
    assert(final(text)@ =~= old(text)@ + octal_text(v));
}

impl Operand {
    /// Assembler syntax of the operand.
    pub fn disassemble(&self) -> (r: String)
        ensures
            r@ == operand_text(*self),
    {
        let name = self.register.as_str();
        let (before, after): (&str, &str) = match self.mode {
            RegisterAddressingMode::Register => ("", ""),
            RegisterAddressingMode::RegisterDeferred => ("(", ")"),
            RegisterAddressingMode::Autoincrement => ("(", ")+"),
            RegisterAddressingMode::AutoincrementDeferred => ("@(", ")+"),
            RegisterAddressingMode::Autodecrement => ("-(", ")"),
            RegisterAddressingMode::AutodecrementDeferred => ("@-(", ")"),
            RegisterAddressingMode::Index => ("X(", ")"),
            RegisterAddressingMode::IndexDeferred => ("@X(", ")"),
        };
        proof {
            reveal_strlit("");
            reveal_strlit("(");
            reveal_strlit(")");
            reveal_strlit(")+");
            reveal_strlit("@(");
            reveal_strlit("-(");
            reveal_strlit("@-(");
            reveal_strlit("X(");
            reveal_strlit("@X(");
        }
        let mut text = String::from_str(before);
        text.append(name);
        text.append(after);
        assert(text@ =~= operand_text(*self));
        text
    }
}

impl Offset {
    /// The offset as `.` followed by its signed decimal value.
    pub fn disassemble(&self) -> (r: String)
        ensures
            r@ == offset_text(*self),
    {
        proof {
            reveal_strlit(".+");
            reveal_strlit(".-");
        }
        let mut text;
        if self.0 >= 0 {
            text = String::from_str(".+");
            push_decimal(&mut text, self.0 as u16);
        } else {
            text = String::from_str(".-");
            push_decimal(&mut text, (-(self.0 as i16)) as u16);
        }
        text
    }
}

impl Instruction {
    /// Assembler syntax of the instruction.
    pub fn disassemble(&self) -> (r: String)
        ensures
            r@ == instruction_text(*self),
    {
        proof {
            reveal_strlit("HALT");
            reveal_strlit("WAIT");
            reveal_strlit("RESET");
            reveal_strlit("CLR");
            reveal_strlit("ASL");
            reveal_strlit("JMP");
            reveal_strlit("SWAB");
            reveal_strlit("TST");
            reveal_strlit("MOV");
            reveal_strlit("CMP");
            reveal_strlit("BIT");
            reveal_strlit("BPL\t");
            reveal_strlit("TSTB");
            reveal_strlit("Invalid opcode ");
        }
        match self {
            Instruction::Halt => String::from_str("HALT"),
            Instruction::Wait => String::from_str("WAIT"),
            Instruction::Reset => String::from_str("RESET"),
            Instruction::Clr(d) => single("CLR", d),
            Instruction::Asl(d) => single("ASL", d),
            Instruction::Jmp(d) => single("JMP", d),
            Instruction::Swab(d) => single("SWAB", d),
            Instruction::Tst(d) => single("TST", d),
            Instruction::Mov(s, d) => double("MOV", s, d),
            Instruction::Cmp(s, d) => double("CMP", s, d),
            Instruction::Bit(s, d) => double("BIT", s, d),
            Instruction::Bpl(o) => {
                let mut text = String::from_str("BPL\t");
                text.append(o.disassemble().as_str());
                text
            },
            Instruction::Tstb(d) => single("TSTB", d),
            Instruction::Invalid(raw) => {
                let mut text = String::from_str("Invalid opcode ");
                push_octal(&mut text, *raw);
                text
            },
        }
    }
}

fn single(mnemonic: &str, op: &Operand) -> (r: String)
    ensures
        r@ == single_text(mnemonic@, *op),
{
    proof {
        reveal_strlit("\t");
    }
    let mut text = String::from_str(mnemonic);
    text.append("\t");
    text.append(op.disassemble().as_str());
    text
}

fn double(mnemonic: &str, src: &Operand, dst: &Operand) -> (r: String)
    ensures
        r@ == double_text(mnemonic@, *src, *dst),
{
    proof {
        reveal_strlit("\t");
        reveal_strlit(", ");
    }
    let mut text = String::from_str(mnemonic);
    text.append("\t");
    text.append(src.disassemble().as_str());
    text.append(", ");
    text.append(dst.disassemble().as_str());
    text
}

} // verus!
