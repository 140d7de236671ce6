use vstd::prelude::*;

use crate::insns::{decoded, encoded, Instruction};
use crate::machine::{
    execute, load, resolve, step, width_size, CpuState, Location, StepEvent, Width,
};
use crate::operand::{mode_index, mode_of, operand_field, operand_of, Operand, RegisterAddressingMode};
use crate::register::{reg_index, register_of, Register};
use crate::rk::is_rk_register;
use crate::word::{swap_bytes, wrap};

verus! {

proof fn lemma_operand_field(field: int)
    requires
        0 <= field < 64,
    ensures
        operand_field(operand_of(field)) == field,
{
    let m = field / 8 % 8;
    let r = field % 8;
    assert(mode_index(mode_of(m)) == m);
    assert(reg_index(register_of(r)) == r);
}

proof fn lemma_single_operand(op: u16, base: int)
    requires
        base % 64 == 0,
        base <= op < base + 64,
    ensures
        base + operand_field(operand_of(op as int % 64)) == op,
{
    assert(op as int % 64 == op - base);
    lemma_operand_field(op as int % 64);
}

proof fn lemma_double_operand(op: u16, base: int)
    requires
        base % 4096 == 0,
        base <= op < base + 4096,
    ensures
        base + 64 * operand_field(operand_of(op as int / 64 % 64)) + operand_field(
            operand_of(op as int % 64),
        ) == op,
{
    lemma_operand_field(op as int % 64);
    lemma_operand_field(op as int / 64 % 64);
    assert(op as int / 64 % 64 == (op - base) / 64);
    assert(64 * ((op - base) / 64) + op as int % 64 == op - base);
}

/// Decoding any opcode and putting its mnemonic's base pattern back
/// together with the mode and register fields it extracted gives the opcode
/// again; an opcode outside the implemented set decodes to `Invalid` with
/// the opcode itself.
pub proof fn lemma_decode_fields(op: u16)
    ensures
        encoded(decoded(op)) == op,
{
    if op == 0o000000 || op == 0o000001 || op == 0o000005 {
    } else if 0o000100 <= op <= 0o000177 {
        lemma_single_operand(op, 0o000100);
    } else if 0o000300 <= op <= 0o000377 {
        lemma_single_operand(op, 0o000300);
    } else if 0o005000 <= op <= 0o005077 {
        lemma_single_operand(op, 0o005000);
    } else if 0o005700 <= op <= 0o005777 {
        lemma_single_operand(op, 0o005700);
    } else if 0o006300 <= op <= 0o006377 {
        lemma_single_operand(op, 0o006300);
    } else if 0o010000 <= op <= 0o017777 {
        lemma_double_operand(op, 0o010000);
    } else if 0o020000 <= op <= 0o027777 {
        lemma_double_operand(op, 0o020000);
    } else if 0o030000 <= op <= 0o037777 {
        lemma_double_operand(op, 0o030000);
    } else if 0o100000 <= op <= 0o100377 {
        assert(op as int % 256 == op - 0o100000);
    } else if 0o105700 <= op <= 0o105777 {
        lemma_single_operand(op, 0o105700);
    }
}

/// Auto-increment reads at the register's old value and then advances the
/// register by the access width, or by 2 for PC; nothing else changes.
pub proof fn lemma_autoincrement(s: CpuState, r: Register, w: Width)
    requires
        s.wf(),
    ensures
        ({
            let (s1, l) = resolve(s, Operand { mode: RegisterAddressingMode::Autoincrement, register: r }, w);
            &&& l == Ok::<Location, crate::machine::Fault>(Location::Memory(s.reg(r)))
            &&& s1.reg(r) == wrap(s.reg(r) + if r == Register::PC { 2 } else { width_size(w) })
            &&& forall|o: Register| o != r ==> s1.reg(o) == s.reg(o)
            &&& s1.mem == s.mem && s1.psw == s.psw && s1.halted == s.halted
        }),
{
    let (s1, l) = resolve(s, Operand { mode: RegisterAddressingMode::Autoincrement, register: r }, w);
    assert forall|o: Register| o != r implies s1.reg(o) == s.reg(o) by {
        assert(reg_index(o) != reg_index(r));
    }
}

/// Auto-decrement first moves the register back by the access width, or
/// by 2 for PC, and reads at the new value; nothing else changes.
pub proof fn lemma_autodecrement(s: CpuState, r: Register, w: Width)
    requires
        s.wf(),
    ensures
        ({
            let (s1, l) = resolve(s, Operand { mode: RegisterAddressingMode::Autodecrement, register: r }, w);
            &&& s1.reg(r) == wrap(s.reg(r) - if r == Register::PC { 2 } else { width_size(w) })
            &&& l == Ok::<Location, crate::machine::Fault>(Location::Memory(s1.reg(r)))
            &&& forall|o: Register| o != r ==> s1.reg(o) == s.reg(o)
            &&& s1.mem == s.mem && s1.psw == s.psw && s1.halted == s.halted
        }),
{
    let (s1, l) = resolve(s, Operand { mode: RegisterAddressingMode::Autodecrement, register: r }, w);
    assert forall|o: Register| o != r implies s1.reg(o) == s.reg(o) by {
        assert(reg_index(o) != reg_index(r));
    }
}

/// Exchanging a word's bytes twice gives the word back.
pub proof fn lemma_swab_twice(w: u16)
    ensures
        swap_bytes(swap_bytes(w)) == w,
{
    let s = swap_bytes(w);
    assert(s == w / 256 + 256 * (w % 256));
    assert(s % 256 == w / 256 && s / 256 == w % 256) by (nonlinear_arith)
        requires
            s == w / 256 + 256 * (w % 256),
            0 <= w < 0x10000,
    ;
}

/// Whatever a word held, CLR leaves zero in it and sets Z=1, N=0, V=0, C=0.
/// The word is a register, or a memory word at an even address outside the
/// disk controller's registers.
pub proof fn lemma_clr(s: CpuState, dst: Operand, loc: Location)
    requires
        s.wf(),
        resolve(s, dst, Width::Word).1 == Ok::<Location, crate::machine::Fault>(loc),
        match loc {
            Location::Register(_) => true,
            Location::Memory(a) => a % 2 == 0 && !is_rk_register(a),
        },
    ensures
        ({
            let (s2, r) = execute(s, Instruction::Clr(dst));
            &&& r is Ok
            &&& load(s2, loc, Width::Word) == Ok::<u16, crate::machine::Fault>(0)
            &&& s2.psw.zero && !s2.psw.negative && !s2.psw.overflow && !s2.psw.carry
        }),
{
    let s1 = resolve(s, dst, Width::Word).0;
    assert(s1.wf()) by {
        lemma_resolve_wf(s, dst, Width::Word);
    }
    match loc {
        Location::Register(r) => {},
        Location::Memory(a) => {
            assert((a as int / 2) < 32768);
        },
    }
}

/// Resolving an operand keeps the state well formed.
proof fn lemma_resolve_wf(s: CpuState, op: Operand, w: Width)
    requires
        s.wf(),
    ensures
        resolve(s, op, w).0.wf(),
{
}

/// After `MOV a, b` on registers, `CMP a, b` finds them equal: Z=1, N=0
/// (and V=0, C=0), whatever words they held.
pub proof fn lemma_mov_then_cmp(s: CpuState, a: Register, b: Register)
    requires
        s.wf(),
    ensures
        ({
            let src = Operand { mode: RegisterAddressingMode::Register, register: a };
            let dst = Operand { mode: RegisterAddressingMode::Register, register: b };
            let (s1, r1) = execute(s, Instruction::Mov(src, dst));
            let (s2, r2) = execute(s1, Instruction::Cmp(src, dst));
            &&& r1 is Ok && r2 is Ok
            &&& s2.psw.zero && !s2.psw.negative && !s2.psw.overflow && !s2.psw.carry
        }),
{
}

/// A running processor whose next instruction is HALT is halted after one
/// step, with PC past the HALT and nothing else changed.
pub proof fn lemma_halt(s: CpuState)
    requires
        s.wf(),
        !s.halted,
        s.reg(Register::PC) % 2 == 0,
        s.mem.read_word(s.reg(Register::PC)) == 0,
    ensures
        step(s).0 == s.with_reg(Register::PC, wrap(s.reg(Register::PC) + 2)).halt(),
        step(s).1 == StepEvent::Executed(0, Instruction::Halt),
{
}

/// A halted processor stays as it is: a step changes nothing, PC included.
pub proof fn lemma_halted_stays(s: CpuState)
    requires
        s.halted,
    ensures
        step(s) == (s, StepEvent::Idle),
{
}

} // verus!
