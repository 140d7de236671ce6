use vstd::prelude::*;

use crate::bootrom::{boot_rom, BOOTROM_START, BOOTROM_WORDS};
use crate::byte::byte_sign;
use crate::insns::{decoded, Instruction};
use crate::operand::{Offset, Operand, RegisterAddressingMode};
use crate::psw::PswState;
use crate::ram::{MemState, MEMORY_WORDS};
use crate::register::{reg_index, step_size, Register};
use crate::word::{hi_byte, join_bytes, lo_byte, swap_bytes, word_sign, wrap};

verus! {

/// The width of an access.
#[derive(Clone, Copy, Debug, PartialEq, Eq, Structural)]
pub enum Width {
    Byte,
    Word,
}

/// Number of bytes that an access of width `w` moves.
pub open spec fn width_size(w: Width) -> nat {
    match w {
        Width::Byte => 1,
        Width::Word => 2,
    }
}

/// The cell that an operand resolves to: a register, or a byte address.
#[derive(Clone, Copy, Debug, PartialEq, Eq, Structural)]
pub enum Location {
    Register(Register),
    Memory(u16),
}

/// A fault that stops the processor.
#[derive(Clone, Copy, Debug, PartialEq, Eq, Structural)]
pub enum Fault {
    /// A word access at an odd address.
    OddAddress(u16),
    /// An addressing mode that the instruction does not allow.
    IllegalMode(Operand),
}

/// What one step of the processor did.
#[derive(Clone, Copy, Debug, PartialEq, Eq, Structural)]
pub enum StepEvent {
    /// The processor was halted and did nothing.
    Idle,
    /// The opcode was fetched and its instruction carried out (an invalid
    /// opcode is carried out as nothing).
    Executed(u16, Instruction),
    /// A fault stopped the processor.
    Faulted(Fault),
}

/// The whole state of the machine.
pub struct CpuState {
    pub halted: bool,
    pub regs: Seq<u16>,
    pub psw: PswState,
    pub mem: MemState,
}

impl CpuState {
    pub open spec fn wf(self) -> bool {
        self.regs.len() == 8 && self.mem.wf()
    }

    pub open spec fn reg(self, r: Register) -> u16 {
        self.regs[reg_index(r)]
    }

    pub open spec fn with_reg(self, r: Register, v: u16) -> CpuState {
        CpuState { regs: self.regs.update(reg_index(r), v), ..self }
    }

    pub open spec fn with_psw(self, psw: PswState) -> CpuState {
        CpuState { psw, ..self }
    }

    pub open spec fn with_mem(self, mem: MemState) -> CpuState {
        CpuState { mem, ..self }
    }

    pub open spec fn halt(self) -> CpuState {
        CpuState { halted: true, ..self }
    }
}

/// Resolves `op` for an access of width `w`, with the mode's increment or
/// decrement and the index word fetched through PC. On a fault nothing
/// changes.
pub open spec fn resolve(s: CpuState, op: Operand, w: Width) -> (CpuState, Result<Location, Fault>) {
    let r = op.register;
    let rn = s.reg(r);
    match op.mode {
        RegisterAddressingMode::Register => (s, Ok(Location::Register(r))),
        RegisterAddressingMode::RegisterDeferred => (s, Ok(Location::Memory(rn))),
        RegisterAddressingMode::Autoincrement => (
            s.with_reg(r, wrap(rn + step_size(r, width_size(w)))),
            Ok(Location::Memory(rn)),
        ),
        RegisterAddressingMode::AutoincrementDeferred => {
            if rn % 2 == 1 {
                (s, Err(Fault::OddAddress(rn)))
            } else {
                (s.with_reg(r, wrap(rn + 2)), Ok(Location::Memory(s.mem.read_word(rn))))
            }
        },
        RegisterAddressingMode::Autodecrement => {
            let a = wrap(rn - step_size(r, width_size(w)));
            (s.with_reg(r, a), Ok(Location::Memory(a)))
        },
        RegisterAddressingMode::AutodecrementDeferred => {
            let a = wrap(rn - 2);
            if a % 2 == 1 {
                (s, Err(Fault::OddAddress(a)))
            } else {
                (s.with_reg(r, a), Ok(Location::Memory(s.mem.read_word(a))))
            }
        },
        RegisterAddressingMode::Index => {
            let pc = s.reg(Register::PC);
            if pc % 2 == 1 {
                (s, Err(Fault::OddAddress(pc)))
            } else {
                let s1 = s.with_reg(Register::PC, wrap(pc + 2));
                (s1, Ok(Location::Memory(wrap(s1.reg(r) + s.mem.read_word(pc)))))
            }
        },
        RegisterAddressingMode::IndexDeferred => {
            let pc = s.reg(Register::PC);
            if pc % 2 == 1 {
                (s, Err(Fault::OddAddress(pc)))
            } else {
                let s1 = s.with_reg(Register::PC, wrap(pc + 2));
                let a = wrap(s1.reg(r) + s.mem.read_word(pc));
                if a % 2 == 1 {
                    (s, Err(Fault::OddAddress(a)))
                } else {
                    (s1, Ok(Location::Memory(s.mem.read_word(a))))
                }
            }
        },
    }
}

/// The value held at `loc`, in width `w` (a byte zero-extended).
pub open spec fn load(s: CpuState, loc: Location, w: Width) -> Result<u16, Fault> {
    match loc {
        Location::Register(r) => Ok(
            match w {
                Width::Word => s.reg(r),
                Width::Byte => lo_byte(s.reg(r)) as u16,
            },
        ),
        Location::Memory(a) => match w {
            Width::Word => if a % 2 == 1 {
                Err(Fault::OddAddress(a))
            } else {
                Ok(s.mem.read_word(a))
            },
            Width::Byte => Ok(s.mem.read_byte(a) as u16),
        },
    }
}

/// The state after `v` is written to `loc` in width `w` (of a byte, the low
/// byte of `v`; a byte written to a register replaces its low byte).
pub open spec fn store(s: CpuState, loc: Location, w: Width, v: u16) -> Result<CpuState, Fault> {
    match loc {
        Location::Register(r) => Ok(
            match w {
                Width::Word => s.with_reg(r, v),
                Width::Byte => s.with_reg(r, join_bytes(lo_byte(v), hi_byte(s.reg(r)))),
            },
        ),
        Location::Memory(a) => match w {
            Width::Word => if a % 2 == 1 {
                Err(Fault::OddAddress(a))
            } else {
                Ok(s.with_mem(s.mem.write_word(a, v)))
            },
            Width::Byte => Ok(s.with_mem(s.mem.write_byte(a, lo_byte(v)))),
        },
    }
}

/// Resolves `op` and reads through it.
pub open spec fn read_operand(s: CpuState, op: Operand, w: Width) -> (CpuState, Result<u16, Fault>) {
    let (s1, l) = resolve(s, op, w);
    match l {
        Err(f) => (s1, Err(f)),
        Ok(loc) => (s1, load(s1, loc, w)),
    }
}

/// Resolves `op` and writes `v` through it.
pub open spec fn write_operand(s: CpuState, op: Operand, w: Width, v: u16) -> (
    CpuState,
    Result<(), Fault>,
) {
    let (s1, l) = resolve(s, op, w);
    match l {
        Err(f) => (s1, Err(f)),
        Ok(loc) => match store(s1, loc, w, v) {
            Ok(s2) => (s2, Ok(())),
            Err(f) => (s1, Err(f)),
        },
    }
}

/// Resolves word operand `op` once, reads it, and writes back `f` of what
/// was read; gives the value written.
pub open spec fn modify_operand(s: CpuState, op: Operand, f: spec_fn(u16) -> u16) -> (
    CpuState,
    Result<u16, Fault>,
) {
    let (s1, l) = resolve(s, op, Width::Word);
    match l {
        Err(e) => (s1, Err(e)),
        Ok(loc) => match load(s1, loc, Width::Word) {
            Err(e) => (s1, Err(e)),
            Ok(v) => match store(s1, loc, Width::Word, f(v)) {
                Err(e) => (s1, Err(e)),
                Ok(s2) => (s2, Ok(f(v))),
            },
        },
    }
}

/// Memory as a reset leaves it: zero, with the bootstrap installed.
pub open spec fn booted_words() -> Seq<u16> {
    Seq::new(
        MEMORY_WORDS as nat,
        |i: int|
            if BOOTROM_START / 2 <= i < BOOTROM_START / 2 + BOOTROM_WORDS {
                boot_rom()[i - BOOTROM_START / 2]
            } else {
                0u16
            },
    )
}

/// Registers as a reset leaves them: zero, but PC one word past the start
/// of the bootstrap.
pub open spec fn booted_registers() -> Seq<u16> {
    Seq::new(8, |i: int| if i == 7 { (BOOTROM_START + 2) as u16 } else { 0u16 })
}

/// The state after a reset: running, registers and status cleared, memory
/// cleared with the bootstrap installed, the disk controller's registers
/// cleared.
pub open spec fn reset_state(s: CpuState) -> CpuState {
    CpuState {
        halted: false,
        regs: booted_registers(),
        psw: PswState::cleared(),
        mem: MemState { words: booted_words(), rk: s.mem.rk.cleared() },
    }
}

/// Subtraction `a - b` sets V where the operands' signs differ and the
/// result's sign is not the sign of `a`.
pub open spec fn sub_overflows(a: u16, b: u16) -> bool {
    word_sign(a) != word_sign(b) && word_sign(wrap(a - b)) != word_sign(a)
}

/// CLR: the destination becomes zero; N=0, Z=1, V=0, C=0.
pub open spec fn clr_result(s: CpuState, dst: Operand) -> (CpuState, Result<(), Fault>) {
    let (s1, r) = write_operand(s, dst, Width::Word, 0);
    match r {
        Err(f) => (s1, Err(f)),
        Ok(_) => (s1.with_psw(s1.psw.with_nzvc(false, true, false, false)), Ok(())),
    }
}

/// ASL: the operand shifted left by one bit; the condition codes stay.
pub open spec fn asl_result(s: CpuState, op: Operand) -> (CpuState, Result<(), Fault>) {
    let (s1, r) = modify_operand(s, op, |v: u16| wrap(v * 2));
    match r {
        Err(f) => (s1, Err(f)),
        Ok(_) => (s1, Ok(())),
    }
}

/// JMP: PC becomes the operand's address; register mode is illegal.
pub open spec fn jmp_result(s: CpuState, op: Operand) -> (CpuState, Result<(), Fault>) {
    if op.mode == RegisterAddressingMode::Register {
        (s, Err(Fault::IllegalMode(op)))
    } else {
        let (s1, l) = resolve(s, op, Width::Word);
        match l {
            Err(f) => (s1, Err(f)),
            Ok(Location::Memory(a)) => (s1.with_reg(Register::PC, a), Ok(())),
            Ok(Location::Register(_)) => (s1, Ok(())),
        }
    }
}

/// SWAB: the operand's bytes exchanged; N and Z from the new low byte,
/// V=0, C=0.
pub open spec fn swab_result(s: CpuState, dst: Operand) -> (CpuState, Result<(), Fault>) {
    let (s1, r) = modify_operand(s, dst, |v: u16| swap_bytes(v));
    match r {
        Err(f) => (s1, Err(f)),
        Ok(v) => (
            s1.with_psw(s1.psw.with_nzvc(byte_sign(lo_byte(v)), lo_byte(v) == 0, false, false)),
            Ok(()),
        ),
    }
}

/// TST: N and Z from the word operand, V=0, C=0.
pub open spec fn tst_result(s: CpuState, src: Operand) -> (CpuState, Result<(), Fault>) {
    let (s1, r) = read_operand(s, src, Width::Word);
    match r {
        Err(f) => (s1, Err(f)),
        Ok(v) => (s1.with_psw(s1.psw.with_nzvc(word_sign(v), v == 0, false, false)), Ok(())),
    }
}

/// TSTB: N and Z from the byte operand, V=0, C=0.
pub open spec fn tstb_result(s: CpuState, src: Operand) -> (CpuState, Result<(), Fault>) {
    let (s1, r) = read_operand(s, src, Width::Byte);
    match r {
        Err(f) => (s1, Err(f)),
        Ok(v) => (s1.with_psw(s1.psw.with_nzvc(byte_sign(v as u8), v == 0, false, false)), Ok(())),
    }
}

/// MOV: the source word is written to the destination; N and Z from it,
/// V=0, C kept.
pub open spec fn mov_result(s: CpuState, src: Operand, dst: Operand) -> (
    CpuState,
    Result<(), Fault>,
) {
    let (s1, r1) = read_operand(s, src, Width::Word);
    match r1 {
        Err(f) => (s1, Err(f)),
        Ok(v) => {
            let (s2, r2) = write_operand(s1, dst, Width::Word, v);
            match r2 {
                Err(f) => (s2, Err(f)),
                Ok(_) => (
                    s2.with_psw(s2.psw.with_nzvc(word_sign(v), v == 0, false, s2.psw.carry)),
                    Ok(()),
                ),
            }
        },
    }
}

/// CMP: the flags of `src - dst`: N and Z from the difference, V its signed
/// overflow, C its borrow.
pub open spec fn cmp_result(s: CpuState, src: Operand, dst: Operand) -> (
    CpuState,
    Result<(), Fault>,
) {
    let (s1, r1) = read_operand(s, src, Width::Word);
    match r1 {
        Err(f) => (s1, Err(f)),
        Ok(a) => {
            let (s2, r2) = read_operand(s1, dst, Width::Word);
            match r2 {
                Err(f) => (s2, Err(f)),
                Ok(b) => {
                    let d = wrap(a - b);
                    (
                        s2.with_psw(
                            s2.psw.with_nzvc(word_sign(d), d == 0, sub_overflows(a, b), a < b),
                        ),
                        Ok(()),
                    )
                },
            }
        },
    }
}

/// BIT: N and Z from `src & dst`, V=0, C kept.
pub open spec fn bit_result(s: CpuState, src: Operand, dst: Operand) -> (
    CpuState,
    Result<(), Fault>,
) {
    let (s1, r1) = read_operand(s, src, Width::Word);
    match r1 {
        Err(f) => (s1, Err(f)),
        Ok(a) => {
            let (s2, r2) = read_operand(s1, dst, Width::Word);
            match r2 {
                Err(f) => (s2, Err(f)),
                Ok(b) => {
                    let m = a & b;
                    (
                        s2.with_psw(s2.psw.with_nzvc(word_sign(m), m == 0, false, s2.psw.carry)),
                        Ok(()),
                    )
                },
            }
        },
    }
}

/// BPL: where N is clear, PC moves by twice the signed offset.
pub open spec fn bpl_result(s: CpuState, offset: Offset) -> (CpuState, Result<(), Fault>) {
    if s.psw.negative {
        (s, Ok(()))
    } else {
        (s.with_reg(Register::PC, wrap(s.reg(Register::PC) + 2 * offset.0)), Ok(()))
    }
}

/// What each instruction does to the state; on a fault, the state reached
/// when it came.
pub open spec fn execute(s: CpuState, i: Instruction) -> (CpuState, Result<(), Fault>) {
    match i {
        Instruction::Halt => (s.halt(), Ok(())),
        Instruction::Wait => (s.halt(), Ok(())),
        Instruction::Reset => (reset_state(s), Ok(())),
        Instruction::Clr(dst) => clr_result(s, dst),
        Instruction::Asl(op) => asl_result(s, op),
        Instruction::Jmp(op) => jmp_result(s, op),
        Instruction::Swab(dst) => swab_result(s, dst),
        Instruction::Tst(src) => tst_result(s, src),
        Instruction::Tstb(src) => tstb_result(s, src),
        Instruction::Mov(src, dst) => mov_result(s, src, dst),
        Instruction::Cmp(src, dst) => cmp_result(s, src, dst),
        Instruction::Bit(src, dst) => bit_result(s, src, dst),
        Instruction::Bpl(offset) => bpl_result(s, offset),
        Instruction::Invalid(_) => (s, Ok(())),
    }
}

/// One step: fetch the word at PC through `(PC)+`, decode it and carry it
/// out. A halted processor does nothing; a fault halts it.
pub open spec fn step(s: CpuState) -> (CpuState, StepEvent) {
    if s.halted {
        (s, StepEvent::Idle)
    } else {
        let (s1, fetched) = read_operand(
            s,
            Operand { mode: RegisterAddressingMode::Autoincrement, register: Register::PC },
            Width::Word,
        );
        match fetched {
            Err(f) => (s1.halt(), StepEvent::Faulted(f)),
            Ok(opcode) => {
                let i = decoded(opcode);
                let (s2, r) = execute(s1, i);
                match r {
                    Err(f) => (s2.halt(), StepEvent::Faulted(f)),
                    Ok(_) => (s2, StepEvent::Executed(opcode, i)),
                }
            },
        }
    }
}

/// The state after `n` steps from `s`.
pub open spec fn run(s: CpuState, n: nat) -> CpuState
    decreases n,
{
    if n == 0 {
        s
    } else {
        step(run(s, (n - 1) as nat)).0
    }
}

} // verus!
