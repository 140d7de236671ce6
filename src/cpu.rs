use vstd::prelude::*;

use crate::access::{Address, MemoryAcceess};
use crate::bootrom::{boot_rom, boot_rom_words, BOOTROM_START, BOOTROM_WORDS};
use crate::byte::Byte;
use crate::machine::{
    booted_words, execute, load, read_operand, reset_state, resolve, run, step, store, sub_overflows, write_operand, CpuState,
    Fault, Location, StepEvent, Width,
};
use crate::insns::Instruction;
use crate::operand::{Offset, Operand, RegisterAddressingMode};
use crate::psw::{Flags, ProcessorStatusWord, PswState};
use crate::ram::{MemState, Ram, MEMORY_WORDS};
use crate::register::{Register, Registers};
use crate::rk::{Rk, RkState};
use crate::word::{word_sign, wrap, Word};

verus! {

/// The condition codes N, Z, V, C that CMP sets for `a - b`.
fn compare_flags(a: u16, b: u16) -> (r: (bool, bool, bool, bool))
    ensures
        r == (word_sign(wrap(a - b)), wrap(a - b) == 0, sub_overflows(a, b), a < b),
{
    let d = a.wrapping_sub(b);
    let a_neg = a >= 0x8000;
    let overflow = a_neg != (b >= 0x8000) && (d >= 0x8000) != a_neg;
    (d >= 0x8000, d == 0, overflow, a < b)
}

/// The processor with its registers, status word and address space.
#[derive(Debug)]
pub struct Cpu {
    halt: bool,
    registers: Registers,
    psw: ProcessorStatusWord,
    ram: Ram,
}

impl View for Cpu {
    type V = CpuState;

    closed spec fn view(&self) -> CpuState {
        CpuState { halted: self.halt, regs: self.registers@, psw: self.psw@, mem: self.ram@ }
    }
}

impl Cpu {
    pub open spec fn wf(&self) -> bool {
        self@.wf()
    }

    /// A halted processor with zeroed registers and memory, whose disk
    /// controller holds `image`.
    pub fn new(image: Vec<u8>) -> (r: Cpu)
        ensures
            r.wf(),
            r@ == (CpuState {
                halted: true,
                regs: Seq::new(8, |i: int| 0u16),
                psw: PswState::cleared(),
                mem: MemState {
                    words: Seq::new(MEMORY_WORDS as nat, |i: int| 0u16),
                    rk: RkState { ds: 0, er: 0, cs: 0, wc: 0, ba: 0, da: 0, image: image@ },
                },
            }),
    {
        let rk = Rk::with_image(image);
        let r = Cpu {
            halt: true,
            registers: Registers::new(),
            psw: ProcessorStatusWord::new(),
            ram: Ram::with_disk(rk),
        };
        r
    }

    pub fn is_halted(&self) -> (r: bool)
        ensures
            r == self@.halted,
    {
        self.halt
    }

    pub fn register(&self, register: Register) -> (r: Word)
        requires
            self.wf(),
        ensures
            r@ == self@.reg(register),
    {
        self.registers.get(register)
    }

    pub fn set_register(&mut self, register: Register, value: Word)
        requires
            old(self).wf(),
        ensures
            final(self).wf(),
            final(self)@ == old(self)@.with_reg(register, value@),
    {
        self.registers.set(register, value);
    }

    pub fn psw(&self) -> (r: ProcessorStatusWord)
        ensures
            r@ == self@.psw,
    {
        self.psw
    }

    /// The word at `address`, or `None` where the address is odd.
    pub fn memory_word(&self, address: u16) -> (r: Option<Word>)
        requires
            self.wf(),
        ensures
            match r {
                Some(w) => address % 2 == 0 && w@ == self@.mem.read_word(address),
                None => address % 2 == 1,
            },
    {
        self.ram.word(Address::from_u16(address))
    }

    /// Writes `value` at `address`; returns false, and changes nothing,
    /// where the address is odd.
    pub fn set_memory_word(&mut self, address: u16, value: Word) -> (ok: bool)
        requires
            old(self).wf(),
        ensures
            final(self).wf(),
            ok == (address % 2 == 0),
            ok ==> final(self)@ == old(self)@.with_mem(old(self)@.mem.write_word(address, value@)),
            !ok ==> final(self)@ == old(self)@,
    {
        self.ram.word_mut(Address::from_u16(address), value)
    }

    /// Resolves `operand` for an access of width `width`, applying its
    /// increment or decrement once.
    pub fn resolve(&mut self, operand: Operand, width: Width) -> (r: Result<Location, Fault>)
        requires
            old(self).wf(),
        ensures
            final(self).wf(),
            (final(self)@, r) == resolve(old(self)@, operand, width),
    {
        let register = operand.register;
        match operand.mode {
            RegisterAddressingMode::Register => Ok(Location::Register(register)),
            RegisterAddressingMode::RegisterDeferred => {
                Ok(Location::Memory(self.registers.get(register).as_u16()))
            },
            RegisterAddressingMode::Autoincrement => {
                let a = match width {
                    Width::Byte => self.registers.get_inc::<Byte>(register),
                    Width::Word => self.registers.get_inc::<Word>(register),
                };
                Ok(Location::Memory(a.as_u16()))
            },
            RegisterAddressingMode::AutoincrementDeferred => {
                let rn = self.registers.get(register);
                match self.ram.word(rn.address()) {
                    None => Err(Fault::OddAddress(rn.as_u16())),
                    Some(pointer) => {
                        self.registers.get_inc::<Word>(register);
                        Ok(Location::Memory(pointer.as_u16()))
                    },
                }
            },
            RegisterAddressingMode::Autodecrement => {
                let a = match width {
                    Width::Byte => self.registers.dec_get::<Byte>(register),
                    Width::Word => self.registers.dec_get::<Word>(register),
                };
                Ok(Location::Memory(a.as_u16()))
            },
            RegisterAddressingMode::AutodecrementDeferred => {
                let mut a = self.registers.get(register);
                a.sub_assign(2);
                match self.ram.word(a.address()) {
                    None => Err(Fault::OddAddress(a.as_u16())),
                    Some(pointer) => {
                        self.registers.dec_get::<Word>(register);
                        Ok(Location::Memory(pointer.as_u16()))
                    },
                }
            },
            RegisterAddressingMode::Index => {
                let pc = self.registers.get(Register::PC);
                match self.ram.word(pc.address()) {
                    None => Err(Fault::OddAddress(pc.as_u16())),
                    Some(index) => {
                        self.registers.get_inc::<Word>(Register::PC);
                        let mut a = self.registers.get(register);
                        a.add_assign(index.as_u16());
                        Ok(Location::Memory(a.as_u16()))
                    },
                }
            },
            RegisterAddressingMode::IndexDeferred => {
                let pc = self.registers.get(Register::PC);
                match self.ram.word(pc.address()) {
                    None => Err(Fault::OddAddress(pc.as_u16())),
                    Some(index) => {
                        let mut a = self.registers.get(register);
                        if register == Register::PC {
                            a.add_assign(2);
                        }
                        a.add_assign(index.as_u16());
                        match self.ram.word(a.address()) {
                            None => Err(Fault::OddAddress(a.as_u16())),
                            Some(pointer) => {
                                self.registers.get_inc::<Word>(Register::PC);
                                Ok(Location::Memory(pointer.as_u16()))
                            },
                        }
                    },
                }
            },
        }
    }

    /// The value at a resolved location, in width `width`.
    pub fn load(&self, location: Location, width: Width) -> (r: Result<u16, Fault>)
        requires
            self.wf(),
        ensures
            r == load(self@, location, width),
    {
        match location {
            Location::Register(register) => {
                let w = self.registers.get(register);
                match width {
                    Width::Word => Ok(w.as_u16()),
                    Width::Byte => Ok(w.byte(0).as_u16()),
                }
            },
            Location::Memory(a) => match width {
                Width::Word => match self.ram.word(Address::from_u16(a)) {
                    Some(w) => Ok(w.as_u16()),
                    None => Err(Fault::OddAddress(a)),
                },
                Width::Byte => Ok(self.ram.byte(Address::from_u16(a)).as_u16()),
            },
        }
    }

    /// Writes `value` to a resolved location in width `width`; on a fault
    /// nothing changes.
    pub fn store(&mut self, location: Location, width: Width, value: u16) -> (r: Result<(), Fault>)
        requires
            old(self).wf(),
        ensures
            final(self).wf(),
            match store(old(self)@, location, width, value) {
                Ok(s) => r == Ok::<(), Fault>(()) && final(self)@ == s,
                Err(f) => r == Err::<(), Fault>(f) && final(self)@ == old(self)@,
            },
    {
        let v = Word::from_u16(value);
        match location {
            Location::Register(register) => {
                match width {
                    Width::Word => self.registers.set(register, v),
                    Width::Byte => {
                        let old = self.registers.get(register);
                        self.registers.set(register, old.with_byte(0, v.byte(0)));
                    },
                }
                Ok(())
            },
            Location::Memory(a) => match width {
                Width::Word => {
                    if self.ram.word_mut(Address::from_u16(a), v) {
                        Ok(())
                    } else {
                        Err(Fault::OddAddress(a))
                    }
                },
                Width::Byte => {
                    self.ram.byte_mut(Address::from_u16(a), v.byte(0));
                    Ok(())
                },
            },
        }
    }

    /// Resolves `operand` and reads through it.
    fn read(&mut self, operand: Operand, width: Width) -> (r: Result<u16, Fault>)
        requires
            old(self).wf(),
        ensures
            final(self).wf(),
            (final(self)@, r) == read_operand(old(self)@, operand, width),
    {
        match self.resolve(operand, width) {
            Err(f) => Err(f),
            Ok(location) => self.load(location, width),
        }
    }

    /// Resolves `operand` and writes `value` through it.
    fn write(&mut self, operand: Operand, width: Width, value: u16) -> (r: Result<(), Fault>)
        requires
            old(self).wf(),
        ensures
            final(self).wf(),
            (final(self)@, r) == write_operand(old(self)@, operand, width, value),
    {
        match self.resolve(operand, width) {
            Err(f) => Err(f),
            Ok(location) => self.store(location, width, value),
        }
    }

    /// Reads the word that `operand` names.
    pub fn word(&mut self, operand: Operand) -> (r: Result<Word, Fault>)
        requires
            old(self).wf(),
        ensures
            final(self).wf(),
            final(self)@ == read_operand(old(self)@, operand, Width::Word).0,
            match r {
                Ok(w) => read_operand(old(self)@, operand, Width::Word).1 == Ok::<u16, Fault>(w@),
                Err(f) => read_operand(old(self)@, operand, Width::Word).1 == Err::<u16, Fault>(f),
            },
    {
        match self.read(operand, Width::Word) {
            Ok(v) => Ok(Word::from_u16(v)),
            Err(f) => Err(f),
        }
    }

    /// Reads the byte that `operand` names.
    pub fn byte(&mut self, operand: Operand) -> (r: Result<Byte, Fault>)
        requires
            old(self).wf(),
        ensures
            final(self).wf(),
            final(self)@ == read_operand(old(self)@, operand, Width::Byte).0,
            match r {
                Ok(b) => read_operand(old(self)@, operand, Width::Byte).1 == Ok::<u16, Fault>(
                    b@ as u16,
                ),
                Err(f) => read_operand(old(self)@, operand, Width::Byte).1 == Err::<u16, Fault>(f),
            },
    {
        match self.read(operand, Width::Byte) {
            Ok(v) => Ok(Byte::from_u8(v as u8)),
            Err(f) => Err(f),
        }
    }

    /// Writes `value` to the word that `operand` names.
    pub fn word_mut(&mut self, operand: Operand, value: Word) -> (r: Result<(), Fault>)
        requires
            old(self).wf(),
        ensures
            final(self).wf(),
            (final(self)@, r) == write_operand(old(self)@, operand, Width::Word, value@),
    {
        self.write(operand, Width::Word, value.as_u16())
    }

    /// Writes `value` to the byte that `operand` names.
    pub fn byte_mut(&mut self, operand: Operand, value: Byte) -> (r: Result<(), Fault>)
        requires
            old(self).wf(),
        ensures
            final(self).wf(),
            (final(self)@, r) == write_operand(old(self)@, operand, Width::Byte, value@ as u16),
    {
        self.write(operand, Width::Byte, value.as_u16())
    }

    /// Fetches the next instruction word through `(PC)+`.
    fn next_opcode(&mut self) -> (r: Result<Word, Fault>)
        requires
            old(self).wf(),
        ensures
            final(self).wf(),
            final(self)@ == read_operand(old(self)@, Operand::pc_spec(), Width::Word).0,
            match r {
                Ok(w) => read_operand(old(self)@, Operand::pc_spec(), Width::Word).1 == Ok::<
                    u16,
                    Fault,
                >(w@),
                Err(f) => read_operand(old(self)@, Operand::pc_spec(), Width::Word).1 == Err::<
                    u16,
                    Fault,
                >(f),
            },
    {
        self.word(Operand::pc())
    }

    fn halt(&mut self) -> (r: Result<(), Fault>)
        ensures
            (final(self)@, r) == execute(old(self)@, Instruction::Halt),
    {
        self.halt = true;
        Ok(())
    }

    fn wait(&mut self) -> (r: Result<(), Fault>)
        ensures
            (final(self)@, r) == execute(old(self)@, Instruction::Wait),
    {
        self.halt = true;
        Ok(())
    }

    /// Installs the bootstrap at its start address and points PC one word
    /// past it.
    pub fn bootrom(&mut self)
        requires
            old(self).wf(),
        ensures
            final(self).wf(),
            final(self)@ == (CpuState {
                regs: old(self)@.regs.update(7, (BOOTROM_START + 2) as u16),
                mem: MemState {
                    words: Seq::new(
                        MEMORY_WORDS as nat,
                        |i: int|
                            if BOOTROM_START / 2 <= i < BOOTROM_START / 2 + BOOTROM_WORDS {
                                boot_rom()[i - BOOTROM_START / 2]
                            } else {
                                old(self)@.mem.words[i]
                            },
                    ),
                    ..old(self)@.mem
                },
                ..old(self)@
            }),
    {
        let rom = boot_rom_words();
        let ghost start = self@;
        let mut k: usize = 0;
        while k < BOOTROM_WORDS
            invariant
                k <= BOOTROM_WORDS,
                rom@ == boot_rom(),
                self.wf(),
                self@.halted == start.halted,
                self@.regs == start.regs,
                self@.psw == start.psw,
                self@.mem.rk == start.mem.rk,
                self@.mem.words == Seq::new(
                    MEMORY_WORDS as nat,
                    |i: int|
                        if BOOTROM_START / 2 <= i < BOOTROM_START / 2 + k {
                            boot_rom()[i - BOOTROM_START / 2]
                        } else {
                            start.mem.words[i]
                        },
                ),
            decreases BOOTROM_WORDS - k,
        {
            let address = BOOTROM_START + 2 * (k as u16);
            self.ram.word_mut(Address::from_u16(address), Word::from_u16(rom[k]));
            k += 1;
            assert(self@.mem.words =~= Seq::new(
                MEMORY_WORDS as nat,
                |i: int|
                    if BOOTROM_START / 2 <= i < BOOTROM_START / 2 + k {
                        boot_rom()[i - BOOTROM_START / 2]
                    } else {
                        start.mem.words[i]
                    },
            ));
        }
        self.registers.set(Register::PC, Word::from_u16(BOOTROM_START + 2));
    }

    /// Re-initialises the machine: running, registers, status and memory
    /// cleared, the disk controller's registers cleared, the bootstrap
    /// installed.
    pub fn reset(&mut self) -> (r: Result<(), Fault>)
        requires
            old(self).wf(),
        ensures
            final(self).wf(),
            (final(self)@, r) == execute(old(self)@, Instruction::Reset),
    {
        self.halt = false;
        self.registers.reset();
        self.psw.reset();
        self.ram.reset();
        self.bootrom();
        assert(self@.mem.words =~= booted_words());
        assert(self@.regs =~= crate::machine::booted_registers());
        Ok(())
    }

    fn clr(&mut self, dst: Operand) -> (r: Result<(), Fault>)
        requires
            old(self).wf(),
        ensures
            final(self).wf(),
            (final(self)@, r) == execute(old(self)@, Instruction::Clr(dst)),
    {
        let r = self.write(dst, Width::Word, 0);
        if r.is_ok() {
            self.psw.set_nzvc(false, true, false, false);
        }
        r
    }

    #[verifier::rlimit(40)]
    fn asl(&mut self, operand: Operand) -> (r: Result<(), Fault>)
        requires
            old(self).wf(),
        ensures
            final(self).wf(),
            (final(self)@, r) == execute(old(self)@, Instruction::Asl(operand)),
    {
        match self.resolve(operand, Width::Word) {
            Err(f) => Err(f),
            Ok(location) => match self.load(location, Width::Word) {
                Err(f) => Err(f),
                Ok(v) => {
                    let shifted = v.wrapping_add(v);
                    assert(shifted == wrap(v * 2));
                    self.store(location, Width::Word, shifted)
                },
            },
        }
    }

    fn jmp(&mut self, src: Operand) -> (r: Result<(), Fault>)
        requires
            old(self).wf(),
        ensures
            final(self).wf(),
            (final(self)@, r) == execute(old(self)@, Instruction::Jmp(src)),
    {
        if src.mode == RegisterAddressingMode::Register {
            return Err(Fault::IllegalMode(src));
        }
        match self.resolve(src, Width::Word) {
            Err(f) => Err(f),
            Ok(Location::Memory(a)) => {
                self.registers.set(Register::PC, Word::from_u16(a));
                Ok(())
            },
            Ok(Location::Register(_)) => Ok(()),
        }
    }

    #[verifier::rlimit(40)]
    fn swab(&mut self, dst: Operand) -> (r: Result<(), Fault>)
        requires
            old(self).wf(),
        ensures
            final(self).wf(),
            (final(self)@, r) == execute(old(self)@, Instruction::Swab(dst)),
    {
        match self.resolve(dst, Width::Word) {
            Err(f) => Err(f),
            Ok(location) => match self.load(location, Width::Word) {
                Err(f) => Err(f),
                Ok(v) => {
                    let swapped = Word::from_u16(v).swab();
                    let r = self.store(location, Width::Word, swapped.as_u16());
                    if r.is_ok() {
                        let low = swapped.byte(0);
                        self.psw.set_nzvc(low.is_negative(), low.is_zero(), false, false);
                    }
                    r
                },
            },
        }
    }

    fn tst(&mut self, src: Operand) -> (r: Result<(), Fault>)
        requires
            old(self).wf(),
        ensures
            final(self).wf(),
            (final(self)@, r) == execute(old(self)@, Instruction::Tst(src)),
    {
        match self.word(src) {
            Err(f) => Err(f),
            Ok(w) => {
                self.psw.set_nzvc(w.is_negative(), w.is_zero(), false, false);
                Ok(())
            },
        }
    }

    fn tstb(&mut self, src: Operand) -> (r: Result<(), Fault>)
        requires
            old(self).wf(),
        ensures
            final(self).wf(),
            (final(self)@, r) == execute(old(self)@, Instruction::Tstb(src)),
    {
        match self.byte(src) {
            Err(f) => Err(f),
            Ok(b) => {
                self.psw.set_nzvc(b.is_negative(), b.is_zero(), false, false);
                Ok(())
            },
        }
    }

    fn mov(&mut self, src: Operand, dst: Operand) -> (r: Result<(), Fault>)
        requires
            old(self).wf(),
        ensures
            final(self).wf(),
            (final(self)@, r) == execute(old(self)@, Instruction::Mov(src, dst)),
    {
        match self.word(src) {
            Err(f) => Err(f),
            Ok(w) => match self.word_mut(dst, w) {
                Err(f) => Err(f),
                Ok(()) => {
                    let carry = self.psw.flag(Flags::C);
                    self.psw.set_nzvc(w.is_negative(), w.is_zero(), false, carry);
                    Ok(())
                },
            },
        }
    }

    fn cmp(&mut self, src: Operand, dst: Operand) -> (r: Result<(), Fault>)
        requires
            old(self).wf(),
        ensures
            final(self).wf(),
            (final(self)@, r) == execute(old(self)@, Instruction::Cmp(src, dst)),
    {
        match self.read(src, Width::Word) {
            Err(f) => Err(f),
            Ok(a) => match self.read(dst, Width::Word) {
                Err(f) => Err(f),
                Ok(b) => {
                    let (n, z, v, c) = compare_flags(a, b);
                    self.psw.set_nzvc(n, z, v, c);
                    Ok(())
                },
            },
        }
    }

    fn bit(&mut self, src: Operand, dst: Operand) -> (r: Result<(), Fault>)
        requires
            old(self).wf(),
        ensures
            final(self).wf(),
            (final(self)@, r) == execute(old(self)@, Instruction::Bit(src, dst)),
    {
        match self.word(src) {
            Err(f) => Err(f),
            Ok(a) => match self.word(dst) {
                Err(f) => Err(f),
                Ok(b) => {
                    let m = a.bitand(b);
                    let carry = self.psw.flag(Flags::C);
                    self.psw.set_nzvc(m.is_negative(), m.is_zero(), false, carry);
                    Ok(())
                },
            },
        }
    }

    fn bpl(&mut self, offset: Offset) -> (r: Result<(), Fault>)
        requires
            old(self).wf(),
        ensures
            final(self).wf(),
            (final(self)@, r) == execute(old(self)@, Instruction::Bpl(offset)),
    {
        if !self.psw.flag(Flags::N) {
            let pc = self.registers.get(Register::PC).as_u16();
            let target: i32 = pc as i32 + 2 * (offset.0 as i32);
            let wrapped: u16 = if target < 0 {
                (target + 0x10000) as u16
            } else if target >= 0x10000 {
                (target - 0x10000) as u16
            } else {
                target as u16
            };
            self.registers.set(Register::PC, Word::from_u16(wrapped));
        }
        Ok(())
    }

    /// Carries out one decoded instruction.
    pub fn execute(&mut self, instruction: Instruction) -> (r: Result<(), Fault>)
        requires
            old(self).wf(),
        ensures
            final(self).wf(),
            (final(self)@, r) == execute(old(self)@, instruction),
    {
        match instruction {
            Instruction::Halt => self.halt(),
            Instruction::Wait => self.wait(),
            Instruction::Reset => self.reset(),
            Instruction::Clr(dst) => self.clr(dst),
            Instruction::Asl(operand) => self.asl(operand),
            Instruction::Jmp(src) => self.jmp(src),
            Instruction::Swab(dst) => self.swab(dst),
            Instruction::Tst(src) => self.tst(src),
            Instruction::Mov(src, dst) => self.mov(src, dst),
            Instruction::Cmp(src, dst) => self.cmp(src, dst),
            Instruction::Bit(src, dst) => self.bit(src, dst),
            Instruction::Bpl(offset) => self.bpl(offset),
            Instruction::Tstb(src) => self.tstb(src),
            Instruction::Invalid(_) => Ok(()),
        }
    }

    /// Fetches, decodes and carries out one instruction. A halted processor
    /// does nothing; a fault halts it.
    pub fn step(&mut self) -> (r: StepEvent)
        requires
            old(self).wf(),
        ensures
            final(self).wf(),
            (final(self)@, r) == step(old(self)@),
    {
        if self.halt {
            return StepEvent::Idle;
        }
        match self.next_opcode() {
            Err(f) => {
                self.halt = true;
                StepEvent::Faulted(f)
            },
            Ok(word) => {
                let opcode = word.as_u16();
                let instruction = Instruction::decode(opcode);
                match self.execute(instruction) {
                    Err(f) => {
                        self.halt = true;
                        StepEvent::Faulted(f)
                    },
                    Ok(()) => StepEvent::Executed(opcode, instruction),
                }
            },
        }
    }

    /// Resets the machine, then runs it until it halts or `max_steps`
    /// instructions have run; gives the number of steps taken.
    pub fn poweron(&mut self, max_steps: u64) -> (steps: u64)
        requires
            old(self).wf(),
        ensures
            final(self).wf(),
            steps <= max_steps,
            final(self)@ == run(reset_state(old(self)@), steps as nat),
            final(self)@.halted || steps == max_steps,
            forall|k: nat| k < steps ==> !(#[trigger] run(reset_state(old(self)@), k)).halted,
    {
        self.reset();
        let ghost start = self@;
        let mut steps: u64 = 0;
        while !self.halt && steps < max_steps
            invariant
                self.wf(),
                steps <= max_steps,
                start == reset_state(old(self)@),
                self@ == run(start, steps as nat),
                forall|k: nat| k < steps ==> !(#[trigger] run(start, k)).halted,
            decreases max_steps - steps,
        {
            self.step();
            steps += 1;
        }
        steps
    }
}

} // verus!
