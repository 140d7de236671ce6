use pdp11::{
    Address, Byte, Cpu, Fault, Flags, Instruction, Location, MemoryAcceess, Offset, Operand,
    ProcessorStatusWord, Ram, Register, RegisterAddressingMode, Registers, Rk, Width, Word,
};

fn running_cpu() -> Cpu {
    let mut cpu = Cpu::new(Vec::new());
    cpu.reset().unwrap();
    cpu
}

fn op(mode: RegisterAddressingMode, register: Register) -> Operand {
    Operand { mode, register }
}

fn run_at(cpu: &mut Cpu, words: &[u16]) {
    for (i, w) in words.iter().enumerate() {
        assert!(cpu.set_memory_word(0o3000 + 2 * i as u16, Word::from_u16(*w)));
    }
    cpu.set_register(Register::PC, Word::from_u16(0o3000));
}

fn reg(cpu: &Cpu, r: Register) -> u16 {
    cpu.register(r).as_u16()
}

#[test]
fn cmp_sets_borrow_and_overflow() {
    let mut cpu = running_cpu();
    cpu.set_register(Register::R0, Word::from_u16(1));
    cpu.set_register(Register::R1, Word::from_u16(2));
    let r0 = op(RegisterAddressingMode::Register, Register::R0);
    let r1 = op(RegisterAddressingMode::Register, Register::R1);
    cpu.execute(Instruction::Cmp(r0, r1)).unwrap();
    let psw = cpu.psw();
    assert!(psw.flag(Flags::N) && !psw.flag(Flags::Z) && !psw.flag(Flags::V) && psw.flag(Flags::C));
    cpu.set_register(Register::R0, Word::from_u16(0o100000));
    cpu.set_register(Register::R1, Word::from_u16(1));
    cpu.execute(Instruction::Cmp(r0, r1)).unwrap();
    let psw = cpu.psw();
    assert!(!psw.flag(Flags::N) && !psw.flag(Flags::Z) && psw.flag(Flags::V) && !psw.flag(Flags::C));
    // the operands are left as they were
    assert_eq!(reg(&cpu, Register::R0), 0o100000);
    assert_eq!(reg(&cpu, Register::R1), 1);
}

#[test]
fn bit_tests_common_bits_and_keeps_carry() {
    let mut cpu = running_cpu();
    let r0 = op(RegisterAddressingMode::Register, Register::R0);
    let r1 = op(RegisterAddressingMode::Register, Register::R1);
    cpu.set_register(Register::R0, Word::from_u16(1));
    cpu.set_register(Register::R1, Word::from_u16(2));
    cpu.execute(Instruction::Cmp(r0, r1)).unwrap();
    assert!(cpu.psw().flag(Flags::C));
    cpu.set_register(Register::R0, Word::from_u16(0o170000));
    cpu.set_register(Register::R1, Word::from_u16(0o110000));
    cpu.execute(Instruction::Bit(r0, r1)).unwrap();
    let psw = cpu.psw();
    assert!(psw.flag(Flags::N) && !psw.flag(Flags::Z) && !psw.flag(Flags::V) && psw.flag(Flags::C));
    cpu.set_register(Register::R1, Word::from_u16(0o007777));
    cpu.execute(Instruction::Bit(r0, r1)).unwrap();
    assert!(cpu.psw().flag(Flags::Z));
}

#[test]
fn asl_shifts_left_and_drops_bit_15() {
    let mut cpu = running_cpu();
    cpu.set_register(Register::R3, Word::from_u16(0o140001));
    cpu.execute(Instruction::Asl(op(RegisterAddressingMode::Register, Register::R3))).unwrap();
    assert_eq!(reg(&cpu, Register::R3), 0o100002);
}

#[test]
fn asl_evaluates_its_operand_once() {
    let mut cpu = running_cpu();
    cpu.set_memory_word(0o4000, Word::from_u16(3));
    cpu.set_register(Register::R2, Word::from_u16(0o4000));
    cpu.execute(Instruction::Asl(op(RegisterAddressingMode::Autoincrement, Register::R2))).unwrap();
    assert_eq!(cpu.memory_word(0o4000).unwrap().as_u16(), 6);
    assert_eq!(reg(&cpu, Register::R2), 0o4002);
}

#[test]
fn jmp_deferred_and_relative() {
    let mut cpu = running_cpu();
    cpu.set_register(Register::R2, Word::from_u16(0o4000));
    run_at(&mut cpu, &[0o000112]);
    cpu.step();
    assert_eq!(reg(&cpu, Register::PC), 0o4000);
    let mut cpu = running_cpu();
    run_at(&mut cpu, &[0o000167, 0o000100]);
    cpu.step();
    assert_eq!(reg(&cpu, Register::PC), 0o3004 + 0o100);
}

#[test]
fn index_modes() {
    let mut cpu = running_cpu();
    cpu.set_register(Register::R1, Word::from_u16(0o4000));
    cpu.set_memory_word(0o4010, Word::from_u16(0o4100));
    cpu.set_memory_word(0o4100, Word::from_u16(0o777));
    // MOV 10(R1), R0
    run_at(&mut cpu, &[0o016100, 0o000010]);
    cpu.step();
    assert_eq!(reg(&cpu, Register::R0), 0o4100);
    assert_eq!(reg(&cpu, Register::PC), 0o3004);
    // MOV @10(R1), R0
    run_at(&mut cpu, &[0o017100, 0o000010]);
    cpu.step();
    assert_eq!(reg(&cpu, Register::R0), 0o777);
    assert_eq!(reg(&cpu, Register::PC), 0o3004);
}

#[test]
fn deferred_increment_and_decrement() {
    let mut cpu = running_cpu();
    cpu.set_memory_word(0o4000, Word::from_u16(0o4100));
    cpu.set_memory_word(0o4100, Word::from_u16(0o1234));
    cpu.set_register(Register::R1, Word::from_u16(0o4000));
    // MOV @(R1)+, R0
    run_at(&mut cpu, &[0o013100]);
    cpu.step();
    assert_eq!(reg(&cpu, Register::R0), 0o1234);
    assert_eq!(reg(&cpu, Register::R1), 0o4002);
    // MOV @-(R1), R2
    run_at(&mut cpu, &[0o015102]);
    cpu.step();
    assert_eq!(reg(&cpu, Register::R2), 0o1234);
    assert_eq!(reg(&cpu, Register::R1), 0o4000);
}

#[test]
fn tstb_reads_a_byte() {
    let mut cpu = running_cpu();
    cpu.set_memory_word(0o4000, Word::from_u16(0o100000));
    cpu.set_register(Register::R1, Word::from_u16(0o4001));
    cpu.execute(Instruction::Tstb(op(RegisterAddressingMode::Autoincrement, Register::R1))).unwrap();
    assert!(cpu.psw().flag(Flags::N));
    assert!(!cpu.psw().flag(Flags::Z));
    assert_eq!(reg(&cpu, Register::R1), 0o4002);
    cpu.set_register(Register::R1, Word::from_u16(0o4000));
    cpu.execute(Instruction::Tstb(op(RegisterAddressingMode::RegisterDeferred, Register::R1))).unwrap();
    assert!(cpu.psw().flag(Flags::Z));
    assert!(!cpu.psw().flag(Flags::N));
}

#[test]
fn tst_sets_zero_from_value() {
    let mut cpu = running_cpu();
    cpu.set_register(Register::R0, Word::from_u16(0o100000));
    cpu.execute(Instruction::Tst(op(RegisterAddressingMode::Register, Register::R0))).unwrap();
    assert!(cpu.psw().flag(Flags::N));
    assert!(!cpu.psw().flag(Flags::Z));
}

#[test]
fn bpl_not_taken_when_negative() {
    let mut cpu = running_cpu();
    cpu.set_register(Register::R0, Word::from_u16(0o100000));
    run_at(&mut cpu, &[0o005700, 0o100376]);
    cpu.step();
    cpu.step();
    assert_eq!(reg(&cpu, Register::PC), 0o3004);
    let mut cpu = running_cpu();
    run_at(&mut cpu, &[0o100005]);
    cpu.step();
    assert_eq!(reg(&cpu, Register::PC), 0o3002 + 10);
}

#[test]
fn odd_word_operand_faults() {
    let mut cpu = running_cpu();
    cpu.set_register(Register::R1, Word::from_u16(0o4001));
    let r = cpu.execute(Instruction::Tst(op(RegisterAddressingMode::RegisterDeferred, Register::R1)));
    assert_eq!(r, Err(Fault::OddAddress(0o4001)));
    let r = cpu.execute(Instruction::Tst(op(RegisterAddressingMode::AutoincrementDeferred, Register::R1)));
    assert_eq!(r, Err(Fault::OddAddress(0o4001)));
    assert_eq!(reg(&cpu, Register::R1), 0o4001);
}

#[test]
fn byte_store_to_register_keeps_high_byte() {
    let mut cpu = running_cpu();
    cpu.set_register(Register::R0, Word::from_u16(0o177777));
    cpu.byte_mut(op(RegisterAddressingMode::Register, Register::R0), Byte::from_u8(0)).unwrap();
    assert_eq!(reg(&cpu, Register::R0), 0o177400);
    cpu.set_memory_word(0o4000, Word::from_u16(0x1234));
    cpu.set_register(Register::R1, Word::from_u16(0o4001));
    cpu.byte_mut(op(RegisterAddressingMode::RegisterDeferred, Register::R1), Byte::from_u8(0xab)).unwrap();
    assert_eq!(cpu.memory_word(0o4000).unwrap().as_u16(), 0xab34);
    assert_eq!(cpu.byte(op(RegisterAddressingMode::RegisterDeferred, Register::R1)).unwrap().as_u8(), 0xab);
}

#[test]
fn load_and_store_locations() {
    let mut cpu = running_cpu();
    assert_eq!(cpu.store(Location::Memory(0o4002), Width::Word, 0o7070), Ok(()));
    assert_eq!(cpu.load(Location::Memory(0o4002), Width::Word), Ok(0o7070));
    assert_eq!(cpu.load(Location::Memory(0o4003), Width::Byte), Ok(0o7070 >> 8));
    assert_eq!(cpu.load(Location::Memory(0o4003), Width::Word), Err(Fault::OddAddress(0o4003)));
    assert_eq!(cpu.store(Location::Memory(0o4003), Width::Word, 1), Err(Fault::OddAddress(0o4003)));
    cpu.set_register(Register::R5, Word::from_u16(0o1777));
    assert_eq!(cpu.load(Location::Register(Register::R5), Width::Byte), Ok(0o377));
}


#[test]
fn reset_installs_bootstrap() {
    let mut cpu = running_cpu();
    assert!(!cpu.is_halted());
    assert_eq!(reg(&cpu, Register::PC), 0o2002);
    assert_eq!(reg(&cpu, Register::SP), 0);
    assert_eq!(cpu.memory_word(0o2000).unwrap().as_u16(), 0o042113);
    assert_eq!(cpu.memory_word(0o2002).unwrap().as_u16(), 0o012706);
    assert_eq!(cpu.memory_word(0o2070).unwrap().as_u16(), 0o005007);
    assert_eq!(cpu.memory_word(0o2072).unwrap().as_u16(), 0);
    cpu.set_memory_word(0o100, Word::from_u16(5));
    cpu.set_register(Register::R3, Word::from_u16(5));
    run_at(&mut cpu, &[0o000005]);
    cpu.step();
    assert_eq!(cpu.memory_word(0o100).unwrap().as_u16(), 0);
    assert_eq!(reg(&cpu, Register::R3), 0);
    assert_eq!(reg(&cpu, Register::PC), 0o2002);
    assert_eq!(cpu.memory_word(0o3000).unwrap().as_u16(), 0);
}

#[test]
fn rk_registers_and_sector_read() {
    let mut image = vec![0u8; 1024];
    image[512] = 0x11;
    image[513] = 0x22;
    let mut cpu = Cpu::new(image);
    cpu.reset().unwrap();
    // read-only status registers ignore writes
    cpu.set_memory_word(0o177400, Word::from_u16(7));
    assert_eq!(cpu.memory_word(0o177400).unwrap().as_u16(), 0);
    cpu.set_memory_word(0o177412, Word::from_u16(1));
    cpu.set_memory_word(0o177410, Word::from_u16(0o4000));
    cpu.set_memory_word(0o177406, Word::from_u16(0o177776));
    assert_eq!(cpu.memory_word(0o177406).unwrap().as_u16(), 0o177776);
    cpu.set_memory_word(0o177404, Word::from_u16(5));
    assert_eq!(cpu.memory_word(0o4000).unwrap().as_u16(), 0x2211);
    assert_eq!(cpu.memory_word(0o4002).unwrap().as_u16(), 0);
    assert_eq!(cpu.memory_word(0o177404).unwrap().as_u16(), 0o204);
    // a write without GO only stores the value
    cpu.set_memory_word(0o177404, Word::from_u16(4));
    assert_eq!(cpu.memory_word(0o177404).unwrap().as_u16(), 4);
}

#[test]
fn ram_word_and_byte_access() {
    let mut ram = Ram::new();
    assert!(ram.word_mut(Address::from_u16(0o100), Word::from_u16(0x1234)));
    assert!(!ram.word_mut(Address::from_u16(0o101), Word::from_u16(1)));
    assert_eq!(ram.word(Address::from_u16(0o100)), Some(Word::from_u16(0x1234)));
    assert_eq!(ram.word(Address::from_u16(0o101)), None);
    assert_eq!(ram.byte(Address::from_u16(0o100)).as_u8(), 0x34);
    assert_eq!(ram.byte(Address::from_u16(0o101)).as_u8(), 0x12);
    ram.byte_mut(Address::from_u16(0o100), Byte::from_u8(0xcd));
    assert_eq!(ram.word(Address::from_u16(0o100)), Some(Word::from_u16(0x12cd)));
    ram.reset();
    assert_eq!(ram.word(Address::from_u16(0o100)), Some(Word::zero()));
    let mut ram = Ram::with_disk(Rk::with_image(vec![1, 2]));
    assert!(ram.word_mut(Address::from_u16(0o177406), Word::from_u16(0o177777)));
    assert!(ram.word_mut(Address::from_u16(0o177404), Word::from_u16(5)));
    assert_eq!(ram.word(Address::from_u16(0)), Some(Word::from_u16(0x0201)));
}

#[test]
fn word_operations() {
    let w = Word::from_u16(0xa55a);
    assert_eq!(w.as_u16(), 0xa55a);
    assert_eq!(w.as_usize(), 0xa55a);
    assert_eq!(w.to_le_bytes(), [0x5a, 0xa5]);
    assert_eq!(Word::from_le_bytes([0x5a, 0xa5]), w);
    assert_eq!(w.byte(0).as_u8(), 0x5a);
    assert_eq!(w.byte(1).as_u8(), 0xa5);
    assert_eq!(w.with_byte(1, Byte::from_u8(0x01)).as_u16(), 0x015a);
    assert_eq!(w.with_byte(0, Byte::from_u8(0x01)).as_u16(), 0xa501);
    assert_eq!(w.bitand(Word::from_u16(0x0ff0)).as_u16(), 0x0550);
    assert!(w.is_negative());
    assert!(!w.is_zero());
    assert!(Word::zero().is_zero());
    let mut x = Word::from_u16(0xffff);
    x.add_assign(2);
    assert_eq!(x.as_u16(), 1);
    x.sub_assign(3);
    assert_eq!(x.as_u16(), 0xfffe);
    assert_eq!(Word::from_u16(0o100).address_range::<Word>(), 0o100..0o102);
    assert_eq!(Word::from_u16(0o100).address_range::<Byte>(), 0o100..0o101);
    let a: Address<Byte> = Word::from_u16(0o1003).address();
    assert_eq!(a.as_u16(), 0o1003);
    assert_eq!(a.word_index(), 0o401);
    assert_eq!(a.byte_index(), (0o401, 1));
    assert_eq!(a.range(), 0o1003..0o1004);
    assert_eq!(Word::size(), 2);
    assert_eq!(Byte::size(), 1);
}

#[test]
fn byte_operations() {
    let b = Byte::from_u8(0x80);
    assert_eq!(b.as_u8(), 0x80);
    assert_eq!(b.as_u16(), 0x80);
    assert_eq!(b.sign_extend(), 0xff80);
    assert_eq!(Byte::from_u8(0x7f).sign_extend(), 0x7f);
    assert!(b.is_negative());
    assert!(!Byte::from_u8(0x7f).is_negative());
    assert_eq!(b.bitand(Byte::from_u8(0xc0)).as_u8(), 0x80);
    let mut c = Byte::from_u8(9);
    c.clear();
    assert!(c.is_zero());
    assert_eq!(Byte::zero(), c);
}

#[test]
fn registers_step_pc_by_words() {
    let mut regs = Registers::new();
    regs.set(Register::PC, Word::from_u16(0o1000));
    assert_eq!(regs.get_inc::<Byte>(Register::PC).as_u16(), 0o1000);
    assert_eq!(regs.get(Register::PC).as_u16(), 0o1002);
    assert_eq!(regs.dec_get::<Byte>(Register::PC).as_u16(), 0o1000);
    regs.set(Register::R5, Word::from_u16(0o1000));
    assert_eq!(regs.dec_get::<Byte>(Register::R5).as_u16(), 0o777);
    assert_eq!(regs.dec_get::<Word>(Register::R5).as_u16(), 0o775);
    assert_eq!(regs.get_inc::<Word>(Register::R5).as_u16(), 0o775);
    assert_eq!(regs.get(Register::R5).as_u16(), 0o777);
    regs.reset();
    assert_eq!(regs.get(Register::R5).as_u16(), 0);
    assert_eq!(Register::from_code(6), Register::SP);
    assert_eq!(Register::SP.as_str(), "SP");
    assert_eq!(Register::R3.as_str(), "R3");
    assert_eq!(Register::PC.index(), 7);
    assert_eq!(RegisterAddressingMode::from_code(5), RegisterAddressingMode::AutodecrementDeferred);
}

#[test]
fn psw_flags() {
    let mut psw = ProcessorStatusWord::new();
    psw.set_flag(Flags::C, true);
    psw.set_flag(Flags::N, true);
    assert!(psw.flag(Flags::C) && psw.flag(Flags::N) && !psw.flag(Flags::Z));
    psw.clear_flags();
    assert!(!psw.flag(Flags::C) && !psw.flag(Flags::N));
    psw.set_nzvc(false, true, true, false);
    assert!(psw.flag(Flags::Z) && psw.flag(Flags::V));
    psw.reset();
    assert!(!psw.flag(Flags::Z) && !psw.trap());
    assert_eq!(psw.ipl(), 0);
}

#[test]
fn disassembly() {
    assert_eq!(Instruction::decode(0o012700).disassemble(), "MOV\t(PC)+, R0");
    assert_eq!(Instruction::decode(0o005041).disassemble(), "CLR\t-(R1)");
    assert_eq!(Instruction::decode(0o100376).disassemble(), "BPL\t.-2");
    assert_eq!(Instruction::Bpl(Offset(-128)).disassemble(), "BPL\t.-128");
    assert_eq!(Instruction::Bpl(Offset(0)).disassemble(), "BPL\t.+0");
    assert_eq!(Instruction::Bpl(Offset(127)).disassemble(), "BPL\t.+127");
    assert_eq!(Instruction::decode(0o000171).disassemble(), "JMP\t@X(R1)");
    assert_eq!(Instruction::decode(0o105711).disassemble(), "TSTB\t(R1)");
    assert_eq!(Instruction::decode(0o000303).disassemble(), "SWAB\tR3");
    assert_eq!(Instruction::decode(0o006337).disassemble(), "ASL\t@(PC)+");
    assert_eq!(Instruction::decode(0o025665).disassemble(), "CMP\t@-(SP), X(R5)");
    assert_eq!(Instruction::decode(0o030261).disassemble(), "BIT\tR2, X(R1)");
    assert_eq!(Instruction::decode(0o005007).disassemble(), "CLR\tPC");
    assert_eq!(Instruction::decode(0o005700).disassemble(), "TST\tR0");
    assert_eq!(Instruction::Halt.disassemble(), "HALT");
    assert_eq!(Instruction::Wait.disassemble(), "WAIT");
    assert_eq!(Instruction::Reset.disassemble(), "RESET");
    assert_eq!(Instruction::Invalid(2).disassemble(), "Invalid opcode 0o000002");
    assert_eq!(op(RegisterAddressingMode::AutoincrementDeferred, Register::SP).disassemble(), "@(SP)+");
    assert_eq!(Offset(-5).disassemble(), ".-5");
}
