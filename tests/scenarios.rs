use pdp11::{Cpu, Flags, Instruction, Register, StepEvent, Word};

fn running_cpu() -> Cpu {
    let mut cpu = Cpu::new(Vec::new());
    cpu.reset().unwrap();
    cpu
}

fn poke(cpu: &mut Cpu, address: u16, value: u16) {
    assert!(cpu.set_memory_word(address, Word::from_u16(value)));
}

fn peek(cpu: &Cpu, address: u16) -> u16 {
    cpu.memory_word(address).unwrap().as_u16()
}

fn reg(cpu: &Cpu, r: Register) -> u16 {
    cpu.register(r).as_u16()
}

#[test]
fn immediate_mov() {
    let mut cpu = running_cpu();
    cpu.set_register(Register::R0, Word::from_u16(0o1234));
    poke(&mut cpu, 0o2000, 0o012700);
    poke(&mut cpu, 0o2002, 0o000000);
    cpu.set_register(Register::PC, Word::from_u16(0o2000));
    cpu.step();
    assert_eq!(reg(&cpu, Register::R0), 0);
    assert_eq!(reg(&cpu, Register::PC), 0o2004);
    let psw = cpu.psw();
    assert!(psw.flag(Flags::Z));
    assert!(!psw.flag(Flags::N));
    assert!(!psw.flag(Flags::V));
}

#[test]
fn autoincrement_chain() {
    let mut cpu = running_cpu();
    cpu.set_register(Register::R1, Word::from_u16(0o1000));
    poke(&mut cpu, 0o1000, 0o000001);
    poke(&mut cpu, 0o1002, 0o000002);
    poke(&mut cpu, 0o2000, 0o012102);
    cpu.set_register(Register::PC, Word::from_u16(0o2000));
    cpu.step();
    assert_eq!(reg(&cpu, Register::R2), 1);
    assert_eq!(reg(&cpu, Register::R1), 0o1002);
    assert_eq!(reg(&cpu, Register::PC), 0o2002);
}

#[test]
fn swab_register() {
    let mut cpu = running_cpu();
    cpu.set_register(Register::R0, Word::from_u16(0o000377));
    poke(&mut cpu, 0o2000, 0o000300);
    cpu.set_register(Register::PC, Word::from_u16(0o2000));
    cpu.step();
    assert_eq!(reg(&cpu, Register::R0), 0o177400);
    let psw = cpu.psw();
    assert!(psw.flag(Flags::Z));
    assert!(!psw.flag(Flags::N));
    assert!(!psw.flag(Flags::V));
    assert!(!psw.flag(Flags::C));
}

#[test]
fn tst_then_bpl_loops_back() {
    let mut cpu = running_cpu();
    cpu.set_register(Register::R0, Word::from_u16(0));
    poke(&mut cpu, 0o2000, 0o005700);
    poke(&mut cpu, 0o2002, 0o100376);
    cpu.set_register(Register::PC, Word::from_u16(0o2000));
    cpu.step();
    assert!(cpu.psw().flag(Flags::Z));
    assert!(!cpu.psw().flag(Flags::N));
    assert_eq!(reg(&cpu, Register::PC), 0o2002);
    cpu.step();
    // PC had advanced to 0o2004 past the branch word, then moved back by 4.
    assert_eq!(reg(&cpu, Register::PC), 0o2000);
}

#[test]
fn boot_sequence_reads_block_zero() {
    let mut image = vec![0u8; 512];
    // word 0 is HALT; word 1 is data that the read must bring in.
    image[2] = 0o056;
    image[3] = 0o247;
    let mut cpu = Cpu::new(image);
    assert!(cpu.is_halted());
    let steps = cpu.poweron(10_000);
    assert!(cpu.is_halted());
    assert_eq!(steps, 23);
    assert_eq!(peek(&cpu, 0), 0);
    assert_eq!(peek(&cpu, 2), 0o123456);
    assert_ne!(peek(&cpu, 0o177404) & 0o200, 0);
    assert_eq!(reg(&cpu, Register::PC), 2);
    assert_eq!(reg(&cpu, Register::SP), 0o2000);
    assert_eq!(reg(&cpu, Register::R1), 0o177404);
    assert_eq!(reg(&cpu, Register::R4), 0o2020);
}

#[test]
fn invalid_opcode_is_skipped() {
    let mut cpu = running_cpu();
    poke(&mut cpu, 0o2000, 0o177777);
    cpu.set_register(Register::PC, Word::from_u16(0o2000));
    let event = cpu.step();
    assert_eq!(event, StepEvent::Executed(0o177777, Instruction::Invalid(0o177777)));
    assert_eq!(reg(&cpu, Register::PC), 0o2002);
    assert!(!cpu.is_halted());
    assert_eq!(Instruction::Invalid(0o177777).disassemble(), "Invalid opcode 0o177777");
}

#[test]
fn poweron_stops_at_step_budget() {
    let mut cpu = Cpu::new(vec![0u8; 512]);
    let steps = cpu.poweron(5);
    assert_eq!(steps, 5);
    assert!(!cpu.is_halted());
    // MOV #2000, SP; MOV #0, R0; MOV R0, R3; SWAB R3; ASL R3
    assert_eq!(reg(&cpu, Register::SP), 0o2000);
    assert_eq!(reg(&cpu, Register::PC), 0o2020);
}
