use vstd::prelude::*;

verus! {

/// Byte address at which the bootstrap is installed.
pub const BOOTROM_START: u16 = 0o2000;

/// Number of words in the bootstrap.
pub const BOOTROM_WORDS: usize = 29;

/// The PAL-11 bootstrap: it sets up SP, has the RK11 read from unit 0,
/// block 0 into address 0, waits for Control Ready and jumps to address 0.
pub open spec fn boot_rom() -> Seq<u16> {
    seq![
        0o042113u16, 0o012706, 0o002000, 0o012700, 0o000000, 0o010003, 0o000303, 0o006303,
        0o006303, 0o006303, 0o006303, 0o006303, 0o012701, 0o177412, 0o010311, 0o005041,
        0o012741, 0o177000, 0o012741, 0o000005, 0o005002, 0o005003, 0o012704, 0o002020,
        0o005005, 0o105711, 0o100376, 0o105011, 0o005007,
    ]
}

/// The bootstrap's words, in order.
pub fn boot_rom_words() -> (r: [u16; 29])
    ensures
        r@ == boot_rom(),
{
    let r: [u16; 29] = [
        0o042113, // "KD"
        0o012706, // MOV #boot_start, SP
        0o002000,
        0o012700, // MOV #unit, R0
        0o000000,
        0o010003, // MOV R0, R3
        0o000303, // SWAB R3
        0o006303, // ASL R3
        0o006303, // ASL R3
        0o006303, // ASL R3
        0o006303, // ASL R3
        0o006303, // ASL R3
        0o012701, // MOV #RKDA, R1
        0o177412,
        0o010311, // MOV R3, (R1)
        0o005041, // CLR -(R1)
        0o012741, // MOV #-256.*2, -(R1)
        0o177000,
        0o012741, // MOV #READ+GO, -(R1)
        0o000005,
        0o005002, // CLR R2
        0o005003, // CLR R3
        0o012704, // MOV #START+20, R4
        0o002020,
        0o005005, // CLR R5
        0o105711, // TSTB (R1)
        0o100376, // BPL .-2
        0o105011, // CLRB (R1)
        0o005007, // CLR PC
    ];
    assert(r@ =~= boot_rom());
    r
}

} // verus!
