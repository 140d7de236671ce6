use vstd::prelude::*;

verus! {

/// The four condition codes.
#[derive(Clone, Copy, Debug, PartialEq, Eq, Structural)]
pub enum Flags {
    C,
    V,
    Z,
    N,
}

/// What a processor status word holds.
pub struct PswState {
    pub carry: bool,
    pub overflow: bool,
    pub zero: bool,
    pub negative: bool,
    pub trap: bool,
    pub ipl: u8,
}

impl PswState {
    /// Everything clear, priority level 0: the state after a reset.
    pub open spec fn cleared() -> PswState {
        PswState { carry: false, overflow: false, zero: false, negative: false, trap: false, ipl: 0 }
    }

    pub open spec fn flag(self, f: Flags) -> bool {
        match f {
            Flags::C => self.carry,
            Flags::V => self.overflow,
            Flags::Z => self.zero,
            Flags::N => self.negative,
        }
    }

    pub open spec fn with_flag(self, f: Flags, value: bool) -> PswState {
        match f {
            Flags::C => PswState { carry: value, ..self },
            Flags::V => PswState { overflow: value, ..self },
            Flags::Z => PswState { zero: value, ..self },
            Flags::N => PswState { negative: value, ..self },
        }
    }

    /// N and Z set from a result, V and C cleared.
    pub open spec fn with_nzvc(self, n: bool, z: bool, v: bool, c: bool) -> PswState {
        PswState { negative: n, zero: z, overflow: v, carry: c, ..self }
    }
}

/// The processor status word: condition codes N, Z, V, C, the trap bit and
/// the interrupt priority level (0..=7).
#[derive(Clone, Copy, Debug)]
pub struct ProcessorStatusWord {
    carry: bool,
    overflow: bool,
    zero: bool,
    negative: bool,
    trap: bool,
    ipl: u8,
}

impl View for ProcessorStatusWord {
    type V = PswState;

    closed spec fn view(&self) -> PswState {
        PswState {
            carry: self.carry,
            overflow: self.overflow,
            zero: self.zero,
            negative: self.negative,
            trap: self.trap,
            ipl: self.ipl,
        }
    }
}

impl ProcessorStatusWord {
    pub fn new() -> (r: ProcessorStatusWord)
        ensures
            r@ == PswState::cleared(),
    {
        ProcessorStatusWord {
            carry: false,
            overflow: false,
            zero: false,
            negative: false,
            trap: false,
            ipl: 0,
        }
    }

    pub fn reset(&mut self)
        ensures
            final(self)@ == PswState::cleared(),
    {
        *self = ProcessorStatusWord::new();
    }

    /// Clears the four condition codes; the trap bit and priority stay.
    pub fn clear_flags(&mut self)
        ensures
            final(self)@ == old(self)@.with_nzvc(false, false, false, false),
    {
        self.carry = false;
        self.overflow = false;
        self.zero = false;
        self.negative = false;
    }

    pub fn flag(&self, f: Flags) -> (r: bool)
        ensures
            r == self@.flag(f),
    {
        match f {
            Flags::C => self.carry,
            Flags::V => self.overflow,
            Flags::Z => self.zero,
            Flags::N => self.negative,
        }
    }

    pub fn set_flag(&mut self, f: Flags, value: bool)
        ensures
            final(self)@ == old(self)@.with_flag(f, value),
    {
        match f {
            Flags::C => self.carry = value,
            Flags::V => self.overflow = value,
            Flags::Z => self.zero = value,
            Flags::N => self.negative = value,
        }
    }

    /// Sets all four condition codes.
    pub fn set_nzvc(&mut self, n: bool, z: bool, v: bool, c: bool)
        ensures
            final(self)@ == old(self)@.with_nzvc(n, z, v, c),
    {
        self.negative = n;
        self.zero = z;
        self.overflow = v;
        self.carry = c;
    }

    pub fn trap(&self) -> (r: bool)
        ensures
            r == self@.trap,
    {
        self.trap
    }

    pub fn ipl(&self) -> (r: u8)
        ensures
            r == self@.ipl,
    {
        self.ipl
    }
}

} // verus!
