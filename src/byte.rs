use vstd::prelude::*;

use crate::access::MemoryAcceess;

verus! {

/// Bit 7, the sign of a byte.
pub open spec fn byte_sign(b: u8) -> bool {
    b >= 0x80
}

/// A byte widened to 16 bits with its sign bit copied into the high byte.
pub open spec fn sign_extended(b: u8) -> u16 {
    if byte_sign(b) {
        (b + 0xff00) as u16
    } else {
        b as u16
    }
}

/// An 8-bit machine byte.
#[derive(Clone, Copy, Debug, PartialEq, Eq, Structural)]
pub struct Byte {
    value: u8,
}

impl View for Byte {
    type V = u8;

    closed spec fn view(&self) -> u8 {
        self.value
    }
}

impl Byte {
    pub fn zero() -> (r: Byte)
        ensures
            r@ == 0,
    {
        Byte { value: 0 }
    }

    pub fn from_u8(value: u8) -> (r: Byte)
        ensures
            r@ == value,
    {
        Byte { value }
    }

    pub fn as_u8(&self) -> (r: u8)
        ensures
            r == self@,
    {
        self.value
    }

    /// The byte widened to 16 bits with zeros.
    pub fn as_u16(&self) -> (r: u16)
        ensures
            r == self@ as u16,
    {
        self.value as u16
    }

    /// The byte widened to 16 bits with its sign.
    pub fn sign_extend(&self) -> (r: u16)
        ensures
            r == sign_extended(self@),
    {
        if self.value >= 0x80 {
            self.value as u16 + 0xff00
        } else {
            self.value as u16
        }
    }

    pub fn clear(&mut self)
        ensures
            final(self)@ == 0,
    {
        self.value = 0;
    }

    pub fn bitand(&self, rhs: Byte) -> (r: Byte)
        ensures
            r@ == self@ & rhs@,
    {
        Byte { value: self.value & rhs.value }
    }
}

impl MemoryAcceess for Byte {
    open spec fn spec_size() -> nat {
        1
    }

    fn size() -> (r: u16) {
        1
    }

    open spec fn spec_is_zero(&self) -> bool {
        self@ == 0
    }

    open spec fn spec_is_negative(&self) -> bool {
        byte_sign(self@)
    }

    fn is_zero(&self) -> (r: bool) {
        self.value == 0
    }

    fn is_negative(&self) -> (r: bool) {
        self.value >= 0x80
    }
}

} // verus!
