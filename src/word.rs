use vstd::prelude::*;

use crate::access::{Address, MemoryAcceess};
use crate::byte::Byte;
use std::ops::Range;

verus! {

/// An integer reduced modulo 2^16, as 16-bit arithmetic wraps.
pub open spec fn wrap(x: int) -> u16 {
    (x % 0x10000) as u16
}

/// Low byte of a 16-bit value.
pub open spec fn lo_byte(w: u16) -> u8 {
    (w % 256) as u8
}

/// High byte of a 16-bit value.
pub open spec fn hi_byte(w: u16) -> u8 {
    (w / 256) as u8
}

/// The 16-bit value whose low byte is `lo` and whose high byte is `hi`.
pub open spec fn join_bytes(lo: u8, hi: u8) -> u16 {
    (lo + 256 * hi) as u16
}

/// The value with its two bytes exchanged.
pub open spec fn swap_bytes(w: u16) -> u16 {
    join_bytes(hi_byte(w), lo_byte(w))
}

/// Bit 15, the sign of a word.
pub open spec fn word_sign(w: u16) -> bool {
    w >= 0x8000
}

/// A 16-bit machine word. In memory it is little-endian: low byte first.
#[derive(Clone, Copy, Debug, PartialEq, Eq, Structural)]
pub struct Word {
    value: u16,
}

impl View for Word {
    type V = u16;

    closed spec fn view(&self) -> u16 {
        self.value
    }
}

impl Word {
    pub fn zero() -> (r: Word)
        ensures
            r@ == 0,
    {
        Word { value: 0 }
    }

    pub fn from_u16(value: u16) -> (r: Word)
        ensures
            r@ == value,
    {
        Word { value }
    }

    pub fn as_u16(&self) -> (r: u16)
        ensures
            r == self@,
    {
        self.value
    }

    pub fn as_usize(&self) -> (r: usize)
        ensures
            r == self@ as usize,
    {
        self.value as usize
    }

    /// The word built from its little-endian bytes.
    pub fn from_le_bytes(le: [u8; 2]) -> (r: Word)
        ensures
            r@ == join_bytes(le@[0], le@[1]),
    {
        Word { value: le[0] as u16 + 256 * (le[1] as u16) }
    }

    /// The word's bytes, low byte first.
    pub fn to_le_bytes(&self) -> (r: [u8; 2])
        ensures
            r@ == seq![lo_byte(self@), hi_byte(self@)],
    {
        let r = [(self.value % 256) as u8, (self.value / 256) as u8];
        assert(r@ =~= seq![lo_byte(self@), hi_byte(self@)]);
        r
    }

    /// Byte `index` of the word: 0 is the low byte, 1 the high byte.
    pub fn byte(&self, index: usize) -> (r: Byte)
        requires
            index < 2,
        ensures
            r@ == (if index == 0 { lo_byte(self@) } else { hi_byte(self@) }),
    {
        if index == 0 {
            Byte::from_u8((self.value % 256) as u8)
        } else {
            Byte::from_u8((self.value / 256) as u8)
        }
    }

    /// The word with byte `index` replaced by `byte`.
    pub fn with_byte(&self, index: usize, byte: Byte) -> (r: Word)
        requires
            index < 2,
        ensures
            r@ == (if index == 0 {
                join_bytes(byte@, hi_byte(self@))
            } else {
                join_bytes(lo_byte(self@), byte@)
            }),
    {
        let b = byte.as_u8() as u16;
        if index == 0 {
            Word { value: b + 256 * (self.value / 256) }
        } else {
            Word { value: self.value % 256 + 256 * b }
        }
    }

    pub fn swab(&self) -> (r: Word)
        ensures
            r@ == swap_bytes(self@),
    {
        Word { value: (self.value % 256) * 256 + self.value / 256 }
    }

    pub fn bitand(&self, rhs: Word) -> (r: Word)
        ensures
            r@ == self@ & rhs@,
    {
        Word { value: self.value & rhs.value }
    }

    /// Adds `rhs` modulo 2^16.
    pub fn add_assign(&mut self, rhs: u16)
        ensures
            final(self)@ == wrap(old(self)@ + rhs),
    {
        self.value = self.value.wrapping_add(rhs);
    }

    /// Subtracts `rhs` modulo 2^16.
    pub fn sub_assign(&mut self, rhs: u16)
        ensures
            final(self)@ == wrap(old(self)@ - rhs),
    {
        self.value = self.value.wrapping_sub(rhs);
    }

    /// This word taken as an address for accesses of width `M`.
    pub fn address<M>(self) -> (r: Address<M>)
        ensures
            r@ == self@,
    {
        Address::from_u16(self.value)
    }

    /// The byte addresses covered by an access of width `M` at this address.
    pub fn address_range<M: MemoryAcceess>(&self) -> (r: Range<usize>)
        ensures
            r.start == self@ as usize,
            r.end == self@ + M::spec_size(),
    {
        let start = self.value as usize;
        start..start + M::size() as usize
    }
}

impl MemoryAcceess for Word {
    open spec fn spec_size() -> nat {
        2
    }

    fn size() -> (r: u16) {
        2
    }

    open spec fn spec_is_zero(&self) -> bool {
        self@ == 0
    }

    open spec fn spec_is_negative(&self) -> bool {
        word_sign(self@)
    }

    fn is_zero(&self) -> (r: bool) {
        self.value == 0
    }

    fn is_negative(&self) -> (r: bool) {
        self.value >= 0x8000
    }
}

} // verus!
