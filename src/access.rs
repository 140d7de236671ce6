use vstd::prelude::*;

use std::marker::PhantomData;
use std::ops::Range;

verus! {

/// A width of memory access: a byte or a word, with what the CPU reads of a
/// value of that width.
pub trait MemoryAcceess: Sized {
    /// Number of bytes that one access of this width moves.
    spec fn spec_size() -> nat;

    spec fn spec_is_zero(&self) -> bool;

    spec fn spec_is_negative(&self) -> bool;

    fn size() -> (r: u16)
        ensures
            r as nat == Self::spec_size(),
            r == 1 || r == 2,
    ;

    fn is_zero(&self) -> (r: bool)
        ensures
            r == self.spec_is_zero(),
    ;

    /// Whether the sign bit of the value is set.
    fn is_negative(&self) -> (r: bool)
        ensures
            r == self.spec_is_negative(),
    ;
}

/// A 16-bit byte address, tagged with the width `M` of the accesses made
/// through it.
#[derive(Debug)]
pub struct Address<M> {
    value: u16,
    width: PhantomData<M>,
}

impl<M> View for Address<M> {
    type V = u16;

    closed spec fn view(&self) -> u16 {
        self.value
    }
}

impl<M> Clone for Address<M> {
    fn clone(&self) -> (r: Self)
        ensures
            r@ == self@,
    {
        Address { value: self.value, width: PhantomData }
    }
}

impl<M> Copy for Address<M> {

}

impl<M> Address<M> {
    pub fn from_u16(value: u16) -> (r: Address<M>)
        ensures
            r@ == value,
    {
        Address { value, width: PhantomData }
    }

    pub fn as_u16(&self) -> (r: u16)
        ensures
            r == self@,
    {
        self.value
    }

    /// Index of the word cell that holds this address.
    pub fn word_index(&self) -> (r: usize)
        ensures
            r == self@ / 2,
    {
        (self.value / 2) as usize
    }

    /// Index of the word cell that holds this address, and of the byte within
    /// it (0 for the low byte).
    pub fn byte_index(&self) -> (r: (usize, usize))
        ensures
            r.0 == self@ / 2,
            r.1 == self@ % 2,
    {
        ((self.value / 2) as usize, (self.value % 2) as usize)
    }
}

impl<M: MemoryAcceess> Address<M> {
    /// The byte addresses covered by one access at this address.
    pub fn range(&self) -> (r: Range<usize>)
        ensures
            r.start == self@ as usize,
            r.end == self@ + M::spec_size(),
    {
        let start = self.value as usize;
        start..start + M::size() as usize
    }
}

} // verus!
