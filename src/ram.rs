use vstd::prelude::*;

use crate::access::Address;
use crate::byte::Byte;
use crate::rk::{is_rk_register, starts_read, Rk, RkState, RKCS};
use crate::word::{hi_byte, join_bytes, lo_byte, Word};

verus! {

/// Number of word cells in memory: 64 KiB.
pub const MEMORY_WORDS: usize = 32768;

/// Word cells after a disk read of `n` words: word `first + k` of the image
/// goes to cell `(base + k) % MEMORY_WORDS`, one after another.
pub open spec fn transfer(words: Seq<u16>, image: Seq<u8>, first: int, base: int, n: nat) -> Seq<
    u16,
>
    decreases n,
{
    if n == 0 {
        words
    } else {
        transfer(words, image, first, base, (n - 1) as nat).update(
            (base + n - 1) % (MEMORY_WORDS as int),
            crate::rk::disk_word(image, first + n - 1),
        )
    }
}

/// The 16-bit address of the word that holds byte address `a`.
pub open spec fn aligned(a: u16) -> u16 {
    (a - a % 2) as u16
}

/// What the address space holds: the word cells, and the RK11 controller
/// whose registers overlay six of them.
pub struct MemState {
    pub words: Seq<u16>,
    pub rk: RkState,
}

impl MemState {
    pub open spec fn wf(self) -> bool {
        self.words.len() == MEMORY_WORDS
    }

    /// The word at even address `a`.
    pub open spec fn read_word(self, a: u16) -> u16 {
        if is_rk_register(a) {
            self.rk.read(a)
        } else {
            self.words[a as int / 2]
        }
    }

    /// The byte at address `a`.
    pub open spec fn read_byte(self, a: u16) -> u8 {
        let w = self.read_word(aligned(a));
        if a % 2 == 0 {
            lo_byte(w)
        } else {
            hi_byte(w)
        }
    }

    /// The address space after `v` is written to even address `a`.
    pub open spec fn write_word(self, a: u16, v: u16) -> MemState {
        if a == RKCS && starts_read(v) {
            MemState {
                words: transfer(
                    self.words,
                    self.rk.image,
                    self.rk.first_word(),
                    self.rk.ba as int / 2,
                    self.rk.word_count(),
                ),
                rk: self.rk.written(a, v),
            }
        } else if is_rk_register(a) {
            MemState { rk: self.rk.written(a, v), ..self }
        } else {
            MemState { words: self.words.update(a as int / 2, v), ..self }
        }
    }

    /// The address space after byte `b` is written to address `a`: the
    /// other byte of its word is kept.
    pub open spec fn write_byte(self, a: u16, b: u8) -> MemState {
        let w = self.read_word(aligned(a));
        self.write_word(
            aligned(a),
            if a % 2 == 0 {
                join_bytes(b, hi_byte(w))
            } else {
                join_bytes(lo_byte(w), b)
            },
        )
    }
}

/// The 64 KiB address space: word cells, with the RK11 register window
/// dispatched to the controller.
#[derive(Debug)]
pub struct Ram {
    words: Vec<u16>,
    rk: Rk,
}

impl View for Ram {
    type V = MemState;

    closed spec fn view(&self) -> MemState {
        MemState { words: self.words@, rk: self.rk@ }
    }
}

fn zeroed_words() -> (r: Vec<u16>)
    ensures
        r@ == Seq::new(MEMORY_WORDS as nat, |i: int| 0u16),
{
    let r = vec![0u16; MEMORY_WORDS];
    assert(r@ =~= Seq::new(MEMORY_WORDS as nat, |i: int| 0u16));
    r
}

impl Ram {
    pub open spec fn wf(&self) -> bool {
        self@.wf()
    }

    /// Zeroed memory with a controller whose disk is empty.
    pub fn new() -> (r: Ram)
        ensures
            r.wf(),
            r@.words == Seq::new(MEMORY_WORDS as nat, |i: int| 0u16),
            r@.rk == (RkState { ds: 0, er: 0, cs: 0, wc: 0, ba: 0, da: 0, image: Seq::empty() }),
    {
        Ram::with_disk(Rk::with_image(Vec::new()))
    }

    /// Zeroed memory with controller `rk` attached.
    pub fn with_disk(rk: Rk) -> (r: Ram)
        ensures
            r.wf(),
            r@.words == Seq::new(MEMORY_WORDS as nat, |i: int| 0u16),
            r@.rk == rk@,
    {
        Ram { words: zeroed_words(), rk }
    }

    /// Zeroes memory and the controller's registers; the disk stays.
    pub fn reset(&mut self)
        ensures
            final(self).wf(),
            final(self)@.words == Seq::new(MEMORY_WORDS as nat, |i: int| 0u16),
            final(self)@.rk == old(self)@.rk.cleared(),
    {
        self.words = zeroed_words();
        self.rk.reset();
    }

    /// The word at `address`, or `None` where the address is odd (a bus
    /// error).
    pub fn word(&self, address: Address<Word>) -> (r: Option<Word>)
        requires
            self.wf(),
        ensures
            match r {
                Some(w) => address@ % 2 == 0 && w@ == self@.read_word(address@),
                None => address@ % 2 == 1,
            },
    {
        let a = address.as_u16();
        if a % 2 == 1 {
            None
        } else {
            Some(Word::from_u16(self.load(a)))
        }
    }

    /// Writes `value` at `address`; returns false, and changes nothing,
    /// where the address is odd.
    pub fn word_mut(&mut self, address: Address<Word>, value: Word) -> (ok: bool)
        requires
            old(self).wf(),
        ensures
            final(self).wf(),
            ok == (address@ % 2 == 0),
            ok ==> final(self)@ == old(self)@.write_word(address@, value@),
            !ok ==> final(self)@ == old(self)@,
    {
        let a = address.as_u16();
        if a % 2 == 1 {
            false
        } else {
            self.store(a, value.as_u16());
            true
        }
    }

    /// The byte at `address`.
    pub fn byte(&self, address: Address<Byte>) -> (r: Byte)
        requires
            self.wf(),
        ensures
            r@ == self@.read_byte(address@),
    {
        let (index, which) = address.byte_index();
        let a = (index * 2) as u16;
        let w = Word::from_u16(self.load(a));
        w.byte(which)
    }

    /// Writes `value` at `address`, keeping the other byte of its word.
    pub fn byte_mut(&mut self, address: Address<Byte>, value: Byte)
        requires
            old(self).wf(),
        ensures
            final(self).wf(),
            final(self)@ == old(self)@.write_byte(address@, value@),
    {
        let (index, which) = address.byte_index();
        let a = (index * 2) as u16;
        let w = Word::from_u16(self.load(a));
        self.store(a, w.with_byte(which, value).as_u16());
    }

    /// The word at even address `a`.
    fn load(&self, a: u16) -> (r: u16)
        requires
            self.wf(),
            a % 2 == 0,
        ensures
            r == self@.read_word(a),
    {
        if a == crate::rk::RKDS || a == crate::rk::RKER || a == RKCS || a == crate::rk::RKWC
            || a == crate::rk::RKBA || a == crate::rk::RKDA {
            self.rk.read_word(a)
        } else {
            self.words[(a / 2) as usize]
        }
    }

    /// Writes `v` at even address `a`, running a disk read where the write
    /// starts one.
    fn store(&mut self, a: u16, v: u16)
        requires
            old(self).wf(),
            a % 2 == 0,
        ensures
            final(self).wf(),
            final(self)@ == old(self)@.write_word(a, v),
    {
        if a == crate::rk::RKDS || a == crate::rk::RKER || a == RKCS || a == crate::rk::RKWC
            || a == crate::rk::RKBA || a == crate::rk::RKDA {
            if a == RKCS && v % 16 == 5 {
                self.read_disk();
            }
            self.rk.write_word(a, v);
        } else {
            self.words.set((a / 2) as usize, v);
        }
    }

    /// Copies the words that the controller's registers name from the disk
    /// image into memory.
    fn read_disk(&mut self)
        requires
            old(self).wf(),
        ensures
            final(self).wf(),
            final(self)@.rk == old(self)@.rk,
            final(self)@.words == transfer(
                old(self)@.words,
                old(self)@.rk.image,
                old(self)@.rk.first_word(),
                old(self)@.rk.ba as int / 2,
                old(self)@.rk.word_count(),
            ),
    {
        let n = self.rk.word_count();
        let first = self.rk.first_word();
        let base = (self.rk.bus_address() / 2) as usize;
        let ghost start = self.words@;
        let mut k: usize = 0;
        while k < n
            invariant
                k <= n,
                n == self.rk@.word_count(),
                first == self.rk@.first_word(),
                base == self.rk@.ba as int / 2,
                self.rk@ == old(self)@.rk,
                start == old(self)@.words,
                self.words.len() == MEMORY_WORDS,
                self.words@ == transfer(start, self.rk@.image, first as int, base as int, k as nat),
            decreases n - k,
        {
            let v = self.rk.disk_word(first + k);
            self.words.set((base + k) % MEMORY_WORDS, v);
            k += 1;
        }
    }
}

} // verus!
