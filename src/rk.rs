use vstd::prelude::*;

use crate::word::join_bytes;

verus! {

/// Drive status register.
pub const RKDS: u16 = 0o177400;

/// Error register.
pub const RKER: u16 = 0o177402;

/// Control and status register: bit 0 is GO, bits 1..=3 the function, bit 7
/// Control Ready.
pub const RKCS: u16 = 0o177404;

/// Word count, as a two's-complement negative number of words.
pub const RKWC: u16 = 0o177406;

/// Bus address that a transfer starts at.
pub const RKBA: u16 = 0o177410;

/// Disk address: cylinder, surface and sector.
pub const RKDA: u16 = 0o177412;

/// Words in one disk sector.
pub const SECTOR_WORDS: usize = 256;

/// Whether `a` is the address of one of the controller's registers.
pub open spec fn is_rk_register(a: u16) -> bool {
    a == RKDS || a == RKER || a == RKCS || a == RKWC || a == RKBA || a == RKDA
}

/// Whether a value written to RKCS starts a read: GO set, function READ.
pub open spec fn starts_read(v: u16) -> bool {
    v % 16 == 5
}

/// The linear sector number that a disk address names: twelve sectors on
/// each surface of a cylinder, two surfaces to a cylinder.
pub open spec fn sector_of(da: u16) -> int {
    (da as int / 16) % 512 * 12 + da as int % 16
}

/// Word `index` of a disk image, little-endian; bytes past the end of the
/// image read as zero.
pub open spec fn disk_word(image: Seq<u8>, index: int) -> u16 {
    let lo: u8 = if 0 <= 2 * index < image.len() { image[2 * index] } else { 0 };
    let hi: u8 = if 0 <= 2 * index + 1 < image.len() { image[2 * index + 1] } else { 0 };
    join_bytes(lo, hi)
}

/// What an RK11 controller holds: its six registers and the disk image.
pub struct RkState {
    pub ds: u16,
    pub er: u16,
    pub cs: u16,
    pub wc: u16,
    pub ba: u16,
    pub da: u16,
    pub image: Seq<u8>,
}

impl RkState {
    /// Value of the register at address `a`.
    pub open spec fn read(self, a: u16) -> u16 {
        if a == RKDS {
            self.ds
        } else if a == RKER {
            self.er
        } else if a == RKCS {
            self.cs
        } else if a == RKWC {
            self.wc
        } else if a == RKBA {
            self.ba
        } else {
            self.da
        }
    }

    /// The registers after `v` is written to address `a`. The status and
    /// error registers are read-only. A write to RKCS that starts a read
    /// completes at once: GO drops and Control Ready rises.
    pub open spec fn written(self, a: u16, v: u16) -> RkState {
        if a == RKCS {
            RkState { cs: if starts_read(v) { (v & 0xfffe) | 0x80 } else { v }, ..self }
        } else if a == RKWC {
            RkState { wc: v, ..self }
        } else if a == RKBA {
            RkState { ba: v, ..self }
        } else if a == RKDA {
            RkState { da: v, ..self }
        } else {
            self
        }
    }

    /// All registers zero, the image kept.
    pub open spec fn cleared(self) -> RkState {
        RkState { ds: 0, er: 0, cs: 0, wc: 0, ba: 0, da: 0, image: self.image }
    }

    /// Number of words that a read moves.
    pub open spec fn word_count(self) -> nat {
        ((0x10000 - self.wc) % 0x10000) as nat
    }

    /// Index in the image of the first word that a read moves.
    pub open spec fn first_word(self) -> int {
        sector_of(self.da) * 256
    }
}

/// An RK11 disk controller with the image of its one disk.
#[derive(Debug)]
pub struct Rk {
    image: Vec<u8>,
    ds: u16,
    er: u16,
    cs: u16,
    wc: u16,
    ba: u16,
    da: u16,
}

impl View for Rk {
    type V = RkState;

    closed spec fn view(&self) -> RkState {
        RkState {
            ds: self.ds,
            er: self.er,
            cs: self.cs,
            wc: self.wc,
            ba: self.ba,
            da: self.da,
            image: self.image@,
        }
    }
}

impl Rk {
    /// A controller whose disk holds `image`, all registers zero.
    pub fn with_image(image: Vec<u8>) -> (r: Rk)
        ensures
            r@ == (RkState { ds: 0, er: 0, cs: 0, wc: 0, ba: 0, da: 0, image: image@ }),
    {
        Rk { image, ds: 0, er: 0, cs: 0, wc: 0, ba: 0, da: 0 }
    }

    /// Zeroes the registers; the image stays.
    pub fn reset(&mut self)
        ensures
            final(self)@ == old(self)@.cleared(),
    {
        self.ds = 0;
        self.er = 0;
        self.cs = 0;
        self.wc = 0;
        self.ba = 0;
        self.da = 0;
    }

    /// Value of the register at address `addr`.
    pub fn read_word(&self, addr: u16) -> (r: u16)
        requires
            is_rk_register(addr),
        ensures
            r == self@.read(addr),
    {
        if addr == RKDS {
            self.ds
        } else if addr == RKER {
            self.er
        } else if addr == RKCS {
            self.cs
        } else if addr == RKWC {
            self.wc
        } else if addr == RKBA {
            self.ba
        } else {
            self.da
        }
    }

    /// Writes `v` to the register at address `addr`; moves no data.
    pub fn write_word(&mut self, addr: u16, v: u16)
        requires
            is_rk_register(addr),
        ensures
            final(self)@ == old(self)@.written(addr, v),
    {
        if addr == RKCS {
            self.cs = if v % 16 == 5 { (v & 0xfffe) | 0x80 } else { v };
        } else if addr == RKWC {
            self.wc = v;
        } else if addr == RKBA {
            self.ba = v;
        } else if addr == RKDA {
            self.da = v;
        }
    }

    /// Number of words that a read moves.
    pub fn word_count(&self) -> (r: usize)
        ensures
            r == self@.word_count(),
            r < 0x10000,
    {
        (0u16.wrapping_sub(self.wc)) as usize
    }

    /// Index in the image of the first word that a read moves.
    pub fn first_word(&self) -> (r: usize)
        ensures
            r == self@.first_word(),
            r < 0x200000,
    {
        let cylinder_surface = (self.da / 16) % 512;
        let sector = self.da % 16;
        (cylinder_surface as usize * 12 + sector as usize) * SECTOR_WORDS
    }

    /// Bus address that a read starts at.
    pub fn bus_address(&self) -> (r: u16)
        ensures
            r == self@.ba,
    {
        self.ba
    }

    /// Word `index` of the disk image.
    pub fn disk_word(&self, index: usize) -> (r: u16)
        requires
            index < 0x1000_0000,
        ensures
            r == disk_word(self@.image, index as int),
    {
        let lo: u8 = if 2 * index < self.image.len() { self.image[2 * index] } else { 0 };
        let hi: u8 = if 2 * index + 1 < self.image.len() { self.image[2 * index + 1] } else { 0 };
        lo as u16 + 256 * (hi as u16)
    }
}

} // verus!
