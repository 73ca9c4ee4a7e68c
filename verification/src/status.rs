//! The processor status register.
//!
//! The register is eight independent one-bit flags. Its byte image, the form
//! in which it travels to and from the stack, has a fixed layout:
//!
//! | bit | 7 | 6 | 5 | 4 | 3 | 2 | 1 | 0 |
//! |-----|---|---|---|---|---|---|---|---|
//! |flag | N | V | - | B | D | I | Z | C |
//!
//! Bit 5 has no flag behind it on the processor and is 1 in every image.

use vstd::prelude::*;

verus! {

/// The weight of one flag inside a sum: 1 when set, 0 when clear.
pub open spec fn bit(flag: bool) -> int {
    if flag {
        1
    } else {
        0
    }
}

/// The eight flags of the status register.
#[derive(Clone, Copy, Debug, PartialEq, Eq, Structural)]
pub struct StatusRegister {
    /// Carry: the last operation carried out of bit 7 (or did not borrow).
    pub c: bool,
    /// Zero: the last result was zero.
    pub z: bool,
    /// Interrupt disable.
    pub i: bool,
    /// Decimal mode. Kept, but arithmetic here is always binary.
    pub d: bool,
    /// Break: tells a software interrupt from a hardware one in a pushed image.
    pub b: bool,
    /// The reserved bit. Stored like any flag; an image never shows it clear.
    pub bit_5: bool,
    /// Overflow: the last signed result did not fit in eight bits.
    pub v: bool,
    /// Negative: bit 7 of the last result.
    pub n: bool,
}

impl StatusRegister {
    /// The register at power-on: interrupts disabled, B and the reserved bit
    /// set, everything else clear.
    pub open spec fn power_on() -> StatusRegister {
        StatusRegister {
            c: false,
            z: false,
            i: true,
            d: false,
            b: true,
            bit_5: true,
            v: false,
            n: false,
        }
    }

    /// The byte image of the register. Bit 5 is set whatever `bit_5` holds.
    pub open spec fn image(self) -> u8 {
        (bit(self.c) + 2 * bit(self.z) + 4 * bit(self.i) + 8 * bit(self.d) + 16 * bit(self.b) + 32
            + 64 * bit(self.v) + 128 * bit(self.n)) as u8
    }

    /// The register that a byte image describes. The reserved bit comes out
    /// set, whatever bit 5 of `flags` is.
    pub open spec fn from_image(flags: u8) -> StatusRegister {
        StatusRegister {
            c: flags % 2 == 1,
            z: (flags / 2) % 2 == 1,
            i: (flags / 4) % 2 == 1,
            d: (flags / 8) % 2 == 1,
            b: (flags / 16) % 2 == 1,
            bit_5: true,
            v: (flags / 64) % 2 == 1,
            n: (flags / 128) % 2 == 1,
        }
    }

    /// This register with Z and N describing `value`: Z when it is zero, N
    /// when its bit 7 is set.
    pub open spec fn with_zn(self, value: u8) -> StatusRegister {
        StatusRegister { z: value == 0, n: value >= 0x80, ..self }
    }

    pub fn new() -> (s: StatusRegister)
        ensures
            s == StatusRegister::power_on(),
    {
        StatusRegister {
            c: false,
            z: false,
            i: true,
            d: false,
            b: true,
            bit_5: true,
            v: false,
            n: false,
        }
    }

    pub fn set_c(&mut self)
        ensures
            *final(self) == (StatusRegister { c: true, ..*old(self) }),
    {
        self.c = true;
    }

    pub fn clear_c(&mut self)
        ensures
            *final(self) == (StatusRegister { c: false, ..*old(self) }),
    {
        self.c = false;
    }

    pub fn get_c(&self) -> (r: u8)
        ensures
            r == bit(self.c),
    {
        if self.c {
            1
        } else {
            0
        }
    }

    pub fn set_z(&mut self)
        ensures
            *final(self) == (StatusRegister { z: true, ..*old(self) }),
    {
        self.z = true;
    }

    pub fn clear_z(&mut self)
        ensures
            *final(self) == (StatusRegister { z: false, ..*old(self) }),
    {
        self.z = false;
    }

    pub fn get_z(&self) -> (r: u8)
        ensures
            r == bit(self.z),
    {
        if self.z {
            1
        } else {
            0
        }
    }

    pub fn set_i(&mut self)
        ensures
            *final(self) == (StatusRegister { i: true, ..*old(self) }),
    {
        self.i = true;
    }

    pub fn clear_i(&mut self)
        ensures
            *final(self) == (StatusRegister { i: false, ..*old(self) }),
    {
        self.i = false;
    }

    pub fn get_i(&self) -> (r: u8)
        ensures
            r == bit(self.i),
    {
        if self.i {
            1
        } else {
            0
        }
    }

    pub fn set_d(&mut self)
        ensures
            *final(self) == (StatusRegister { d: true, ..*old(self) }),
    {
        self.d = true;
    }

    pub fn clear_d(&mut self)
        ensures
            *final(self) == (StatusRegister { d: false, ..*old(self) }),
    {
        self.d = false;
    }

    pub fn get_d(&self) -> (r: u8)
        ensures
            r == bit(self.d),
    {
        if self.d {
            1
        } else {
            0
        }
    }

    pub fn set_b(&mut self)
        ensures
            *final(self) == (StatusRegister { b: true, ..*old(self) }),
    {
        self.b = true;
    }

    pub fn clear_b(&mut self)
        ensures
            *final(self) == (StatusRegister { b: false, ..*old(self) }),
    {
        self.b = false;
    }

    pub fn get_b(&self) -> (r: u8)
        ensures
            r == bit(self.b),
    {
        if self.b {
            1
        } else {
            0
        }
    }

    pub fn set_bit_5(&mut self)
        ensures
            *final(self) == (StatusRegister { bit_5: true, ..*old(self) }),
    {
        self.bit_5 = true;
    }

    pub fn clear_bit_5(&mut self)
        ensures
            *final(self) == (StatusRegister { bit_5: false, ..*old(self) }),
    {
        self.bit_5 = false;
    }

    pub fn get_bit_5(&self) -> (r: u8)
        ensures
            r == bit(self.bit_5),
    {
        if self.bit_5 {
            1
        } else {
            0
        }
    }

    pub fn set_v(&mut self)
        ensures
            *final(self) == (StatusRegister { v: true, ..*old(self) }),
    {
        self.v = true;
    }

    pub fn clear_v(&mut self)
        ensures
            *final(self) == (StatusRegister { v: false, ..*old(self) }),
    {
        self.v = false;
    }

    pub fn get_v(&self) -> (r: u8)
        ensures
            r == bit(self.v),
    {
        if self.v {
            1
        } else {
            0
        }
    }

    pub fn set_n(&mut self)
        ensures
            *final(self) == (StatusRegister { n: true, ..*old(self) }),
    {
        self.n = true;
    }

    pub fn clear_n(&mut self)
        ensures
            *final(self) == (StatusRegister { n: false, ..*old(self) }),
    {
        self.n = false;
    }

    pub fn get_n(&self) -> (r: u8)
        ensures
            r == bit(self.n),
    {
        if self.n {
            1
        } else {
            0
        }
    }

    /// Sets Z and N from a result byte.
    pub fn set_zn(&mut self, value: u8)
        ensures
            *final(self) == old(self).with_zn(value),
    {
        self.z = value == 0;
        self.n = value >= 0x80;
    }

    /// Packs the flags into their byte image.
    pub fn get_flags(&self) -> (flags: u8)
        ensures
            flags == self.image(),
    {
        let c = self.get_c();
        let z = self.get_z();
        let i = self.get_i();
        let d = self.get_d();
        let b = self.get_b();
        let v = self.get_v();
        let n = self.get_n();
        proof {
            lemma_pack(c, z, i, d, b, v, n);
        }
        c | (z << 1) | (i << 2) | (d << 3) | (b << 4) | (1 << 5) | (v << 6) | (n << 7)
    }

    /// Replaces every flag by what a byte image holds.
    pub fn set_flags(&mut self, flags: u8)
        ensures
            *final(self) == StatusRegister::from_image(flags),
    {
        proof {
            lemma_unpack(flags);
        }
        self.c = flags & 1 != 0;
        self.z = flags & (1 << 1) != 0;
        self.i = flags & (1 << 2) != 0;
        self.d = flags & (1 << 3) != 0;
        self.b = flags & (1 << 4) != 0;
        self.bit_5 = true;
        self.v = flags & (1 << 6) != 0;
        self.n = flags & (1 << 7) != 0;
    }
}

/// Seven one-bit values and the reserved bit, shifted into place and or-ed
/// together, add up to their weighted sum.
proof fn lemma_pack(c: u8, z: u8, i: u8, d: u8, b: u8, v: u8, n: u8)
    by (bit_vector)
    requires
        c <= 1,
        z <= 1,
        i <= 1,
        d <= 1,
        b <= 1,
        v <= 1,
        n <= 1,
    ensures
        (c | (z << 1) | (i << 2) | (d << 3) | (b << 4) | (1u8 << 5) | (v << 6) | (n << 7)) == c + 2
            * z + 4 * i + 8 * d + 16 * b + 32 + 64 * v + 128 * n,
{
}

/// Testing a bit with a mask agrees with reading the same binary digit by
/// division.
proof fn lemma_unpack(flags: u8)
    by (bit_vector)
    ensures
        (flags & 1 != 0) == (flags % 2 == 1),
        (flags & (1u8 << 1) != 0) == ((flags / 2) % 2 == 1),
        (flags & (1u8 << 2) != 0) == ((flags / 4) % 2 == 1),
        (flags & (1u8 << 3) != 0) == ((flags / 8) % 2 == 1),
        (flags & (1u8 << 4) != 0) == ((flags / 16) % 2 == 1),
        (flags & (1u8 << 6) != 0) == ((flags / 64) % 2 == 1),
        (flags & (1u8 << 7) != 0) == ((flags / 128) % 2 == 1),
{
}

/// An image read back gives the flags it was made from; only the reserved
/// bit, which no image shows clear, comes back set.
pub proof fn lemma_image_round_trip(s: StatusRegister)
    ensures
        StatusRegister::from_image(s.image()) == (StatusRegister { bit_5: true, ..s }),
        (s.image() / 32) % 2 == 1,
{
}

/// A byte is the weighted sum of its eight binary digits.
proof fn lemma_binary_digits(flags: u8)
    by (bit_vector)
    ensures
        flags == flags % 2 + 2 * ((flags / 2) % 2) + 4 * ((flags / 4) % 2) + 8 * ((flags / 8) % 2)
            + 16 * ((flags / 16) % 2) + 32 * ((flags / 32) % 2) + 64 * ((flags / 64) % 2) + 128 * (
        (flags / 128) % 2),
{
}

/// Packing what was unpacked gives the byte back with bit 5 set.
pub proof fn lemma_flags_round_trip(flags: u8)
    ensures
        StatusRegister::from_image(flags).image() == (if (flags / 32) % 2 == 1 {
            flags as int
        } else {
            flags + 32
        }),
{
    lemma_binary_digits(flags);
}

} // verus!
