use vstd::prelude::*;

use crate::gb_mode::GbMode;

verus! {

/// The CPU flag register (F).
///
/// Only the upper nibble is meaningful: Z (bit 7), N (bit 6), H (bit 5) and C (bit 4).
/// The lower nibble always reads as zero.
#[derive(Debug, Clone, Copy)]
pub struct Flags {
    bits: u8,
}

impl View for Flags {
    type V = u8;

    closed spec fn view(&self) -> u8 {
        self.bits
    }
}

/// The bits that a flag register can hold.
pub open spec fn flag_mask() -> u8 {
    0xF0
}

impl Flags {
    /// Zero flag
    pub const Z: u8 = 0x80;
    /// Add/Subtract flag
    pub const N: u8 = 0x40;
    /// Half Carry flag
    pub const H: u8 = 0x20;
    /// Carry flag
    pub const C: u8 = 0x10;

    #[verifier::type_invariant]
    closed spec fn inv(self) -> bool {
        self.bits & 0x0F == 0
    }

    /// No flag set.
    pub fn empty() -> (r: Flags)
        ensures
            r@ == 0,
    {
        assert(0u8 & 0x0F == 0) by (bit_vector);
        Flags { bits: 0 }
    }

    /// All four flags set.
    pub fn all() -> (r: Flags)
        ensures
            r@ == 0xF0,
    {
        assert(0xF0u8 & 0x0F == 0) by (bit_vector);
        Flags { bits: 0xF0 }
    }

    /// The raw value of the register.
    pub fn bits(&self) -> (r: u8)
        ensures
            r == self@,
            r & 0x0F == 0,
    {
        proof {
            use_type_invariant(self);
        }
        self.bits
    }

    /// Keeps only the bits that correspond to a flag.
    pub fn from_bits_truncate(bits: u8) -> (r: Flags)
        ensures
            r@ == bits & 0xF0,
    {
        let v = bits & 0xF0;
        assert(v & 0x0F == 0) by (bit_vector)
            requires
                v == bits & 0xF0,
        ;
        Flags { bits: v }
    }

    /// Returns the flags for `bits`, or `None` when `bits` holds a bit that is no flag.
    pub fn from_bits(bits: u8) -> (r: Option<Flags>)
        ensures
            (bits & 0x0F == 0) <==> r.is_some(),
            r matches Some(f) ==> f@ == bits,
    {
        if bits & 0x0F == 0 {
            Some(Flags { bits })
        } else {
            None
        }
    }

    /// True when no flag is set.
    pub fn is_empty(&self) -> (r: bool)
        ensures
            r == (self@ == 0),
    {
        self.bits == 0
    }

    /// True when every flag of `mask` is set.
    pub fn contains(&self, mask: u8) -> (r: bool)
        ensures
            r == (self@ & mask == mask),
    {
        self.bits & mask == mask
    }

    /// Sets every flag of `mask`; bits of `mask` that are no flag are ignored.
    pub fn insert(&mut self, mask: u8)
        ensures
            final(self)@ == (old(self)@ | mask) & 0xF0,
    {
        let a = self.bits;
        let v = (a | mask) & 0xF0;
        assert(v & 0x0F == 0) by (bit_vector)
            requires
                v == (a | mask) & 0xF0,
        ;
        *self = Flags { bits: v };
    }

    /// Clears every flag of `mask`.
    pub fn remove(&mut self, mask: u8)
        ensures
            final(self)@ == old(self)@ & !mask,
    {
        proof {
            use_type_invariant(&*self);
        }
        let a = self.bits;
        assert((a & !mask) & 0x0F == 0) by (bit_vector)
            requires
                a & 0x0F == 0,
        ;
        *self = Flags { bits: a & !mask };
    }

    /// Flips every flag of `mask`; bits of `mask` that are no flag are ignored.
    pub fn toggle(&mut self, mask: u8)
        ensures
            final(self)@ == (old(self)@ ^ mask) & 0xF0,
    {
        let a = self.bits;
        let v = (a ^ mask) & 0xF0;
        assert(v & 0x0F == 0) by (bit_vector)
            requires
                v == (a ^ mask) & 0xF0,
        ;
        *self = Flags { bits: v };
    }

    /// Sets the flags of `mask` when `value` holds, clears them otherwise.
    pub fn set(&mut self, mask: u8, value: bool)
        ensures
            final(self)@ == if value {
                (old(self)@ | mask) & 0xF0
            } else {
                old(self)@ & !mask
            },
    {
        if value {
            self.insert(mask);
        } else {
            self.remove(mask);
        }
    }
}

impl From<u8> for Flags {
    fn from(byte: u8) -> (r: Flags)
        ensures
            r@ == byte & 0xF0,
    {
        Flags::from_bits_truncate(byte)
    }
}

impl vstd::std_specs::convert::FromSpecImpl<u8> for Flags {
    open spec fn obeys_from_spec() -> bool {
        true
    }

    closed spec fn from_spec(v: u8) -> Flags {
        Flags { bits: v & 0xF0 }
    }
}

impl Default for Flags {
    fn default() -> (r: Flags)
        ensures
            r@ == 0,
    {
        Flags::empty()
    }
}

/// The value of a register pair whose high byte is `hi` and low byte is `lo`.
pub open spec fn pair(hi: u8, lo: u8) -> u16 {
    (hi as int * 256 + lo as int) as u16
}

/// The CPU registers.
#[derive(Debug)]
pub struct Registers {
    /// Accumulator
    pub a: u8,
    /// BC
    pub b: u8,
    pub c: u8,
    /// DE
    pub d: u8,
    pub e: u8,
    /// HL
    pub h: u8,
    pub l: u8,
    /// Flags
    pub f: Flags,
}

/// The registers as plain bytes, with F by its bits.
pub struct RegsView {
    pub a: u8,
    pub b: u8,
    pub c: u8,
    pub d: u8,
    pub e: u8,
    pub h: u8,
    pub l: u8,
    pub f: u8,
}

impl RegsView {
    pub open spec fn bc(self) -> u16 {
        pair(self.b, self.c)
    }

    pub open spec fn de(self) -> u16 {
        pair(self.d, self.e)
    }

    pub open spec fn hl(self) -> u16 {
        pair(self.h, self.l)
    }

    pub open spec fn af(self) -> u16 {
        pair(self.a, self.f)
    }
}

impl View for Registers {
    type V = RegsView;

    open spec fn view(&self) -> RegsView {
        RegsView {
            a: self.a,
            b: self.b,
            c: self.c,
            d: self.d,
            e: self.e,
            h: self.h,
            l: self.l,
            f: self.f@,
        }
    }
}

/// The flag register after `Flags::set(mask, on)`.
pub open spec fn with_flag(f: u8, mask: u8, on: bool) -> u8 {
    if on {
        (f | mask) & 0xF0
    } else {
        f & !mask
    }
}

impl Registers {
    pub open spec fn spec_bc(&self) -> u16 {
        pair(self.b, self.c)
    }

    pub open spec fn spec_de(&self) -> u16 {
        pair(self.d, self.e)
    }

    pub open spec fn spec_hl(&self) -> u16 {
        pair(self.h, self.l)
    }

    pub open spec fn spec_af(&self) -> u16 {
        pair(self.a, self.f@)
    }

    /// The register values after the boot ROM has run on the given model.
    pub(crate) fn initialized(gb_mode: GbMode) -> (r: Registers)
        ensures
            r.a == (if gb_mode == GbMode::Cgb {
                0x11u8
            } else {
                0x01u8
            }),
            r.b == 0x00,
            r.c == 0x13,
            r.d == 0x00,
            r.e == 0xD8,
            r.h == 0x01,
            r.l == 0x4D,
            r.f@ == 0xB0,
    {
        assert(0xB0u8 & 0xF0 == 0xB0) by (bit_vector);
        let regs = Registers {
            a: 0x01,
            b: 0x00,
            c: 0x13,
            d: 0x00,
            e: 0xD8,
            h: 0x01,
            l: 0x4D,
            f: Flags::from(0xB0),
        };
        if gb_mode == GbMode::Cgb {
            return Registers { a: 0x11, ..regs };
        }
        regs
    }

    pub fn bc(&self) -> (r: u16)
        ensures
            r == self.spec_bc(),
    {
        join_bytes(self.b, self.c)
    }

    pub fn de(&self) -> (r: u16)
        ensures
            r == self.spec_de(),
    {
        join_bytes(self.d, self.e)
    }

    pub fn hl(&self) -> (r: u16)
        ensures
            r == self.spec_hl(),
    {
        join_bytes(self.h, self.l)
    }

    pub fn af(&self) -> (r: u16)
        ensures
            r == self.spec_af(),
    {
        join_bytes(self.a, self.f.bits())
    }

    pub fn set_bc(&mut self, value: u16)
        ensures
            final(self).b == value / 256,
            final(self).c == value % 256,
            final(self).a == old(self).a,
            final(self).d == old(self).d,
            final(self).e == old(self).e,
            final(self).h == old(self).h,
            final(self).l == old(self).l,
            final(self).f == old(self).f,
    {
        let (hi, lo) = split_word(value);
        self.b = hi;
        self.c = lo;
    }

    pub fn set_de(&mut self, value: u16)
        ensures
            final(self).d == value / 256,
            final(self).e == value % 256,
            final(self).a == old(self).a,
            final(self).b == old(self).b,
            final(self).c == old(self).c,
            final(self).h == old(self).h,
            final(self).l == old(self).l,
            final(self).f == old(self).f,
    {
        let (hi, lo) = split_word(value);
        self.d = hi;
        self.e = lo;
    }

    pub fn set_hl(&mut self, value: u16)
        ensures
            final(self).h == value / 256,
            final(self).l == value % 256,
            final(self).a == old(self).a,
            final(self).b == old(self).b,
            final(self).c == old(self).c,
            final(self).d == old(self).d,
            final(self).e == old(self).e,
            final(self).f == old(self).f,
    {
        let (hi, lo) = split_word(value);
        self.h = hi;
        self.l = lo;
    }

    /// Sets A and F; the lower nibble of F is dropped.
    pub fn set_af(&mut self, value: u16)
        ensures
            final(self).a == value / 256,
            final(self).f@ == (value % 256) as u8 & 0xF0,
            final(self).b == old(self).b,
            final(self).c == old(self).c,
            final(self).d == old(self).d,
            final(self).e == old(self).e,
            final(self).h == old(self).h,
            final(self).l == old(self).l,
    {
        let (hi, lo) = split_word(value);
        self.a = hi;
        self.f = Flags::from(lo);
    }

    /// Returns HL, then increments it (wrapping).
    pub fn hli(&mut self) -> (r: u16)
        ensures
            r == old(self).spec_hl(),
            final(self).spec_hl() == (if r == 0xFFFF {
                0u16
            } else {
                (r + 1) as u16
            }),
            final(self).a == old(self).a,
            final(self).b == old(self).b,
            final(self).c == old(self).c,
            final(self).d == old(self).d,
            final(self).e == old(self).e,
            final(self).f == old(self).f,
    {
        let hl = self.hl();
        self.set_hl(hl.wrapping_add(1));
        hl
    }

    /// Returns HL, then decrements it (wrapping).
    pub fn hld(&mut self) -> (r: u16)
        ensures
            r == old(self).spec_hl(),
            final(self).spec_hl() == (if r == 0 {
                0xFFFFu16
            } else {
                (r - 1) as u16
            }),
            final(self).a == old(self).a,
            final(self).b == old(self).b,
            final(self).c == old(self).c,
            final(self).d == old(self).d,
            final(self).e == old(self).e,
            final(self).f == old(self).f,
    {
        let hl = self.hl();
        self.set_hl(hl.wrapping_sub(1));
        hl
    }
}

impl Default for Registers {
    fn default() -> (r: Registers)
        ensures
            r.a == 0x01,
            r.b == 0x00,
            r.c == 0x13,
            r.d == 0x00,
            r.e == 0xD8,
            r.h == 0x01,
            r.l == 0x4D,
            r.f@ == 0xB0,
    {
        assert(0xB0u8 & 0xF0 == 0xB0) by (bit_vector);
        Registers {
            a: 0x01,
            b: 0x00,
            c: 0x13,
            d: 0x00,
            e: 0xD8,
            h: 0x01,
            l: 0x4D,
            f: Flags::from(0xB0),
        }
    }
}

/// The big-endian word made of `hi` and `lo`.
pub fn join_bytes(hi: u8, lo: u8) -> (r: u16)
    ensures
        r == pair(hi, lo),
{
    let r = ((hi as u16) << 8) | (lo as u16);
    assert(r == hi as int * 256 + lo as int) by (bit_vector)
        requires
            r == ((hi as u16) << 8) | (lo as u16),
    ;
    r
}

/// The high and low byte of `value`.
pub fn split_word(value: u16) -> (r: (u8, u8))
    ensures
        r.0 == value / 256,
        r.1 == value % 256,
{
    let hi = (value >> 8) as u8;
    let lo = (value & 0xFF) as u8;
    assert(hi == value / 256 && lo == value % 256) by (bit_vector)
        requires
            hi == (value >> 8) as u8,
            lo == (value & 0xFF) as u8,
    ;
    (hi, lo)
}

/// Writing a pair and reading it back gives the value written; for AF only the flag bits survive.
pub proof fn lemma_pair_roundtrip(value: u16)
    ensures
        pair((value / 256) as u8, (value % 256) as u8) == value,
        pair((value / 256) as u8, (value % 256) as u8 & 0xF0) == value & 0xFFF0,
{
    let hi = (value / 256) as u8;
    let lo = (value % 256) as u8;
    assert(pair(hi, lo) == value);
    assert(((hi as int * 256 + (lo & 0xF0) as int) as u16) == value & 0xFFF0) by (bit_vector)
        requires
            hi == (value / 256) as u8,
            lo == (value % 256) as u8,
    ;
}

/// `hld` undoes `hli`, and `hli` undoes `hld`: HL wraps around in both directions.
pub proof fn lemma_hl_inc_dec_inverse(hl: u16)
    ensures
        ({
            let up: u16 = if hl == 0xFFFF {
                0
            } else {
                (hl + 1) as u16
            };
            (if up == 0 {
                0xFFFFu16
            } else {
                (up - 1) as u16
            }) == hl
        }),
        ({
            let down: u16 = if hl == 0 {
                0xFFFF
            } else {
                (hl - 1) as u16
            };
            (if down == 0xFFFF {
                0u16
            } else {
                (down + 1) as u16
            }) == hl
        }),
{
}

} // verus!
