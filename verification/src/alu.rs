//! CPU flags and the arithmetic and logic operations of the SM83 CPU.
use vstd::prelude::*;
use crate::bits::{
    lemma_flag_byte,
    lemma_add16_carries, lemma_add8_carries, lemma_byte_from_bits, lemma_byte_shifts,
    lemma_flag_bit_update, lemma_nibble_bits, lemma_not16, lemma_shift_constants,
    lemma_sub8_borrows,
};
use crate::decoder::{Bit, ResetTarget};
use crate::interrupts::Interrupt;

verus! {

/// A single CPU flag
#[derive(Debug, Copy, Clone, PartialEq, Eq, Structural)]
pub enum Flag {
    /// Zero flag
    Z,
    /// Negative flag
    N,
    /// Half-carry flag
    H,
    /// Carry flag
    C,
}

/// The bit of a flag in the flags register.
pub open spec fn flag_mask(flag: Flag) -> u8 {
    match flag {
        Flag::Z => 0x80,
        Flag::N => 0x40,
        Flag::H => 0x20,
        Flag::C => 0x10,
    }
}

impl Flag {
    /// The bit of this flag in the flags register.
    pub fn mask(self) -> (m: u8)
        ensures
            m == flag_mask(self),
    {
        match self {
            Flag::Z => 0x80,
            Flag::N => 0x40,
            Flag::H => 0x20,
            Flag::C => 0x10,
        }
    }
}

/// A combination of CPU flags, which are either set or unset
#[derive(Copy, Clone, Debug, Eq, PartialEq, Structural)]
pub struct Flags(pub u8);

/// 1 for true, 0 for false.
pub open spec fn b2i(b: bool) -> int {
    if b {
        1
    } else {
        0
    }
}

impl Flags {
    /// Whether the given flag is set.
    pub open spec fn has(self, flag: Flag) -> bool {
        self.0 & flag_mask(flag) != 0
    }

    /// The flags hold exactly the given Z, N, H and C values, and `low` in their low nibble.
    pub open spec fn are(self, z: bool, n: bool, h: bool, c: bool, low: u8) -> bool {
        &&& self.has(Flag::Z) == z
        &&& self.has(Flag::N) == n
        &&& self.has(Flag::H) == h
        &&& self.has(Flag::C) == c
        &&& self.0 & 0x0F == low
    }

    /// Constructs a Flags value with all flags in the unset state
    pub fn new() -> (r: Self)
        ensures
            r.0 == 0,
            r.are(false, false, false, false, 0),
    {
        proof {
            lemma_flag_bit_update(0, 0x80);
        }
        Self(0)
    }

    /// Returns a new set of flags with the value of the given flag set or unset as requested.
    pub fn with(self, flag: Flag, value: bool) -> (r: Self)
        ensures
            r.0 == (if value { self.0 | flag_mask(flag) } else { self.0 & !flag_mask(flag) }),
            forall|f: Flag| #[trigger] r.has(f) == (if f == flag { value } else { self.has(f) }),
            r.0 & 0x0F == self.0 & 0x0F,
    {
        let m = flag.mask();
        proof {
            lemma_flag_bit_update(self.0, m);
        }
        if value {
            Self(self.0 | m)
        } else {
            Self(self.0 & !m)
        }
    }

    /// Returns true if the given flag is set in the Flags instance.
    pub fn is_flag_set(&self, flag: Flag) -> (r: bool)
        ensures
            r == self.has(flag),
    {
        (self.0 & flag.mask()) != 0
    }
}

/// The flags byte with the given Z, N, H and C flags and low nibble `low`.
pub open spec fn flags_from(z: bool, n: bool, h: bool, c: bool, low: u8) -> Flags {
    Flags(
        ((if z { 0x80int } else { 0 }) + (if n { 0x40int } else { 0 }) + (if h { 0x20int } else { 0 })
            + (if c { 0x10int } else { 0 }) + low) as u8,
    )
}

/// `flags_from` holds the flags and low nibble that it is given.
pub proof fn lemma_flags_from(z: bool, n: bool, h: bool, c: bool, low: u8)
    requires
        low < 16,
    ensures
        flags_from(z, n, h, c, low).are(z, n, h, c, low),
{
    lemma_flag_byte(
        if z { 0x80 } else { 0 },
        if n { 0x40 } else { 0 },
        if h { 0x20 } else { 0 },
        if c { 0x10 } else { 0 },
        low,
    );
}

/// Flags that hold the given flags and low nibble are `flags_from` of them.
pub proof fn lemma_are_flags_from(f: Flags, z: bool, n: bool, h: bool, c: bool, low: u8)
    requires
        f.are(z, n, h, c, low),
    ensures
        f == flags_from(z, n, h, c, low),
{
    let v = f.0;
    assert(low < 16) by (bit_vector)
        requires
            v & 0x0F == low,
    ;
    lemma_flags_from(z, n, h, c, low);
    lemma_flags_eq(f, flags_from(z, n, h, c, low));
}

/// The flags after setting or clearing one flag.
pub open spec fn spec_with(f: Flags, flag: Flag, value: bool) -> Flags {
    Flags(if value { f.0 | flag_mask(flag) } else { f.0 & !flag_mask(flag) })
}

/// Two flag values with the same flags and low nibble are equal.
pub proof fn lemma_flags_eq(f: Flags, g: Flags)
    requires
        f.are(g.has(Flag::Z), g.has(Flag::N), g.has(Flag::H), g.has(Flag::C), g.0 & 0x0F),
    ensures
        f == g,
{
    lemma_nibble_bits(f.0, g.0);
    lemma_byte_from_bits(f.0, g.0);
}

/// Clock cycles, not machine cycles
#[derive(Debug, Clone, Copy, PartialEq, Eq, Structural)]
pub struct Cycles(pub usize);

impl Cycles {
    /// Creates a Cycles instance with the given number of cycles
    pub fn new(value: usize) -> (r: Self)
        ensures
            r.0 == value,
    {
        Self(value)
    }

    /// Wraps around the given maximum value
    pub fn wrap(&self, max: usize) -> (r: Cycles)
        requires
            max > 0,
        ensures
            r.0 == self.0 % max,
    {
        Self(self.0 % max)
    }

    /// The sum of two cycle counts.
    pub fn plus(self, rhs: Cycles) -> (r: Cycles)
        requires
            self.0 + rhs.0 <= usize::MAX,
        ensures
            r.0 == self.0 + rhs.0,
    {
        Self(self.0 + rhs.0)
    }

    /// The difference of two cycle counts.
    pub fn minus(self, rhs: Cycles) -> (r: Cycles)
        requires
            self.0 >= rhs.0,
        ensures
            r.0 == self.0 - rhs.0,
    {
        Self(self.0 - rhs.0)
    }

    /// The number of cycles.
    pub fn value(self) -> (r: usize)
        ensures
            r == self.0,
    {
        self.0
    }
}

/// Whether bit `bit` of `a ^ b ^ c` is set.
pub fn carry_bit8(a: u8, b: u8, c: u8, bit: usize) -> (r: bool)
    requires
        bit < 8,
    ensures
        r == ((a ^ b ^ c) & (1u8 << bit) != 0),
{
    let xor = a ^ b ^ c;
    (xor & (1u8 << bit)) != 0
}

/// Whether bit `bit` of `a ^ b ^ c` is set.
pub fn carry_bit16(a: u16, b: u16, c: u16, bit: usize) -> (r: bool)
    requires
        bit < 16,
    ensures
        r == ((a ^ b ^ c) & (1u16 << bit) != 0),
{
    let xor = a ^ b ^ c;
    (xor & (1u16 << bit)) != 0
}

/// Whether bit `bit` of `a ^ b ^ c` is set.
pub fn carry_bit32(a: u32, b: u32, c: u32, bit: usize) -> (r: bool)
    requires
        bit < 32,
    ensures
        r == ((a ^ b ^ c) & (1u32 << bit) != 0),
{
    let xor = a ^ b ^ c;
    (xor & (1u32 << bit)) != 0
}

/// The result and flags of an 8-bit addition with carry-in.
pub open spec fn spec_add(a: u8, b: u8, carry: bool) -> (u8, Flags) {
    let s = a + b + b2i(carry);
    ((s % 256) as u8, flags_from(s % 256 == 0, false, a % 16 + b % 16 + b2i(carry) >= 16, s >= 256, 0))
}

/// 8-bit addition with carry-in: the sum modulo 256; Z if it is 0, H on a carry out of
/// bit 3, C on a carry out of bit 7.
pub fn add(a: u8, b: u8, carry: bool) -> (r: (u8, Flags))
    ensures
        r == spec_add(a, b, carry),
        r.0 == (a + b + b2i(carry)) % 256,
        r.1.are(
            r.0 == 0,
            false,
            a % 16 + b % 16 + b2i(carry) >= 16,
            a + b + b2i(carry) >= 256,
            0,
        ),
{
    let a = a as u16;
    let b = b as u16;
    let carry: u16 = if carry { 1 } else { 0 };
    let result = a + b + carry;
    proof {
        lemma_shift_constants();
        lemma_add8_carries(a, b, carry, result);
    }
    let flags = Flags::new()
        .with(Flag::Z, (result & 0xFF) == 0)
        .with(Flag::N, false)
        .with(Flag::H, carry_bit16(a, b, result, 4))
        .with(Flag::C, carry_bit16(a, b, result, 8));
    let r = (result as u8, flags);
    proof {
        lemma_are_flags_from(r.1, r.0 == 0, false, a % 16 + b % 16 + carry >= 16, a + b + carry >= 256, 0);
    }
    r
}

/// The result and flags of a 16-bit addition.
pub open spec fn spec_add16(a: u16, b: u16, flags: Flags) -> (u16, Flags) {
    (
        ((a + b) % 65536) as u16,
        flags_from(flags.has(Flag::Z), false, a % 4096 + b % 4096 >= 4096, a + b >= 65536, flags.0 & 0x0F),
    )
}

/// 16-bit addition: the sum modulo 65536; H on a carry out of bit 11, C on a carry out of
/// bit 15, N cleared and Z kept.
pub fn add16(a: u16, b: u16, flags: Flags) -> (r: (u16, Flags))
    ensures
        r == spec_add16(a, b, flags),
        r.0 == (a + b) % 65536,
        r.1.are(
            flags.has(Flag::Z),
            false,
            a % 4096 + b % 4096 >= 4096,
            a + b >= 65536,
            flags.0 & 0x0F,
        ),
{
    let a = a as u32;
    let b = b as u32;
    let result = a + b;
    proof {
        lemma_shift_constants();
        lemma_add16_carries(a, b, result);
    }
    let flags = flags
        .with(Flag::N, false)
        .with(Flag::H, carry_bit32(a, b, result, 12))
        .with(Flag::C, carry_bit32(a, b, result, 16));
    let r = (result as u16, flags);
    proof {
        lemma_are_flags_from(r.1, flags.has(Flag::Z), false, a % 4096 + b % 4096 >= 4096, a + b >= 65536, flags.0 & 0x0F);
    }
    r
}

/// The result and flags of an 8-bit subtraction with borrow-in.
pub open spec fn spec_sub(a: u8, b: u8, carry: bool) -> (u8, Flags) {
    let d = (a + 256 - b - b2i(carry)) % 256;
    (d as u8, flags_from(d == 0, true, a % 16 < b % 16 + b2i(carry), a < b + b2i(carry), 0))
}

/// 8-bit subtraction with borrow-in: the difference modulo 256; Z if it is 0, N set, H on a
/// borrow into bit 4, C on a borrow out of bit 7.
pub fn sub(a: u8, b: u8, carry: bool) -> (r: (u8, Flags))
    ensures
        r == spec_sub(a, b, carry),
        r.0 == (a + 256 - b - b2i(carry)) % 256,
        r.1.are(
            r.0 == 0,
            true,
            a % 16 < b % 16 + b2i(carry),
            a < b + b2i(carry),
            0,
        ),
{
    let a = a as u16;
    let b = b as u16;
    let carry: u16 = if carry { 1 } else { 0 };
    let b_plus_carry = b.wrapping_add(carry);
    proof {
        lemma_not16(b_plus_carry);
    }
    let inv = (!b_plus_carry).wrapping_add(1);  // 2's complement of b + carry
    let result = a.wrapping_add(inv);
    proof {
        lemma_shift_constants();
        lemma_sub8_borrows(a, b, carry, result);
    }
    let flags = Flags::new()
        .with(Flag::Z, (result & 0xFF) == 0)
        .with(Flag::N, true)
        .with(Flag::H, carry_bit16(a, b, result, 4))
        .with(Flag::C, carry_bit16(a, b, result, 8));
    let r = (result as u8, flags);
    proof {
        lemma_are_flags_from(r.1, r.0 == 0, true, a % 16 < b % 16 + carry, a < b + carry, 0);
    }
    r
}

/// The result and flags of a bitwise and.
pub open spec fn spec_and(a: u8, b: u8) -> (u8, Flags) {
    (a & b, flags_from(a & b == 0, false, true, false, 0))
}

/// Bitwise and: Z if the result is 0, H set.
pub fn and(a: u8, b: u8) -> (r: (u8, Flags))
    ensures
        r == spec_and(a, b),
        r.0 == a & b,
        r.1.are(r.0 == 0, false, true, false, 0),
{
    let result = a & b;
    let flags = Flags::new().with(Flag::Z, result == 0).with(Flag::H, true);
    let r = (result, flags);
    proof {
        lemma_are_flags_from(r.1, r.0 == 0, false, true, false, 0);
    }
    r
}

/// The result and flags of a bitwise or.
pub open spec fn spec_or(a: u8, b: u8) -> (u8, Flags) {
    (a | b, flags_from(a | b == 0, false, false, false, 0))
}

/// Bitwise or: Z if the result is 0.
pub fn or(a: u8, b: u8) -> (r: (u8, Flags))
    ensures
        r == spec_or(a, b),
        r.0 == a | b,
        r.1.are(r.0 == 0, false, false, false, 0),
{
    let result = a | b;
    let flags = Flags::new().with(Flag::Z, result == 0);
    let r = (result, flags);
    proof {
        lemma_are_flags_from(r.1, r.0 == 0, false, false, false, 0);
    }
    r
}

/// The result and flags of a bitwise exclusive or.
pub open spec fn spec_xor(a: u8, b: u8) -> (u8, Flags) {
    (a ^ b, flags_from(a ^ b == 0, false, false, false, 0))
}

/// Bitwise exclusive or: Z if the result is 0.
pub fn xor(a: u8, b: u8) -> (r: (u8, Flags))
    ensures
        r == spec_xor(a, b),
        r.0 == a ^ b,
        r.1.are(r.0 == 0, false, false, false, 0),
{
    let result = a ^ b;
    let flags = Flags::new().with(Flag::Z, result == 0);
    let r = (result, flags);
    proof {
        lemma_are_flags_from(r.1, r.0 == 0, false, false, false, 0);
    }
    r
}

/// The decimal adjustment of `a`, and whether it carries out, after a BCD addition
/// (N clear) or subtraction (N set) that left the flags `flags`.
pub open spec fn spec_daa(a: u8, flags: Flags) -> (u8, bool) {
    if flags.has(Flag::N) {
        let correction: int = if flags.has(Flag::C) {
            if flags.has(Flag::H) {
                0x66
            } else {
                0x60
            }
        } else if flags.has(Flag::H) {
            0x06
        } else {
            0
        };
        (((a + 256 - correction) % 256) as u8, flags.has(Flag::C))
    } else {
        let low: int = if a % 16 > 9 || flags.has(Flag::H) {
            0x06
        } else {
            0
        };
        let high: int = if a > 0x99 || flags.has(Flag::C) {
            0x60
        } else {
            0
        };
        (((a + low + high) % 256) as u8, a > 0x99 || flags.has(Flag::C))
    }
}

/// The result and flags of a decimal adjustment.
pub open spec fn spec_daa_flags(a: u8, flags: Flags) -> (u8, Flags) {
    let (v, c) = spec_daa(a, flags);
    (v, flags_from(v == 0, flags.has(Flag::N), false, c, flags.0 & 0x0F))
}

/// Decimal adjustment of the accumulator after a BCD addition or subtraction: Z if the
/// result is 0, H cleared, C on a decimal carry; N and the low nibble are kept.
pub fn daa(a: u8, flags: Flags) -> (r: (u8, Flags))
    ensures
        r == spec_daa_flags(a, flags),
        r.0 == spec_daa(a, flags).0,
        r.1.are(r.0 == 0, flags.has(Flag::N), false, spec_daa(a, flags).1, flags.0 & 0x0F),
{
    let mut result = a;
    let mut carry = false;

    if flags.is_flag_set(Flag::N) {
        // Adjust subtraction
        carry = flags.is_flag_set(Flag::C);
        let correction: u8 = match (flags.is_flag_set(Flag::C), flags.is_flag_set(Flag::H)) {
            (false, false) => 0,
            (true, false) => 0xA0,  // 2's complement of 0x60
            (false, true) => 0xFA,  // 2's complement of 0x06
            (true, true) => 0x9A,  // 2's complement of 0x66
        };
        result = result.wrapping_add(correction);
    } else {
        // Adjust addition
        if (a % 16 > 9) || flags.is_flag_set(Flag::H) {
            result = result.wrapping_add(0x06);
        }
        if (a > 0x99) || flags.is_flag_set(Flag::C) {
            result = result.wrapping_add(0x60);
            carry = true;
        }
    }

    let flags = flags.with(Flag::Z, result == 0).with(Flag::H, false).with(Flag::C, carry);
    let r = (result, flags);
    proof {
        lemma_are_flags_from(r.1, r.0 == 0, flags.has(Flag::N), false, spec_daa(a, flags).1, flags.0 & 0x0F);
    }
    r
}

/// The result and flags of a rotation left through bit 7.
pub open spec fn spec_rlc(value: u8, real_z: bool) -> (u8, Flags) {
    let v = (value % 128) * 2 + value / 128;
    (v as u8, flags_from(v == 0 && real_z, false, false, value >= 128, 0))
}

/// Rotation left through bit 7: bit 7 moves to bit 0 and to C; Z only when `real_z` and
/// the result is 0.
pub fn rlc(value: u8, real_z: bool) -> (r: (u8, Flags))
    ensures
        r == spec_rlc(value, real_z),
        r.0 == (value % 128) * 2 + value / 128,
        r.1.are(r.0 == 0 && real_z, false, false, value >= 128, 0),
{
    proof {
        lemma_byte_shifts(value);
    }
    let carry = (value & 0x80) != 0;
    let mut shifted = value << 1u8;
    if carry {
        shifted = shifted | 1;
    }
    let flags = Flags::new().with(Flag::C, carry).with(Flag::Z, shifted == 0 && real_z);
    let r = (shifted, flags);
    proof {
        lemma_are_flags_from(r.1, r.0 == 0 && real_z, false, false, value >= 128, 0);
    }
    r
}

/// The result and flags of a rotation right through bit 0.
pub open spec fn spec_rrc(value: u8, real_z: bool) -> (u8, Flags) {
    let v = value / 2 + (value % 2) * 128;
    (v as u8, flags_from(v == 0 && real_z, false, false, value % 2 == 1, 0))
}

/// Rotation right through bit 0: bit 0 moves to bit 7 and to C; Z only when `real_z` and
/// the result is 0.
pub fn rrc(value: u8, real_z: bool) -> (r: (u8, Flags))
    ensures
        r == spec_rrc(value, real_z),
        r.0 == value / 2 + (value % 2) * 128,
        r.1.are(r.0 == 0 && real_z, false, false, value % 2 == 1, 0),
{
    proof {
        lemma_byte_shifts(value);
    }
    let carry = (value & 0x01) != 0;
    let mut shifted = value >> 1u8;
    if carry {
        shifted = shifted | 0x80;
    }
    let flags = Flags::new().with(Flag::C, carry).with(Flag::Z, shifted == 0 && real_z);
    let r = (shifted, flags);
    proof {
        lemma_are_flags_from(r.1, r.0 == 0 && real_z, false, false, value % 2 == 1, 0);
    }
    r
}

/// The result and flags of a rotation left through the carry.
pub open spec fn spec_rl(value: u8, old_carry: bool, real_z: bool) -> (u8, Flags) {
    let v = (value % 128) * 2 + b2i(old_carry);
    (v as u8, flags_from(v == 0 && real_z, false, false, value >= 128, 0))
}

/// Rotation left through the carry: the old carry moves to bit 0, bit 7 to C; Z only
/// when `real_z` and the result is 0.
pub fn rl(value: u8, old_carry: bool, real_z: bool) -> (r: (u8, Flags))
    ensures
        r == spec_rl(value, old_carry, real_z),
        r.0 == (value % 128) * 2 + b2i(old_carry),
        r.1.are(r.0 == 0 && real_z, false, false, value >= 128, 0),
{
    proof {
        lemma_byte_shifts(value);
    }
    let mut shifted = value << 1u8;
    if old_carry {
        shifted = shifted | 0x01;
    }
    let new_carry = (value & 0x80) != 0;
    let flags = Flags::new().with(Flag::C, new_carry).with(Flag::Z, shifted == 0 && real_z);
    let r = (shifted, flags);
    proof {
        lemma_are_flags_from(r.1, r.0 == 0 && real_z, false, false, value >= 128, 0);
    }
    r
}

/// The result and flags of a rotation right through the carry.
pub open spec fn spec_rr(value: u8, old_carry: bool, real_z: bool) -> (u8, Flags) {
    let v = value / 2 + b2i(old_carry) * 128;
    (v as u8, flags_from(v == 0 && real_z, false, false, value % 2 == 1, 0))
}

/// Rotation right through the carry: the old carry moves to bit 7, bit 0 to C; Z only
/// when `real_z` and the result is 0.
pub fn rr(value: u8, old_carry: bool, real_z: bool) -> (r: (u8, Flags))
    ensures
        r == spec_rr(value, old_carry, real_z),
        r.0 == value / 2 + b2i(old_carry) * 128,
        r.1.are(r.0 == 0 && real_z, false, false, value % 2 == 1, 0),
{
    proof {
        lemma_byte_shifts(value);
    }
    let mut shifted = value >> 1u8;
    if old_carry {
        shifted = shifted | 0x80;
    }
    let new_carry = (value & 0x01) != 0;
    let flags = Flags::new().with(Flag::C, new_carry).with(Flag::Z, shifted == 0 && real_z);
    let r = (shifted, flags);
    proof {
        lemma_are_flags_from(r.1, r.0 == 0 && real_z, false, false, value % 2 == 1, 0);
    }
    r
}

/// The result and flags of an arithmetic shift left.
pub open spec fn spec_sla(value: u8) -> (u8, Flags) {
    let v = (value % 128) * 2;
    (v as u8, flags_from(v == 0, false, false, value >= 128, 0))
}

/// Arithmetic shift left: bit 7 moves to C, bit 0 becomes 0.
pub fn sla(value: u8) -> (r: (u8, Flags))
    ensures
        r == spec_sla(value),
        r.0 == (value % 128) * 2,
        r.1.are(r.0 == 0, false, false, value >= 128, 0),
{
    proof {
        lemma_byte_shifts(value);
    }
    let shifted = value << 1u8;
    let new_carry = (value & 0x80) != 0;
    let flags = Flags::new().with(Flag::C, new_carry).with(Flag::Z, shifted == 0);
    let r = (shifted, flags);
    proof {
        lemma_are_flags_from(r.1, r.0 == 0, false, false, value >= 128, 0);
    }
    r
}

/// The result and flags of an arithmetic shift right.
pub open spec fn spec_sra(value: u8) -> (u8, Flags) {
    let v = value / 2 + (if value >= 128 { 128int } else { 0 });
    (v as u8, flags_from(v == 0, false, false, value % 2 == 1, 0))
}

/// Arithmetic shift right: bit 0 moves to C, bit 7 is kept.
pub fn sra(value: u8) -> (r: (u8, Flags))
    ensures
        r == spec_sra(value),
        r.0 == value / 2 + (if value >= 128 { 128int } else { 0 }),
        r.1.are(r.0 == 0, false, false, value % 2 == 1, 0),
{
    proof {
        lemma_byte_shifts(value);
    }
    let negative = (value & 0x80) != 0;
    let new_carry = (value & 0x01) != 0;
    let shifted = (value >> 1u8) | if negative { 0x80u8 } else { 0x00u8 };
    let flags = Flags::new().with(Flag::C, new_carry).with(Flag::Z, shifted == 0);
    let r = (shifted, flags);
    proof {
        lemma_are_flags_from(r.1, r.0 == 0, false, false, value % 2 == 1, 0);
    }
    r
}

/// The result and flags of a nibble swap.
pub open spec fn spec_swap(value: u8) -> (u8, Flags) {
    let v = (value % 16) * 16 + value / 16;
    (v as u8, flags_from(v == 0, false, false, false, 0))
}

/// Exchange of the two nibbles: Z if the result is 0.
pub fn swap(value: u8) -> (r: (u8, Flags))
    ensures
        r == spec_swap(value),
        r.0 == (value % 16) * 16 + value / 16,
        r.1.are(r.0 == 0, false, false, false, 0),
{
    proof {
        lemma_byte_shifts(value);
    }
    let swapped = (value >> 4u8) | (value << 4u8);
    let flags = Flags::new().with(Flag::Z, swapped == 0);
    let r = (swapped, flags);
    proof {
        lemma_are_flags_from(r.1, r.0 == 0, false, false, false, 0);
    }
    r
}

/// The result and flags of a logical shift right.
pub open spec fn spec_srl(value: u8) -> (u8, Flags) {
    let v = value / 2;
    (v as u8, flags_from(v == 0, false, false, value % 2 == 1, 0))
}

/// Logical shift right: bit 0 moves to C, bit 7 becomes 0.
pub fn srl(value: u8) -> (r: (u8, Flags))
    ensures
        r == spec_srl(value),
        r.0 == value / 2,
        r.1.are(r.0 == 0, false, false, value % 2 == 1, 0),
{
    proof {
        lemma_byte_shifts(value);
    }
    let new_carry = (value & 0x01) != 0;
    let shifted = value >> 1u8;
    let flags = Flags::new().with(Flag::C, new_carry).with(Flag::Z, shifted == 0);
    let r = (shifted, flags);
    proof {
        lemma_are_flags_from(r.1, r.0 == 0, false, false, value % 2 == 1, 0);
    }
    r
}

/// The index of a bit.
pub open spec fn bit_index(bit: Bit) -> nat {
    match bit {
        Bit::Bit0 => 0,
        Bit::Bit1 => 1,
        Bit::Bit2 => 2,
        Bit::Bit3 => 3,
        Bit::Bit4 => 4,
        Bit::Bit5 => 5,
        Bit::Bit6 => 6,
        Bit::Bit7 => 7,
    }
}

/// The single-bit mask of a bit index.
pub open spec fn spec_bit_mask(bit: Bit) -> u8 {
    match bit {
        Bit::Bit0 => 0x01,
        Bit::Bit1 => 0x02,
        Bit::Bit2 => 0x04,
        Bit::Bit3 => 0x08,
        Bit::Bit4 => 0x10,
        Bit::Bit5 => 0x20,
        Bit::Bit6 => 0x40,
        Bit::Bit7 => 0x80,
    }
}

/// The single-bit mask of a bit index.
pub fn bit_mask(bit: Bit) -> (r: u8)
    ensures
        r == spec_bit_mask(bit),
{
    match bit {
        Bit::Bit0 => 0x01,
        Bit::Bit1 => 0x02,
        Bit::Bit2 => 0x04,
        Bit::Bit3 => 0x08,
        Bit::Bit4 => 0x10,
        Bit::Bit5 => 0x20,
        Bit::Bit6 => 0x40,
        Bit::Bit7 => 0x80,
    }
}

/// The flags after a bit test.
pub open spec fn spec_bit(bit_idx: Bit, value: u8, flags: Flags) -> Flags {
    flags_from(value & spec_bit_mask(bit_idx) == 0, false, true, flags.has(Flag::C), flags.0 & 0x0F)
}

/// Bit test: Z when the bit is clear, N cleared, H set, C and the low nibble kept.
pub fn bit(bit_idx: Bit, value: u8, flags: Flags) -> (r: Flags)
    ensures
        r.are(
            value & spec_bit_mask(bit_idx) == 0,
            false,
            true,
            flags.has(Flag::C),
            flags.0 & 0x0F,
        ),
        r == spec_bit(bit_idx, value, flags),
{
    let bit = bit_mask(bit_idx);
    let z_flag = (value & bit) == 0;
    let r = flags.with(Flag::N, false).with(Flag::H, true).with(Flag::Z, z_flag);
    proof {
        lemma_are_flags_from(r, z_flag, false, true, flags.has(Flag::C), flags.0 & 0x0F);
    }
    r
}

/// Clears a bit of a byte.
pub fn res(bit_idx: Bit, value: u8) -> (r: u8)
    ensures
        r == value & !spec_bit_mask(bit_idx),
{
    value & !bit_mask(bit_idx)
}

/// Sets a bit of a byte.
pub fn set(bit_idx: Bit, value: u8) -> (r: u8)
    ensures
        r == value | spec_bit_mask(bit_idx),
{
    value | bit_mask(bit_idx)
}

/// The 16-bit two's complement sign extension of a byte.
pub open spec fn spec_sign_extend(a: u8) -> u16 {
    if a < 128 {
        a as u16
    } else {
        (a + 0xFF00) as u16
    }
}

/// Sign-extends a byte to 16 bits.
pub fn sign_extend(a: u8) -> (r: u16)
    ensures
        r == spec_sign_extend(a),
{
    if a < 128 {
        a as u16
    } else {
        a as u16 + 0xFF00
    }
}

/// The address that a reset instruction jumps to.
pub open spec fn spec_reset_target(target: ResetTarget) -> u16 {
    match target {
        ResetTarget::Addr0x00 => 0x00,
        ResetTarget::Addr0x08 => 0x08,
        ResetTarget::Addr0x10 => 0x10,
        ResetTarget::Addr0x18 => 0x18,
        ResetTarget::Addr0x20 => 0x20,
        ResetTarget::Addr0x28 => 0x28,
        ResetTarget::Addr0x30 => 0x30,
        ResetTarget::Addr0x38 => 0x38,
    }
}

/// The address that a reset instruction jumps to.
pub fn translate_reset_target(target: ResetTarget) -> (r: u16)
    ensures
        r == spec_reset_target(target),
{
    match target {
        ResetTarget::Addr0x00 => 0x00,
        ResetTarget::Addr0x08 => 0x08,
        ResetTarget::Addr0x10 => 0x10,
        ResetTarget::Addr0x18 => 0x18,
        ResetTarget::Addr0x20 => 0x20,
        ResetTarget::Addr0x28 => 0x28,
        ResetTarget::Addr0x30 => 0x30,
        ResetTarget::Addr0x38 => 0x38,
    }
}

/// The address of the handler of an interrupt.
pub open spec fn spec_irq_target(interrupt: Interrupt) -> u16 {
    match interrupt {
        Interrupt::Vblank => 0x40,
        Interrupt::Lcd => 0x48,
        Interrupt::Timer => 0x50,
        Interrupt::Serial => 0x58,
        Interrupt::Joypad => 0x60,
    }
}

/// The address of the handler of an interrupt.
pub fn translate_irq_target(interrupt: Interrupt) -> (r: u16)
    ensures
        r == spec_irq_target(interrupt),
{
    match interrupt {
        Interrupt::Vblank => 0x40,
        Interrupt::Lcd => 0x48,
        Interrupt::Timer => 0x50,
        Interrupt::Serial => 0x58,
        Interrupt::Joypad => 0x60,
    }
}

/// A rotation right through bit 0 undoes a rotation left through bit 7, and the other way
/// round.
pub proof fn lemma_rotations_undo(value: u8, z1: bool, z2: bool)
    ensures
        spec_rrc(spec_rlc(value, z1).0, z2).0 == value,
        spec_rlc(spec_rrc(value, z1).0, z2).0 == value,
{
}

/// A rotation right through the carry undoes a rotation left through the carry, given the
/// carry that the left rotation set, and gives back the carry it started with; and the other
/// way round.
pub proof fn lemma_carry_rotations_undo(value: u8, carry: bool, z1: bool, z2: bool)
    ensures
        ({
            let (r, f) = spec_rl(value, carry, z1);
            let (back, g) = spec_rr(r, f.has(Flag::C), z2);
            back == value && g.has(Flag::C) == carry
        }),
        ({
            let (r, f) = spec_rr(value, carry, z1);
            let (back, g) = spec_rl(r, f.has(Flag::C), z2);
            back == value && g.has(Flag::C) == carry
        }),
{
    let (r, f) = spec_rl(value, carry, z1);
    lemma_flags_from(r == 0 && z1, false, false, value >= 128, 0);
    let (back, g) = spec_rr(r, f.has(Flag::C), z2);
    lemma_flags_from(back == 0 && z2, false, false, r % 2 == 1, 0);
    let (r2, f2) = spec_rr(value, carry, z1);
    lemma_flags_from(r2 == 0 && z1, false, false, value % 2 == 1, 0);
    let (back2, g2) = spec_rl(r2, f2.has(Flag::C), z2);
    lemma_flags_from(back2 == 0 && z2, false, false, r2 >= 128, 0);
}

/// Swapping the nibbles twice gives back the value.
pub proof fn lemma_swap_twice(value: u8)
    ensures
        spec_swap(spec_swap(value).0).0 == value,
{
}

/// Whether both digits of `x` are decimal digits (binary-coded decimal).
pub open spec fn is_bcd(x: u8) -> bool {
    x % 16 <= 9 && x / 16 <= 9
}

/// The number 0 to 99 that a binary-coded decimal byte stands for.
pub open spec fn bcd_value(x: u8) -> int {
    (x / 16) * 10 + x % 16
}

/// After adding two binary-coded decimal bytes (with a carry-in), DAA gives the binary-coded
/// decimal sum modulo 100 and sets the carry exactly when the decimal sum reaches 100.
pub proof fn lemma_daa_after_add(a: u8, b: u8, carry: bool)
    requires
        is_bcd(a),
        is_bcd(b),
    ensures
        ({
            let (s, f) = spec_add(a, b, carry);
            let (d, c) = spec_daa(s, f);
            let n = bcd_value(a) + bcd_value(b) + b2i(carry);
            &&& is_bcd(d)
            &&& bcd_value(d) == n % 100
            &&& c == (n >= 100)
        }),
{
    let ci: u16 = if carry { 1 } else { 0 };
    let a16 = a as u16;
    let b16 = b as u16;
    let sum: u16 = (a16 + b16 + ci) as u16;
    let h: bool = a16 % 16 + b16 % 16 + ci >= 16;
    let cy: bool = sum >= 256;
    let s16: u16 = sum % 256;
    let low: u16 = if s16 % 16 > 9 || h { 6 } else { 0 };
    let high: u16 = if s16 > 0x99 || cy { 0x60 } else { 0 };
    let d16: u16 = ((s16 + low + high) % 256) as u16;
    let cout: bool = s16 > 0x99 || cy;
    let n16: u16 = ((a16 / 16) * 10 + a16 % 16 + (b16 / 16) * 10 + b16 % 16 + ci) as u16;
    let dv: u16 = ((d16 / 16) * 10 + d16 % 16) as u16;
    assert(d16 % 16 <= 9 && d16 / 16 <= 9 && dv == n16 % 100 && cout == (n16 >= 100))
        by (bit_vector)
        requires
            n16 == ((a16 / 16) * 10 + a16 % 16 + (b16 / 16) * 10 + b16 % 16 + ci) as u16,
            dv == ((d16 / 16) * 10 + d16 % 16) as u16,
            a16 < 256,
            b16 < 256,
            a16 % 16 <= 9,
            a16 / 16 <= 9,
            b16 % 16 <= 9,
            b16 / 16 <= 9,
            ci <= 1,
            sum == (a16 + b16 + ci) as u16,
            h == (a16 % 16 + b16 % 16 + ci >= 16),
            cy == (sum >= 256),
            s16 == sum % 256,
            (s16 % 16 > 9 || h) ==> low == 6u16,
            !(s16 % 16 > 9 || h) ==> low == 0u16,
            (s16 > 0x99 || cy) ==> high == 0x60u16,
            !(s16 > 0x99 || cy) ==> high == 0u16,
            d16 == ((s16 + low + high) % 256) as u16,
            cout == (s16 > 0x99 || cy),
    ;
    lemma_flags_from((a + b + b2i(carry)) % 256 == 0, false, h, cy, 0);
}

/// After subtracting a binary-coded decimal byte (and a borrow) from another, DAA gives the
/// binary-coded decimal difference modulo 100 and sets the carry exactly when the decimal
/// difference is negative.
pub proof fn lemma_daa_after_sub(a: u8, b: u8, carry: bool)
    requires
        is_bcd(a),
        is_bcd(b),
    ensures
        ({
            let (s, f) = spec_sub(a, b, carry);
            let (d, c) = spec_daa(s, f);
            let n = bcd_value(a) - bcd_value(b) - b2i(carry);
            &&& is_bcd(d)
            &&& bcd_value(d) == n % 100
            &&& c == (n < 0)
        }),
{
    let ci: u16 = if carry { 1 } else { 0 };
    let a16 = a as u16;
    let b16 = b as u16;
    let s16: u16 = ((a16 + 256 - b16 - ci) % 256) as u16;
    let h: bool = a16 % 16 < b16 % 16 + ci;
    let cy: bool = a16 < b16 + ci;
    let corr: u16 = if cy {
        if h { 0x66 } else { 0x60 }
    } else if h {
        0x06
    } else {
        0
    };
    let d16: u16 = ((s16 + 256 - corr) % 256) as u16;
    let dv: u16 = ((d16 / 16) * 10 + d16 % 16) as u16;
    let av: u16 = ((a16 / 16) * 10 + a16 % 16) as u16;
    let bv: u16 = ((b16 / 16) * 10 + b16 % 16 + ci) as u16;
    assert(d16 % 16 <= 9 && d16 / 16 <= 9 && (av >= bv ==> dv == av - bv) && (av < bv ==> dv
        == av + 100 - bv) && cy == (av < bv)) by (bit_vector)
        requires
            a16 < 256,
            b16 < 256,
            a16 % 16 <= 9,
            a16 / 16 <= 9,
            b16 % 16 <= 9,
            b16 / 16 <= 9,
            ci <= 1,
            s16 == ((a16 + 256 - b16 - ci) % 256) as u16,
            h == (a16 % 16 < b16 % 16 + ci),
            cy == (a16 < b16 + ci),
            (cy && h) ==> corr == 0x66u16,
            (cy && !h) ==> corr == 0x60u16,
            (!cy && h) ==> corr == 0x06u16,
            (!cy && !h) ==> corr == 0u16,
            d16 == ((s16 + 256 - corr) % 256) as u16,
            dv == ((d16 / 16) * 10 + d16 % 16) as u16,
            av == ((a16 / 16) * 10 + a16 % 16) as u16,
            bv == ((b16 / 16) * 10 + b16 % 16 + ci) as u16,
    ;
    let d = (a + 256 - b - b2i(carry)) % 256;
    lemma_flags_from(d == 0, true, h, cy, 0);
}

/// Subtracting what was added gives back the value, with or without a carry.
pub proof fn lemma_sub_undoes_add(a: u8, b: u8, carry: bool)
    ensures
        spec_sub(spec_add(a, b, carry).0, b, carry).0 == a,
{
}

} // verus!
