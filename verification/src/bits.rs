//! Facts about the bit-level encodings used by the emulator: carries computed from the
//! exclusive-or of operands and result, shifts and rotations of bytes, and flag masks.
use vstd::prelude::*;

verus! {

/// The carry out of bit 3 and bit 7 of an 8-bit addition with carry-in `c`, as read from
/// the exclusive-or of the operands and the 16-bit sum.
pub proof fn lemma_add8_carries(a: u16, b: u16, c: u16, r: u16)
    by (bit_vector)
    requires
        a < 256,
        b < 256,
        c < 2,
        r == a + b + c,
    ensures
        ((a ^ b ^ r) & 0x10 != 0) == ((a % 16) + (b % 16) + c >= 16),
        ((a ^ b ^ r) & 0x100 != 0) == (a + b + c >= 256),
        (r as u8) as u16 == r % 256,
        r & 0xFF == r % 256,
{
}

/// The borrow into bit 4 and bit 8 of an 8-bit subtraction with borrow-in `c`, computed as
/// the addition of the two's complement of `b + c`, read from the exclusive-or of `a`, `b`
/// and the 16-bit difference.
pub proof fn lemma_sub8_borrows(a: u16, b: u16, c: u16, r: u16)
    by (bit_vector)
    requires
        a < 256,
        b < 256,
        c < 2,
        (a >= b + c && r == a - b - c) || (a < b + c && r == a + 65536 - b - c),
    ensures
        ((a ^ b ^ r) & 0x10 != 0) == ((a % 16) < (b % 16) + c),
        ((a ^ b ^ r) & 0x100 != 0) == (a < b + c),
        r & 0xFF == r % 256,
        (r as u8) as u16 == r % 256,
{
}

/// The complement of a 16-bit word.
pub proof fn lemma_not16(x: u16)
    by (bit_vector)
    ensures
        !x == 65535 - x,
{
}

/// The carries out of bit 11 and bit 15 of a 16-bit addition, read from the exclusive-or
/// of the operands and the 32-bit sum.
pub proof fn lemma_add16_carries(a: u32, b: u32, r: u32)
    by (bit_vector)
    requires
        a < 0x10000,
        b < 0x10000,
        r == a + b,
    ensures
        ((a ^ b ^ r) & 0x1000 != 0) == ((a % 4096) + (b % 4096) >= 4096),
        ((a ^ b ^ r) & 0x10000 != 0) == (a + b >= 0x10000),
        (r as u16) as u32 == r % 65536,
{
}

/// The carry out of bit 3 when incrementing a byte, and the borrow into bit 4 when
/// decrementing it (adding 0xFF), as read from the exclusive-or of operands and result.
pub proof fn lemma_inc_dec8(v: u8, inc: u8, dec: u8)
    by (bit_vector)
    requires
        (v < 255 && inc == v + 1) || (v == 255 && inc == 0),
        (v > 0 && dec == v - 1) || (v == 0 && dec == 255),
    ensures
        ((v ^ 1u8 ^ inc) & 0x10 != 0) == (v % 16 == 15),
        ((0xFFu8 ^ v ^ dec) & 0x10 != 0) == (v % 16 != 0),
{
}

/// The carries out of bit 3 and bit 7 when adding a sign-extended byte `imm` to a 16-bit
/// value `sp`: both only depend on the low byte of the operands.
pub proof fn lemma_add_signed_carries(imm: u16, sp: u16, r: u16)
    by (bit_vector)
    requires
        (sp + imm < 65536 && r == sp + imm) || (sp + imm >= 65536 && r == sp + imm - 65536),
    ensures
        ((imm ^ sp ^ r) & 0x10 != 0) == ((imm % 16) + (sp % 16) >= 16),
        ((imm ^ sp ^ r) & 0x100 != 0) == ((imm % 256) + (sp % 256) >= 256),
{
}

/// Shifts, rotations and nibble swaps of a byte, written arithmetically.
pub proof fn lemma_byte_shifts(v: u8)
    by (bit_vector)
    ensures
        v << 1u8 == (v % 128) * 2,
        (v << 1u8) | 1u8 == (v % 128) * 2 + 1,
        v >> 1u8 == v / 2,
        (v >> 1u8) | 0x80u8 == v / 2 + 128,
        (v & 0x80 != 0) == (v >= 128),
        (v & 0x01 != 0) == (v % 2 == 1),
        (v >> 4u8) | (v << 4u8) == (v % 16) * 16 + v / 16,
        (v >> 1u8) | 0u8 == v / 2,
{
}

/// Setting or clearing one of the four flag bits (masks 0x10, 0x20, 0x40, 0x80) of a byte
/// changes that bit and keeps the other flag bits and the low nibble.
pub proof fn lemma_flag_bit_update(v: u8, m: u8)
    by (bit_vector)
    requires
        m == 0x10 || m == 0x20 || m == 0x40 || m == 0x80,
    ensures
        ((v | m) & 0x80 != 0) == (m == 0x80 || v & 0x80 != 0),
        ((v | m) & 0x40 != 0) == (m == 0x40 || v & 0x40 != 0),
        ((v | m) & 0x20 != 0) == (m == 0x20 || v & 0x20 != 0),
        ((v | m) & 0x10 != 0) == (m == 0x10 || v & 0x10 != 0),
        ((v & !m) & 0x80 != 0) == (m != 0x80 && v & 0x80 != 0),
        ((v & !m) & 0x40 != 0) == (m != 0x40 && v & 0x40 != 0),
        ((v & !m) & 0x20 != 0) == (m != 0x20 && v & 0x20 != 0),
        ((v & !m) & 0x10 != 0) == (m != 0x10 && v & 0x10 != 0),
        (v | m) & 0x0F == v & 0x0F,
        (v & !m) & 0x0F == v & 0x0F,
        0u8 & 0x80 == 0,
        0u8 & 0x40 == 0,
        0u8 & 0x20 == 0,
        0u8 & 0x10 == 0,
        0u8 & 0x0F == 0,
{
}

/// The single-bit masks used for carries.
pub proof fn lemma_shift_constants()
    by (bit_vector)
    ensures
        1u8 << 4usize == 0x10u8,
        1u16 << 4usize == 0x10u16,
        1u16 << 8usize == 0x100u16,
        1u32 << 12usize == 0x1000u32,
        1u32 << 16usize == 0x10000u32,
{
}

/// The low nibble of a byte determines its four low bits.
pub proof fn lemma_nibble_bits(x: u8, y: u8)
    by (bit_vector)
    requires
        x & 0x0F == y & 0x0F,
    ensures
        (x & 1 != 0) == (y & 1 != 0),
        (x & 2 != 0) == (y & 2 != 0),
        (x & 4 != 0) == (y & 4 != 0),
        (x & 8 != 0) == (y & 8 != 0),
{
}

/// The byte made of the four flag bits `z`, `n`, `h`, `c` (bits 7 to 4) and a low nibble.
pub proof fn lemma_flag_byte(z: u8, n: u8, h: u8, c: u8, low: u8)
    by (bit_vector)
    requires
        z == 0 || z == 0x80,
        n == 0 || n == 0x40,
        h == 0 || h == 0x20,
        c == 0 || c == 0x10,
        low < 16,
    ensures
        ((z + n + h + c + low) as u8) & 0x80 != 0 <==> z != 0,
        ((z + n + h + c + low) as u8) & 0x40 != 0 <==> n != 0,
        ((z + n + h + c + low) as u8) & 0x20 != 0 <==> h != 0,
        ((z + n + h + c + low) as u8) & 0x10 != 0 <==> c != 0,
        ((z + n + h + c + low) as u8) & 0x0F == low,
{
}

/// Bounds of masked values.
pub proof fn lemma_mask_bounds(v: usize, n: usize, bank: usize, b: usize)
    by (bit_vector)
    requires
        n > 0,
        b < 256,
    ensures
        v & ((n - 1) as usize) < n,
        v & 0x1F < 32,
        v & 0x0F < 16,
        v & 0x03 < 4,
        v & 0x01 < 2,
        (bank & 0x100) | b < 0x200,
        (bank & 0xFF) | (b << 8usize) < 0x10000,
{
}

/// A byte is determined by its eight single bits.
pub proof fn lemma_byte_from_bits(x: u8, y: u8)
    by (bit_vector)
    requires
        (x & 1 != 0) == (y & 1 != 0),
        (x & 2 != 0) == (y & 2 != 0),
        (x & 4 != 0) == (y & 4 != 0),
        (x & 8 != 0) == (y & 8 != 0),
        (x & 16 != 0) == (y & 16 != 0),
        (x & 32 != 0) == (y & 32 != 0),
        (x & 64 != 0) == (y & 64 != 0),
        (x & 128 != 0) == (y & 128 != 0),
    ensures
        x == y,
{
}

} // verus!
