//! LEB128: unsigned numbers in 7-bit groups, least significant first, with bit 7 set on every
//! byte but the last.
use vstd::prelude::*;

verus! {

const WORD_MASK: u8 = 0x7f;

const NEXT_BIT: u8 = 0x80;

/// The number of bytes of the number that starts at position `i` of `data`: up to the first
/// byte without the continuation bit (bit 7), or to the end of the data.
pub open spec fn leb128_len_from(data: Seq<u8>, i: int) -> int
    decreases data.len() - i,
{
    if i >= data.len() {
        data.len() as int
    } else if data[i] & 0x80 == 0 {
        i + 1
    } else {
        leb128_len_from(data, i + 1)
    }
}

/// The number of bytes of the number at the start of `data`.
pub open spec fn leb128_len(data: Seq<u8>) -> int {
    leb128_len_from(data, 0)
}

/// The value of the first `n` bytes of a number: byte `i` holds bits `7 * i` to `7 * i + 6`.
pub open spec fn leb128_value(data: Seq<u8>, n: nat) -> u128
    decreases n,
{
    if n == 0 {
        0
    } else {
        leb128_value(data, (n - 1) as nat) | (((data[n - 1] & 0x7f) as u128) << ((7 * (n - 1))
            as u128))
    }
}

/// The number at the start of `data` ends by the end of the data.
pub proof fn lemma_leb128_len(data: Seq<u8>)
    ensures
        0 <= leb128_len(data) <= data.len(),
        data.len() > 0 ==> leb128_len(data) > 0,
{
    if data.len() > 0 {
        lemma_leb128_len_from(data, 0);
    }
}

/// The number that starts at position `i` ends after it, and by the end of the data.
proof fn lemma_leb128_len_from(data: Seq<u8>, i: int)
    requires
        0 <= i < data.len(),
    ensures
        i < leb128_len_from(data, i) <= data.len(),
    decreases data.len() - i,
{
    if data[i] & 0x80 != 0 {
        if i + 1 < data.len() {
            lemma_leb128_len_from(data, i + 1);
        } else {
            assert(leb128_len_from(data, i + 1) == data.len());
        }
    }
}

/// Decodes the number at the start of `data`, and returns it with the bytes that follow it.
pub fn parse_leb128(data: &[u8]) -> (r: (u128, &[u8]))
    requires
        leb128_len(data@) <= 19,
    ensures
        r.0 == leb128_value(data@, leb128_len(data@) as nat),
        r.1@ == data@.subrange(leb128_len(data@), data@.len() as int),
{
    let mut value: u128 = 0;
    let mut offset: usize = 0;
    if data.len() == 0 {
        assert(data@.subrange(0, 0) =~= data@);
        return (value, data);
    }
    proof {
        lemma_leb128_len_from(data@, 0);
    }
    loop
        invariant_except_break
            offset < data@.len(),
            offset < leb128_len(data@),
            leb128_len_from(data@, offset as int) == leb128_len(data@),
        invariant
            leb128_len(data@) <= 19,
            value == leb128_value(data@, offset as nat),
        ensures
            offset == leb128_len(data@),
            value == leb128_value(data@, offset as nat),
        decreases data@.len() - offset,
    {
        proof {
            lemma_leb128_len_from(data@, offset as int);
        }
        let cur_word = data[offset] & WORD_MASK;
        let cont = (data[offset] & NEXT_BIT) != 0;
        value = value | ((cur_word as u128) << (7 * offset));
        offset = offset + 1;
        if !cont {
            break ;
        }
        if offset == data.len() {
            assert(leb128_len_from(data@, offset as int) == data@.len());
            break ;
        }
        proof {
            lemma_leb128_len_from(data@, offset as int);
        }
    }
    (value, vstd::slice::slice_subrange(data, offset, data.len()))
}

} // verus!
