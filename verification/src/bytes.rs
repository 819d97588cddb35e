//! Big-endian byte handling shared by the register frames and the report
//! decoder. A reader walks a byte slice with a cursor; a position past the
//! end of the slice reads as zero, as the device block is zero-padded.

use vstd::prelude::*;

verus! {

/// The byte at `i`, or zero past the end of `s`.
pub open spec fn byte_at(s: Seq<u8>, i: int) -> u8 {
    if 0 <= i < s.len() { s[i] } else { 0 }
}

/// The 16-bit value whose big-endian bytes are `hi`, `lo`.
pub open spec fn be16(hi: u8, lo: u8) -> u16 {
    (hi as int * 256 + lo as int) as u16
}

/// The two's-complement reading of a 16-bit word.
pub open spec fn as_signed(v: u16) -> i16 {
    if v < 0x8000 { v as i16 } else { (v as int - 0x10000) as i16 }
}

/// High byte of a 16-bit word.
pub open spec fn hi_byte(v: u16) -> u8 {
    (v as int / 256) as u8
}

/// Low byte of a 16-bit word.
pub open spec fn lo_byte(v: u16) -> u8 {
    (v as int % 256) as u8
}

/// The big-endian 16-bit word read from `s` at `pos`.
pub open spec fn be16_at(s: Seq<u8>, pos: int) -> u16 {
    be16(byte_at(s, pos), byte_at(s, pos + 1))
}

/// Reads one byte at the cursor and advances it; past the end it reads zero.
pub fn u8_from_iter(bytes: &[u8], pos: &mut usize) -> (r: u8)
    requires
        *old(pos) < usize::MAX,
    ensures
        r == byte_at(bytes@, *old(pos) as int),
        *final(pos) == *old(pos) + 1,
{
    let b: u8 = if *pos < bytes.len() { bytes[*pos] } else { 0 };
    *pos = *pos + 1;
    b
}

/// Reads a big-endian `u16` at the cursor and advances it by two.
pub fn u16_be_from_iter(bytes: &[u8], pos: &mut usize) -> (r: u16)
    requires
        *old(pos) < usize::MAX - 1,
    ensures
        r == be16_at(bytes@, *old(pos) as int),
        *final(pos) == *old(pos) + 2,
{
    let hi: u16 = u8_from_iter(bytes, pos) as u16;
    let lo: u16 = u8_from_iter(bytes, pos) as u16;
    assert((hi << 8u16) | lo == hi * 256 + lo) by (bit_vector)
        requires
            hi < 256,
            lo < 256,
    ;
    (hi << 8u16) | lo
}

/// Reads a big-endian two's-complement `i16` at the cursor.
pub fn i16_be_from_iter(bytes: &[u8], pos: &mut usize) -> (r: i16)
    requires
        *old(pos) < usize::MAX - 1,
    ensures
        r == as_signed(be16_at(bytes@, *old(pos) as int)),
        *final(pos) == *old(pos) + 2,
{
    u16_to_i16(u16_be_from_iter(bytes, pos))
}

/// The two's-complement reading of a 16-bit word (what `as i16` gives).
pub fn u16_to_i16(v: u16) -> (r: i16)
    ensures
        r == as_signed(v),
{
    if v < 0x8000 {
        v as i16
    } else {
        (v as i32 - 0x10000) as i16
    }
}

/// The big-endian bytes of a 16-bit word, as `u16::to_be_bytes` gives them.
pub fn be_bytes(v: u16) -> (r: [u8; 2])
    ensures
        r@ == seq![hi_byte(v), lo_byte(v)],
{
    [(v / 256) as u8, (v % 256) as u8]
}

/// The word whose big-endian bytes are given, as `u16::from_be_bytes` gives it.
pub fn u16_from_be_bytes(b: [u8; 2]) -> (r: u16)
    ensures
        r == be16(b@[0], b@[1]),
{
    b[0] as u16 * 256 + b[1] as u16
}

/// Splitting a word into its big-endian bytes and reading them back gives the
/// word again.
pub proof fn lemma_be_roundtrip(v: u16)
    ensures
        be16(hi_byte(v), lo_byte(v)) == v,
{
}

/// Reading two bytes as a big-endian word and splitting it again gives the
/// same two bytes.
pub proof fn lemma_be_split(hi: u8, lo: u8)
    ensures
        hi_byte(be16(hi, lo)) == hi,
        lo_byte(be16(hi, lo)) == lo,
{
}

} // verus!
