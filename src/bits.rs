//! Integer helpers for the packed fields of the descriptor layout.
use vstd::prelude::*;

verus! {

/// Little-endian 16-bit value stored at `s[p]`, `s[p + 1]`.
pub open spec fn le16(s: Seq<u8>, p: int) -> int {
    s[p] + 256 * s[p + 1]
}

/// Little-endian 32-bit value stored at `s[p]` .. `s[p + 3]`.
pub open spec fn le32(s: Seq<u8>, p: int) -> int {
    s[p] + 256 * s[p + 1] + 65536 * s[p + 2] + 16777216 * s[p + 3]
}

/// Big-endian 16-bit value stored at `s[p]`, `s[p + 1]`.
pub open spec fn be16(s: Seq<u8>, p: int) -> int {
    256 * s[p] + s[p + 1]
}

/// A field split into a low byte and a few high bits: `lo | (hi << 8)`.
pub open spec fn split_field(lo: u8, hi: u8) -> int {
    lo + 256 * hi
}

/// The letter that a 5-bit group of the vendor code stands for: 1 is 'A'.
pub open spec fn vendor_letter_spec(group: u8) -> char {
    (group + 64) as u8 as char
}

/// The 5-bit group of `v` that starts at bit `shift`.
pub open spec fn vendor_group(v: u16, shift: u16) -> u8 {
    ((v >> shift) & 0x1F) as u8
}

pub fn read_le16(data: &[u8], p: usize) -> (r: u16)
    requires
        p + 2 <= data@.len(),
    ensures
        r == le16(data@, p as int),
{
    data[p] as u16 + (data[p + 1] as u16) * 256
}

pub fn read_le32(data: &[u8], p: usize) -> (r: u32)
    requires
        p + 4 <= data@.len(),
    ensures
        r == le32(data@, p as int),
{
    data[p] as u32 + (data[p + 1] as u32) * 256 + (data[p + 2] as u32) * 65536 + (data[p + 3] as u32)
        * 16777216
}

pub fn read_be16(data: &[u8], p: usize) -> (r: u16)
    requires
        p + 2 <= data@.len(),
    ensures
        r == be16(data@, p as int),
{
    (data[p] as u16) * 256 + data[p + 1] as u16
}

/// Rebuilds a field of up to 12 bits from its low byte and its high nibble.
pub fn join_split(lo: u8, hi: u8) -> (r: u16)
    requires
        hi < 16,
    ensures
        r == split_field(lo, hi),
        r < 4096,
{
    let r = (lo as u16) | ((hi as u16) << 8u16);
    assert(r == (lo as u16) + 256 * (hi as u16) && r < 4096) by (bit_vector)
        requires
            r == (lo as u16) | ((hi as u16) << 8u16),
            hi < 16,
    ;
    r
}

/// The upper four bits of a byte.
pub fn high_nibble(b: u8) -> (r: u8)
    ensures
        r == b >> 4,
        r < 16,
{
    let r = b >> 4u8;
    assert(r < 16) by (bit_vector)
        requires
            r == b >> 4u8,
    ;
    r
}

/// The lower four bits of a byte.
pub fn low_nibble(b: u8) -> (r: u8)
    ensures
        r == b & 0xF,
        r < 16,
{
    let r = b & 0xFu8;
    assert(r < 16) by (bit_vector)
        requires
            r == b & 0xFu8,
    ;
    r
}

/// The two bits of a byte that start at bit `shift`.
pub fn two_bits(b: u8, shift: u8) -> (r: u8)
    requires
        shift < 8,
    ensures
        r == (b >> shift) & 3,
        r < 4,
{
    let r = (b >> shift) & 3u8;
    assert(r < 4) by (bit_vector)
        requires
            r == (b >> shift) & 3u8,
    ;
    r
}

/// Pixel clock in kHz from the raw field, which counts units of 10 kHz.
pub fn pixel_clock_khz(raw: u16) -> (r: u32)
    ensures
        r == raw * 10,
{
    raw as u32 * 10
}

/// The letter for the 5-bit group of the vendor code that starts at bit `shift`.
pub fn vendor_letter(v: u16, shift: u16) -> (r: char)
    requires
        shift < 16,
    ensures
        r == vendor_letter_spec(vendor_group(v, shift)),
{
    let g = ((v >> shift) & 0x1Fu16) as u8;
    assert(((v >> shift) & 0x1Fu16) < 32) by (bit_vector);
    (g + 64) as char
}

/// Decodes the three letters packed in a vendor code, first letter in the highest bits.
pub fn parse_vendor(v: u16) -> (r: [char; 3])
    ensures
        r@ == seq![
            vendor_letter_spec(vendor_group(v, 10)),
            vendor_letter_spec(vendor_group(v, 5)),
            vendor_letter_spec(vendor_group(v, 0)),
        ],
{
    let r = [vendor_letter(v, 10), vendor_letter(v, 5), vendor_letter(v, 0)];
    assert(r@ =~= seq![r[0], r[1], r[2]]);
    r
}

/// Each group value 1 to 26 gives one of 'A' to 'Z', distinct groups give distinct
/// letters, and any other 5-bit group gives a character outside 'A' to 'Z'.
pub proof fn lemma_vendor_letters(a: u8, b: u8)
    requires
        a < 32,
        b < 32,
    ensures
        vendor_letter_spec(a) as u32 == a + 64,
        1 <= a <= 26 <==> ('A' <= vendor_letter_spec(a) && vendor_letter_spec(a) <= 'Z'),
        a != b ==> vendor_letter_spec(a) != vendor_letter_spec(b),
{
}

/// Rebuilding a split field gives `lo | (hi << 8)`, stays below 4096, and two
/// different pairs never give the same value.
pub proof fn lemma_split_field(lo: u8, hi: u8, lo2: u8, hi2: u8)
    requires
        hi < 16,
        hi2 < 16,
    ensures
        split_field(lo, hi) == ((lo as u16) | ((hi as u16) << 8u16)),
        0 <= split_field(lo, hi) < 4096,
        split_field(lo, hi) == split_field(lo2, hi2) ==> lo == lo2 && hi == hi2,
{
    assert(((lo as u16) | ((hi as u16) << 8u16)) == (lo as u16) + 256 * (hi as u16)) by (bit_vector)
        requires
            hi < 16,
    ;
}

} // verus!
