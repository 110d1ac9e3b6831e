//! The 128-byte base block: header, display parameters, and the four descriptor slots.
use vstd::prelude::*;
use crate::bits::{
    be16, high_nibble, join_split, le16, le32, low_nibble, parse_vendor, pixel_clock_khz,
    read_be16, read_le16, read_le32, split_field, two_bits, vendor_group, vendor_letter_spec,
};
use crate::error::{ErrorKind, ParseError};
use crate::extension::{extension_end, extension_error, extension_matches, parse_extension, CtaExtensions};
use crate::text::{descriptor_text, parse_descriptor_text};
use vstd::slice::slice_subrange;

verus! {

/// Length of the base block.
pub const BASE_BLOCK_LEN: usize = 128;

/// Length of one descriptor slot, and of one detailed timing record.
pub const SLOT_LEN: usize = 18;

/// Offset of the first descriptor slot in the base block.
pub const FIRST_SLOT: usize = 54;

/// Offset of the byte that counts the extension blocks.
pub const EXTENSION_COUNT: usize = 126;

#[derive(Debug, PartialEq, Copy, Clone)]
pub struct Header {
    pub vendor: [char; 3],
    pub product: u16,
    pub serial: u32,
    pub week: u8,
    /// Years since 1990.
    pub year: u8,
    pub version: u8,
    pub revision: u8,
}

#[derive(Debug, PartialEq, Copy, Clone)]
pub struct Display {
    pub video_input: u8,
    /// Centimetres.
    pub width: u8,
    /// Centimetres.
    pub height: u8,
    /// Stored as `gamma * 100 - 100`.
    pub gamma: u8,
    pub features: u8,
}

#[derive(Debug, PartialEq, Copy, Clone, Default)]
pub struct DetailedTiming {
    /// Pixel clock in kHz.
    pub pixel_clock: u32,
    pub horizontal_active_pixels: u16,
    pub horizontal_blanking_pixels: u16,
    pub vertical_active_lines: u16,
    pub vertical_blanking_lines: u16,
    pub horizontal_front_porch: u16,
    pub horizontal_sync_width: u16,
    pub vertical_front_porch: u16,
    pub vertical_sync_width: u16,
    /// Horizontal size in millimetres.
    pub horizontal_size: u16,
    /// Vertical size in millimetres.
    pub vertical_size: u16,
    /// Border pixels on one side of the screen (the total is twice this).
    pub horizontal_border_pixels: u8,
    /// Border pixels on one side of the screen (the total is twice this).
    pub vertical_border_pixels: u8,
    pub features: u8,
}

#[derive(Debug, PartialEq, Clone)]
pub enum Descriptor {
    DetailedTiming(DetailedTiming),
    SerialNumber(String),
    UnspecifiedText(String),
    RangeLimits,
    ProductName(String),
    WhitePoint,
    StandardTiming,
    ColorManagement,
    TimingCodes,
    EstablishedTimings,
    Dummy,
    Unknown([u8; 13]),
}

/// The header fields that follow the magic literal at the start of `s`.
pub open spec fn header_spec(s: Seq<u8>) -> Header {
    let v = be16(s, 8) as u16;
    Header {
        vendor: [
            vendor_letter_spec(vendor_group(v, 10)),
            vendor_letter_spec(vendor_group(v, 5)),
            vendor_letter_spec(vendor_group(v, 0)),
        ],
        product: le16(s, 10) as u16,
        serial: le32(s, 12) as u32,
        week: s[16],
        year: s[17],
        version: s[18],
        revision: s[19],
    }
}

/// The detailed timing that the 18 bytes at `s[p]` describe.
pub open spec fn detailed_timing_spec(s: Seq<u8>, p: int) -> DetailedTiming {
    DetailedTiming {
        pixel_clock: (le16(s, p) * 10) as u32,
        horizontal_active_pixels: split_field(s[p + 2], s[p + 4] >> 4) as u16,
        horizontal_blanking_pixels: split_field(s[p + 3], s[p + 4] & 0xF) as u16,
        vertical_active_lines: split_field(s[p + 5], s[p + 7] >> 4) as u16,
        vertical_blanking_lines: split_field(s[p + 6], s[p + 7] & 0xF) as u16,
        horizontal_front_porch: split_field(s[p + 8], (s[p + 11] >> 6) & 3) as u16,
        horizontal_sync_width: split_field(s[p + 9], (s[p + 11] >> 4) & 3) as u16,
        vertical_front_porch: split_field(s[p + 10] >> 4, (s[p + 11] >> 2) & 3) as u16,
        vertical_sync_width: split_field(s[p + 10] & 0xF, s[p + 11] & 3) as u16,
        horizontal_size: split_field(s[p + 12], s[p + 14] >> 4) as u16,
        vertical_size: split_field(s[p + 13], s[p + 14] & 0xF) as u16,
        horizontal_border_pixels: s[p + 15],
        vertical_border_pixels: s[p + 16],
        features: s[p + 17],
    }
}

/// Decodes the 18-byte detailed timing record at `data[p]`.
pub fn parse_detailed_timing(data: &[u8], p: usize) -> (r: DetailedTiming)
    requires
        p + 18 <= data@.len(),
    ensures
        r == detailed_timing_spec(data@, p as int),
{
    assert(data@.len() == data.len());
    let porch_byte = data[p + 11];
    assert((porch_byte >> 0u8) & 3u8 == porch_byte & 3u8) by (bit_vector);
    let h_px = data[p + 4];
    let v_px = data[p + 7];
    let v_lo = data[p + 10];
    let porch = data[p + 11];
    let size_hi = data[p + 14];
    DetailedTiming {
        pixel_clock: pixel_clock_khz(read_le16(data, p)),
        horizontal_active_pixels: join_split(data[p + 2], high_nibble(h_px)),
        horizontal_blanking_pixels: join_split(data[p + 3], low_nibble(h_px)),
        vertical_active_lines: join_split(data[p + 5], high_nibble(v_px)),
        vertical_blanking_lines: join_split(data[p + 6], low_nibble(v_px)),
        horizontal_front_porch: join_split(data[p + 8], two_bits(porch, 6)),
        horizontal_sync_width: join_split(data[p + 9], two_bits(porch, 4)),
        vertical_front_porch: join_split(high_nibble(v_lo), two_bits(porch, 2)),
        vertical_sync_width: join_split(low_nibble(v_lo), two_bits(porch, 0)),
        horizontal_size: join_split(data[p + 12], high_nibble(size_hi)),
        vertical_size: join_split(data[p + 13], low_nibble(size_hi)),
        horizontal_border_pixels: data[p + 15],
        vertical_border_pixels: data[p + 16],
        features: data[p + 17],
    }
}

/// Decodes the header fields that follow the magic literal at the start of `data`.
pub fn parse_header(data: &[u8]) -> (r: Header)
    requires
        20 <= data@.len(),
    ensures
        r == header_spec(data@),
{
    let vendor = parse_vendor(read_be16(data, 8));
    let r = Header {
        vendor,
        product: read_le16(data, 10),
        serial: read_le32(data, 12),
        week: data[16],
        year: data[17],
        version: data[18],
        revision: data[19],
    };
    assert(r.vendor =~= header_spec(data@).vendor);
    r
}

/// Discriminant of a serial number text descriptor.
pub const SERIAL_NUMBER_TAG: u8 = 0xFF;
/// Discriminant of an unspecified text descriptor.
pub const UNSPECIFIED_TEXT_TAG: u8 = 0xFE;
/// Discriminant of a range limits descriptor.
pub const RANGE_LIMITS_TAG: u8 = 0xFD;
/// Discriminant of a product name text descriptor.
pub const PRODUCT_NAME_TAG: u8 = 0xFC;
/// Discriminant of a white point descriptor.
pub const WHITE_POINT_TAG: u8 = 0xFB;
/// Discriminant of a standard timing descriptor.
pub const STANDARD_TIMING_TAG: u8 = 0xFA;
/// Discriminant of a color management descriptor.
pub const COLOR_MANAGEMENT_TAG: u8 = 0xF9;
/// Discriminant of a timing codes descriptor.
pub const TIMING_CODES_TAG: u8 = 0xF8;
/// Discriminant of an established timings descriptor.
pub const ESTABLISHED_TIMINGS_TAG: u8 = 0xF7;
/// Discriminant of a dummy descriptor.
pub const DUMMY_TAG: u8 = 0x10;

/// Discriminants that name a monitor descriptor kind.
pub open spec fn is_known_tag(t: u8) -> bool {
    t == 0x10 || 0xF7 <= t
}

/// `d` is what the 18-byte descriptor slot at `s[p]` decodes to. A slot whose first
/// two bytes are not both zero is a detailed timing; otherwise the byte at `p + 3`
/// tells the monitor descriptor kind, and the last 13 bytes are its payload.
pub open spec fn descriptor_matches(d: Descriptor, s: Seq<u8>, p: int) -> bool {
    if s[p] != 0 || s[p + 1] != 0 {
        d == Descriptor::DetailedTiming(detailed_timing_spec(s, p))
    } else {
        let tag = s[p + 3];
        let payload = s.subrange(p + 5, p + 18);
        match d {
            Descriptor::DetailedTiming(_) => false,
            Descriptor::SerialNumber(t) => tag == SERIAL_NUMBER_TAG && t@ == descriptor_text(payload),
            Descriptor::UnspecifiedText(t) => tag == UNSPECIFIED_TEXT_TAG && t@ == descriptor_text(
                payload,
            ),
            Descriptor::RangeLimits => tag == RANGE_LIMITS_TAG,
            Descriptor::ProductName(t) => tag == PRODUCT_NAME_TAG && t@ == descriptor_text(payload),
            Descriptor::WhitePoint => tag == WHITE_POINT_TAG,
            Descriptor::StandardTiming => tag == STANDARD_TIMING_TAG,
            Descriptor::ColorManagement => tag == COLOR_MANAGEMENT_TAG,
            Descriptor::TimingCodes => tag == TIMING_CODES_TAG,
            Descriptor::EstablishedTimings => tag == ESTABLISHED_TIMINGS_TAG,
            Descriptor::Dummy => tag == DUMMY_TAG,
            Descriptor::Unknown(raw) => !is_known_tag(tag) && raw@ == payload,
        }
    }
}

/// Decodes the 18-byte descriptor slot at `data[p]`.
pub fn parse_descriptor(data: &[u8], p: usize) -> (r: Descriptor)
    requires
        p + 18 <= data@.len(),
    ensures
        descriptor_matches(r, data@, p as int),
{
    assert(data@.len() == data.len());
    if data[p] != 0 || data[p + 1] != 0 {
        return Descriptor::DetailedTiming(parse_detailed_timing(data, p));
    }
    let tag = data[p + 3];
    if tag == SERIAL_NUMBER_TAG || tag == UNSPECIFIED_TEXT_TAG || tag == PRODUCT_NAME_TAG {
        let text = parse_descriptor_text(slice_subrange(data, p + 5, p + 18));
        if tag == SERIAL_NUMBER_TAG {
            Descriptor::SerialNumber(text)
        } else if tag == UNSPECIFIED_TEXT_TAG {
            Descriptor::UnspecifiedText(text)
        } else {
            Descriptor::ProductName(text)
        }
    } else if tag == RANGE_LIMITS_TAG {
        Descriptor::RangeLimits
    } else if tag == WHITE_POINT_TAG {
        Descriptor::WhitePoint
    } else if tag == STANDARD_TIMING_TAG {
        Descriptor::StandardTiming
    } else if tag == COLOR_MANAGEMENT_TAG {
        Descriptor::ColorManagement
    } else if tag == TIMING_CODES_TAG {
        Descriptor::TimingCodes
    } else if tag == ESTABLISHED_TIMINGS_TAG {
        Descriptor::EstablishedTimings
    } else if tag == DUMMY_TAG {
        Descriptor::Dummy
    } else {
        let q = p + 5;
        let raw = [
            data[q],
            data[q + 1],
            data[q + 2],
            data[q + 3],
            data[q + 4],
            data[q + 5],
            data[q + 6],
            data[q + 7],
            data[q + 8],
            data[q + 9],
            data[q + 10],
            data[q + 11],
            data[q + 12],
        ];
        assert(raw@ =~= data@.subrange(p + 5, p + 18));
        Descriptor::Unknown(raw)
    }
}

/// The decoded base block, with its first extension if it declares any.
#[derive(Debug, PartialEq)]
pub struct EDID {
    pub header: Header,
    pub display: Display,
    /// Consumed, not decoded.
    pub chromaticity: (),
    /// Consumed, not decoded.
    pub established_timing: (),
    /// Consumed, not decoded.
    pub standard_timing: (),
    pub descriptors: Vec<Descriptor>,
    pub extensions: Option<CtaExtensions>,
}

/// The fixed literal that opens the base block.
pub open spec fn magic_bytes() -> Seq<u8> {
    seq![0x00u8, 0xFF, 0xFF, 0xFF, 0xFF, 0xFF, 0xFF, 0x00]
}

/// The bytes of `s` that fall in its first eight agree with the literal.
pub open spec fn magic_prefix_ok(s: Seq<u8>) -> bool {
    forall|i: int| 0 <= i < 8 && i < s.len() ==> s[i] == #[trigger] magic_bytes()[i]
}

pub open spec fn display_spec(s: Seq<u8>) -> Display {
    Display { video_input: s[20], width: s[21], height: s[22], gamma: s[23], features: s[24] }
}

/// Copies the five display parameter bytes that follow the header.
pub fn parse_display(data: &[u8]) -> (r: Display)
    requires
        25 <= data@.len(),
    ensures
        r == display_spec(data@),
{
    Display {
        video_input: data[20],
        width: data[21],
        height: data[22],
        gamma: data[23],
        features: data[24],
    }
}

/// The failure of decoding `s`, if it has one.
pub open spec fn edid_error(s: Seq<u8>) -> Option<ParseError> {
    if !magic_prefix_ok(s) {
        Some(ParseError { kind: ErrorKind::MagicMismatch, offset: 0, stage: None })
    } else if s.len() < 128 {
        Some(ParseError { kind: ErrorKind::UnexpectedEnd, offset: 0, stage: None })
    } else if s[126] == 0 {
        None
    } else {
        extension_error(s, 128)
    }
}

/// Where decoding `s` stops.
pub open spec fn edid_end(s: Seq<u8>) -> int {
    if s[126] == 0 {
        128
    } else {
        extension_end(s, 128)
    }
}

/// `e` is what `s` decodes to.
pub open spec fn edid_matches(e: EDID, s: Seq<u8>) -> bool {
    &&& e.header == header_spec(s)
    &&& e.display == display_spec(s)
    &&& e.descriptors@.len() == 4
    &&& forall|i: int| 0 <= i < 4 ==> descriptor_matches(#[trigger] e.descriptors@[i], s, 54 + 18 * i)
    &&& if s[126] == 0 {
        e.extensions is None
    } else {
        &&& e.extensions is Some
        &&& extension_matches(e.extensions->Some_0, s, 128)
    }
}

/// Decodes a base block and, when it declares extensions, the first extension
/// block after it. Returns the bytes left over and the record. Checksums are not
/// checked.
pub fn parse(data: &[u8]) -> (r: Result<(&[u8], EDID), ParseError>)
    ensures
        match r {
            Ok((rest, e)) => edid_error(data@) is None && edid_matches(e, data@) && rest@
                == data@.subrange(edid_end(data@), data@.len() as int),
            Err(x) => edid_error(data@) == Some(x),
        },
{
    let n = data.len();
    let magic: [u8; 8] = [0x00, 0xFF, 0xFF, 0xFF, 0xFF, 0xFF, 0xFF, 0x00];
    assert(magic@ =~= magic_bytes());
    let mut i: usize = 0;
    while i < 8 && i < n
        invariant
            i <= 8,
            n == data@.len(),
            magic@ == magic_bytes(),
            forall|j: int| 0 <= j < i ==> data@[j] == #[trigger] magic_bytes()[j],
        decreases 8 - i,
    {
        if data[i] != magic[i] {
            return Err(ParseError { kind: ErrorKind::MagicMismatch, offset: 0, stage: None });
        }
        i = i + 1;
    }
    if n < BASE_BLOCK_LEN {
        return Err(ParseError { kind: ErrorKind::UnexpectedEnd, offset: 0, stage: None });
    }
    let header = parse_header(data);
    let display = parse_display(data);
    let mut descriptors: Vec<Descriptor> = Vec::new();
    let mut k: usize = 0;
    while k < 4
        invariant
            k <= 4,
            n == data@.len() >= 128,
            descriptors@.len() == k,
            forall|j: int| 0 <= j < k ==> descriptor_matches(#[trigger] descriptors@[j], data@, 54 + 18 * j),
        decreases 4 - k,
    {
        let d = parse_descriptor(data, FIRST_SLOT + SLOT_LEN * k);
        descriptors.push(d);
        k = k + 1;
    }
    let extension_count = data[EXTENSION_COUNT];
    let _checksum = data[127];
    if extension_count == 0 {
        let e = EDID {
            header,
            display,
            chromaticity: (),
            established_timing: (),
            standard_timing: (),
            descriptors,
            extensions: None,
        };
        return Ok((slice_subrange(data, BASE_BLOCK_LEN, n), e));
    }
    match parse_extension(data, BASE_BLOCK_LEN) {
        Ok((x, next)) => {
            let e = EDID {
                header,
                display,
                chromaticity: (),
                established_timing: (),
                standard_timing: (),
                descriptors,
                extensions: Some(x),
            };
            Ok((slice_subrange(data, next, n), e))
        },
        Err(x) => Err(x),
    }
}

/// The pixel clock of a detailed timing is exactly ten times its raw 16-bit field,
/// with nothing lost to the width of the decoded field.
pub proof fn lemma_pixel_clock(s: Seq<u8>, p: int)
    requires
        0 <= p,
        p + 18 <= s.len(),
    ensures
        detailed_timing_spec(s, p).pixel_clock == le16(s, p) * 10,
        le16(s, p) < 65536,
{
}

/// An input whose first eight bytes are not the header literal is refused as a
/// mismatch of that literal, and no record comes back.
pub proof fn lemma_magic_mismatch(s: Seq<u8>)
    requires
        s.len() >= 8,
        s.subrange(0, 8) != magic_bytes(),
    ensures
        edid_error(s) == Some(ParseError { kind: ErrorKind::MagicMismatch, offset: 0, stage: None }),
{
    if magic_prefix_ok(s) {
        assert(s.subrange(0, 8) =~= magic_bytes());
    }
}

/// A base block followed by one extension that carries data blocks is decoded
/// to the very end of the input: no bytes are left over.
pub proof fn lemma_single_extension_consumed(s: Seq<u8>)
    requires
        edid_error(s) is None,
        s[126] != 0,
        s[130] != 0,
    ensures
        edid_end(s) == s.len(),
{
}

} // verus!
