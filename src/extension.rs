//! The CTA extension block: capability flags, data blocks and extra detailed timings.
use vstd::prelude::*;
use crate::edid::{detailed_timing_spec, parse_detailed_timing, DetailedTiming};
use crate::error::{ErrorKind, ParseError, Stage};

verus! {

/// Type tag of an audio data block.
pub const AUDIO_TAG: u8 = 1;

/// Type tag of a video data block.
pub const VIDEO_TAG: u8 = 2;

/// Type tag of a vendor-specific data block.
pub const VENDOR_SPECIFIC_TAG: u8 = 3;

/// Type tag of a speaker allocation data block.
pub const SPEAKER_ALLOCATION_TAG: u8 = 4;

#[derive(Debug, PartialEq, Copy, Clone, Default)]
pub struct NativeDTDs {
    pub underscan: u8,
    pub basic_audio: u8,
    pub ycbcr444: u8,
    pub ycbcr422: u8,
    pub number_of_native_dtd: u8,
}

#[derive(Debug, PartialEq, Copy, Clone)]
pub struct DataBlockHeader {
    pub type_tag: u8,
    pub len: u8,
}

#[derive(Debug, PartialEq, Clone)]
pub enum DataBlock {
    Reserved(DataBlockReserved),
    AudioBlock(AudioBlock),
    VideoBlock(VideoBlock),
    VendorSpecific(VendorSpecific),
    SpeakerAllocation(SpeakerAllocation),
}

#[derive(Debug, PartialEq, Clone)]
pub struct AudioBlock {
    pub header: DataBlockHeader,
    pub descriptors: Vec<ShortAudioDescriptor>,
}

#[derive(Debug, PartialEq, Copy, Clone, Default)]
pub struct ShortAudioDescriptor {
    pub audio_format: u8,
    pub number_of_channels: u8,
    pub sampling_frequences: u8,
    pub format_dependent_value: u8,
    pub audio_format_extended_code: u8,
}

#[derive(Debug, PartialEq, Copy, Clone)]
pub struct ShortVideoDescriptor {
    pub is_native: u8,
    pub cea861_index: u8,
}

#[derive(Debug, PartialEq, Clone)]
pub struct VideoBlock {
    pub header: DataBlockHeader,
    pub descriptors: Vec<ShortVideoDescriptor>,
}

#[derive(Debug, PartialEq, Clone)]
pub struct VendorSpecific {
    pub header: DataBlockHeader,
    pub identifier: [u8; 3],
    pub payload: Vec<u8>,
}

#[derive(Debug, PartialEq, Clone)]
pub struct SpeakerAllocation {
    pub header: DataBlockHeader,
    pub speakers: u8,
    pub reserved: [u8; 2],
}

impl SpeakerAllocation {
    pub const REAR_LEFT_RIGHT_CENTER: u8 = 0x40;
    pub const FRONT_LEFT_RIGHT_CENTER: u8 = 0x20;
    pub const REAR_CENTER: u8 = 0x10;
    pub const REAR_LEFT_RIGHT: u8 = 0x08;
    pub const FRONT_CENTER: u8 = 0x04;
    pub const LFE: u8 = 0x02;
    pub const FRONT_LEFT_RIGHT: u8 = 0x01;
}

#[derive(Debug, PartialEq, Clone)]
pub struct DataBlockReserved {
    pub header: DataBlockHeader,
    pub payload: Vec<u8>,
}

#[derive(Debug, PartialEq, Clone, Default)]
pub struct CtaExtensions {
    pub extension_tag: u8,
    pub reserved: u8,
    pub native_dtd: NativeDTDs,
    pub blocks: Vec<DataBlock>,
    pub descriptors: Vec<DetailedTiming>,
}

impl CtaExtensions {
    /// The display supports underscan.
    pub const DTD_UNDERSCAN: u8 = 0x80;
    /// The display supports basic audio.
    pub const DTD_BASIC_AUDIO: u8 = 0x40;
    /// The display supports YCbCr 4:4:4.
    pub const DTD_YUV444: u8 = 0x20;
    /// The display supports YCbCr 4:2:2.
    pub const DTD_YUV422: u8 = 0x10;
}

pub open spec fn native_dtds_spec(v: u8) -> NativeDTDs {
    NativeDTDs {
        underscan: (v & 0x80) >> 7,
        basic_audio: (v & 0x40) >> 6,
        ycbcr444: (v & 0x20) >> 5,
        ycbcr422: (v & 0x10) >> 4,
        number_of_native_dtd: v & 0xF,
    }
}

pub open spec fn block_header_spec(v: u8) -> DataBlockHeader {
    DataBlockHeader { type_tag: (v & 0xE0) >> 5, len: v & 0x1F }
}

pub open spec fn short_audio_spec(b0: u8, b1: u8, b2: u8) -> ShortAudioDescriptor {
    ShortAudioDescriptor {
        audio_format: (b0 & 0x78) >> 3,
        number_of_channels: ((b0 & 0x7) + 1) as u8,
        sampling_frequences: b1,
        audio_format_extended_code: (b2 & 0xF8) >> 3,
        format_dependent_value: b2 & 0x7,
    }
}

pub open spec fn short_video_spec(b: u8) -> ShortVideoDescriptor {
    ShortVideoDescriptor { is_native: (b & 0x80) >> 7, cea861_index: b & 0x7F }
}

/// Decodes the capability flags byte of an extension.
pub fn parse_native_dtds(v: u8) -> (r: NativeDTDs)
    ensures
        r == native_dtds_spec(v),
{
    NativeDTDs {
        underscan: (v & 0x80u8) >> 7u8,
        basic_audio: (v & 0x40u8) >> 6u8,
        ycbcr444: (v & 0x20u8) >> 5u8,
        ycbcr422: (v & 0x10u8) >> 4u8,
        number_of_native_dtd: v & 0xFu8,
    }
}

/// Decodes a data block header byte: a 3-bit type tag over a 5-bit payload length.
pub fn parse_data_block_header(v: u8) -> (r: DataBlockHeader)
    ensures
        r == block_header_spec(v),
        r.type_tag < 8,
        r.len < 32,
{
    let r = DataBlockHeader { type_tag: (v & 0xE0u8) >> 5u8, len: v & 0x1Fu8 };
    assert((v & 0xE0u8) >> 5u8 < 8 && v & 0x1Fu8 < 32) by (bit_vector);
    r
}

/// Decodes one 3-byte short audio descriptor.
pub fn parse_short_audio(b0: u8, b1: u8, b2: u8) -> (r: ShortAudioDescriptor)
    ensures
        r == short_audio_spec(b0, b1, b2),
{
    assert(b0 & 0x7u8 < 8) by (bit_vector);
    ShortAudioDescriptor {
        audio_format: (b0 & 0x78u8) >> 3u8,
        number_of_channels: (b0 & 0x7u8) + 1,
        sampling_frequences: b1,
        audio_format_extended_code: (b2 & 0xF8u8) >> 3u8,
        format_dependent_value: b2 & 0x7u8,
    }
}

/// Decodes one 1-byte short video descriptor.
pub fn parse_short_video(b: u8) -> (r: ShortVideoDescriptor)
    ensures
        r == short_video_spec(b),
{
    ShortVideoDescriptor { is_native: (b & 0x80u8) >> 7u8, cea861_index: b & 0x7Fu8 }
}

/// Payload length declared by the header byte at `s[p]`.
pub open spec fn declared_len(s: Seq<u8>, p: int) -> int {
    (s[p] & 0x1F) as int
}

/// Type tag declared by the header byte at `s[p]`.
pub open spec fn declared_tag(s: Seq<u8>, p: int) -> u8 {
    (s[p] & 0xE0) >> 5
}

/// The data-block decoder that a type tag is handed to, for diagnostics.
pub open spec fn stage_of(tag: u8) -> Option<Stage> {
    if tag == AUDIO_TAG {
        Some(Stage::AudioDataBlocks)
    } else if tag == VIDEO_TAG {
        Some(Stage::VideoDataBlocks)
    } else if tag == VENDOR_SPECIFIC_TAG {
        Some(Stage::VendorSpecificDataBlock)
    } else if tag == SPEAKER_ALLOCATION_TAG {
        Some(Stage::SpeakerAllocationDataBlock)
    } else {
        None
    }
}

/// The data block at `s[p]` fits before `e`: its payload ends by `e`, and a
/// vendor-specific or speaker allocation payload holds at least three bytes.
pub open spec fn block_fits(s: Seq<u8>, p: int, e: int) -> bool {
    &&& p + 1 + declared_len(s, p) <= e
    &&& (declared_tag(s, p) == VENDOR_SPECIFIC_TAG || declared_tag(s, p) == SPEAKER_ALLOCATION_TAG)
        ==> declared_len(s, p) >= 3
}

/// The failure of a data block at `s[p]` that does not fit before `e`.
pub open spec fn block_error(s: Seq<u8>, p: int) -> ParseError {
    ParseError {
        kind: ErrorKind::UnexpectedEnd,
        offset: p as usize,
        stage: stage_of(declared_tag(s, p)),
    }
}

pub open spec fn audio_matches(a: AudioBlock, s: Seq<u8>, p: int) -> bool {
    &&& a.header == block_header_spec(s[p])
    &&& a.descriptors@ == Seq::new(
        (declared_len(s, p) / 3) as nat,
        |i: int| short_audio_spec(s[p + 1 + 3 * i], s[p + 2 + 3 * i], s[p + 3 + 3 * i]),
    )
}

pub open spec fn video_matches(v: VideoBlock, s: Seq<u8>, p: int) -> bool {
    &&& v.header == block_header_spec(s[p])
    &&& v.descriptors@ == Seq::new(declared_len(s, p) as nat, |i: int| short_video_spec(s[p + 1 + i]))
}

pub open spec fn vendor_matches(v: VendorSpecific, s: Seq<u8>, p: int) -> bool {
    &&& v.header == block_header_spec(s[p])
    &&& v.identifier@ == s.subrange(p + 1, p + 4)
    &&& v.payload@ == s.subrange(p + 4, p + 1 + declared_len(s, p))
}

pub open spec fn speaker_matches(v: SpeakerAllocation, s: Seq<u8>, p: int) -> bool {
    &&& v.header == block_header_spec(s[p])
    &&& v.speakers == s[p + 1]
    &&& v.reserved@ == s.subrange(p + 2, p + 4)
}

pub open spec fn reserved_matches(v: DataBlockReserved, s: Seq<u8>, p: int) -> bool {
    &&& v.header == block_header_spec(s[p])
    &&& v.payload@ == s.subrange(p + 1, p + 1 + declared_len(s, p))
}

/// `b` is what the data block whose header byte is `s[p]` decodes to.
pub open spec fn data_block_matches(b: DataBlock, s: Seq<u8>, p: int) -> bool {
    let tag = declared_tag(s, p);
    match b {
        DataBlock::AudioBlock(a) => tag == AUDIO_TAG && audio_matches(a, s, p),
        DataBlock::VideoBlock(v) => tag == VIDEO_TAG && video_matches(v, s, p),
        DataBlock::VendorSpecific(v) => tag == VENDOR_SPECIFIC_TAG && vendor_matches(v, s, p),
        DataBlock::SpeakerAllocation(v) => tag == SPEAKER_ALLOCATION_TAG && speaker_matches(v, s, p),
        DataBlock::Reserved(v) => stage_of(tag) is None && reserved_matches(v, s, p),
    }
}

/// `bs` is the sequence of data blocks that starts at `s[p]` and ends right before `q`.
pub open spec fn block_chain(bs: Seq<DataBlock>, s: Seq<u8>, p: int, q: int) -> bool
    decreases bs.len(),
{
    if bs.len() == 0 {
        p == q
    } else {
        &&& block_fits(s, p, q)
        &&& data_block_matches(bs[0], s, p)
        &&& block_chain(bs.drop_first(), s, p + 1 + declared_len(s, p), q)
    }
}

/// The header of a decoded data block, whatever its type.
pub open spec fn header_of(b: DataBlock) -> DataBlockHeader {
    match b {
        DataBlock::Reserved(v) => v.header,
        DataBlock::AudioBlock(v) => v.header,
        DataBlock::VideoBlock(v) => v.header,
        DataBlock::VendorSpecific(v) => v.header,
        DataBlock::SpeakerAllocation(v) => v.header,
    }
}

/// Bytes taken by the blocks of `bs`: each its header byte and its declared payload.
pub open spec fn declared_span(bs: Seq<DataBlock>) -> int
    decreases bs.len(),
{
    if bs.len() == 0 {
        0
    } else {
        1 + header_of(bs[0]).len + declared_span(bs.drop_first())
    }
}

/// Each data block moves the cursor by its header byte and its declared length,
/// whatever its type and however much of its payload it decodes: a run of blocks
/// from `p` to `q` takes exactly the sum of those.
pub proof fn lemma_blocks_advance(bs: Seq<DataBlock>, s: Seq<u8>, p: int, q: int)
    requires
        block_chain(bs, s, p, q),
    ensures
        q - p == declared_span(bs),
    decreases bs.len(),
{
    if bs.len() > 0 {
        assert(header_of(bs[0]) == block_header_spec(s[p]));
        lemma_blocks_advance(bs.drop_first(), s, p + 1 + declared_len(s, p), q);
    }
}

/// The first failure among the data blocks that fill `s[p..e]`, if any.
pub open spec fn blocks_error(s: Seq<u8>, p: int, e: int) -> Option<ParseError>
    decreases e - p,
{
    if p >= e {
        None
    } else if !block_fits(s, p, e) {
        Some(block_error(s, p))
    } else {
        blocks_error(s, p + 1 + declared_len(s, p), e)
    }
}

/// Copies `data[p..q]`.
fn copy_bytes(data: &[u8], p: usize, q: usize) -> (r: Vec<u8>)
    requires
        p <= q <= data@.len(),
    ensures
        r@ == data@.subrange(p as int, q as int),
{
    let mut r: Vec<u8> = Vec::new();
    let mut i: usize = p;
    while i < q
        invariant
            p <= i <= q <= data@.len(),
            r@ == data@.subrange(p as int, i as int),
        decreases q - i,
    {
        r.push(data[i]);
        i = i + 1;
        assert(r@ =~= data@.subrange(p as int, i as int));
    }
    r
}

/// Decodes the audio data block whose header byte is `data[p]`, within `data[..e]`.
/// Its payload is read as 3-byte descriptors; a trailing partial one is dropped.
pub fn parse_audio_block(data: &[u8], p: usize, e: usize) -> (r: Result<(AudioBlock, usize), ParseError>)
    requires
        p < e <= data@.len(),
    ensures
        match r {
            Ok((a, next)) => p + 1 + declared_len(data@, p as int) <= e && next == p + 1
                + declared_len(data@, p as int) && audio_matches(a, data@, p as int),
            Err(x) => p + 1 + declared_len(data@, p as int) > e && x == ParseError {
                kind: ErrorKind::UnexpectedEnd,
                offset: p,
                stage: Some(Stage::AudioDataBlocks),
            },
        },
{
    let header = parse_data_block_header(data[p]);
    let len = header.len as usize;
    if len > e - p - 1 {
        return Err(ParseError { kind: ErrorKind::UnexpectedEnd, offset: p, stage: Some(Stage::AudioDataBlocks) });
    }
    let ghost s = data@;
    let mut descriptors: Vec<ShortAudioDescriptor> = Vec::new();
    let mut k: usize = 0;
    while k < len / 3
        invariant
            k <= len / 3,
            len == declared_len(s, p as int),
            s == data@,
            p + 1 + len <= e <= data@.len(),
            descriptors@ =~= Seq::new(
                k as nat,
                |i: int| short_audio_spec(s[p + 1 + 3 * i], s[p + 2 + 3 * i], s[p + 3 + 3 * i]),
            ),
        decreases len / 3 - k,
    {
        let q = p + 1 + 3 * k;
        descriptors.push(parse_short_audio(data[q], data[q + 1], data[q + 2]));
        k = k + 1;
    }
    Ok((AudioBlock { header, descriptors }, p + 1 + len))
}

/// Decodes the video data block whose header byte is `data[p]`, within `data[..e]`.
/// Each payload byte is one short video descriptor.
pub fn parse_video_block(data: &[u8], p: usize, e: usize) -> (r: Result<(VideoBlock, usize), ParseError>)
    requires
        p < e <= data@.len(),
    ensures
        match r {
            Ok((v, next)) => p + 1 + declared_len(data@, p as int) <= e && next == p + 1
                + declared_len(data@, p as int) && video_matches(v, data@, p as int),
            Err(x) => p + 1 + declared_len(data@, p as int) > e && x == ParseError {
                kind: ErrorKind::UnexpectedEnd,
                offset: p,
                stage: Some(Stage::VideoDataBlocks),
            },
        },
{
    let header = parse_data_block_header(data[p]);
    let len = header.len as usize;
    if len > e - p - 1 {
        return Err(ParseError { kind: ErrorKind::UnexpectedEnd, offset: p, stage: Some(Stage::VideoDataBlocks) });
    }
    let ghost s = data@;
    let mut descriptors: Vec<ShortVideoDescriptor> = Vec::new();
    let mut k: usize = 0;
    while k < len
        invariant
            k <= len,
            len == declared_len(s, p as int),
            s == data@,
            p + 1 + len <= e <= data@.len(),
            descriptors@ =~= Seq::new(k as nat, |i: int| short_video_spec(s[p + 1 + i])),
        decreases len - k,
    {
        descriptors.push(parse_short_video(data[p + 1 + k]));
        k = k + 1;
    }
    Ok((VideoBlock { header, descriptors }, p + 1 + len))
}

/// Decodes the vendor-specific data block whose header byte is `data[p]`, within
/// `data[..e]`: a 3-byte identifier, then the rest of the payload kept as it is.
pub fn parse_vendor_specific(data: &[u8], p: usize, e: usize) -> (r: Result<(VendorSpecific, usize), ParseError>)
    requires
        p < e <= data@.len(),
    ensures
        match r {
            Ok((v, next)) => p + 1 + declared_len(data@, p as int) <= e && declared_len(data@, p as int)
                >= 3 && next == p + 1 + declared_len(data@, p as int) && vendor_matches(v, data@, p as int),
            Err(x) => (p + 1 + declared_len(data@, p as int) > e || declared_len(data@, p as int) < 3)
                && x == ParseError {
                kind: ErrorKind::UnexpectedEnd,
                offset: p,
                stage: Some(Stage::VendorSpecificDataBlock),
            },
        },
{
    let header = parse_data_block_header(data[p]);
    let len = header.len as usize;
    if len > e - p - 1 || len < 3 {
        return Err(ParseError { kind: ErrorKind::UnexpectedEnd, offset: p, stage: Some(Stage::VendorSpecificDataBlock) });
    }
    let identifier = [data[p + 1], data[p + 2], data[p + 3]];
    assert(identifier@ =~= data@.subrange(p + 1, p + 4));
    let payload = copy_bytes(data, p + 4, p + 1 + len);
    Ok((VendorSpecific { header, identifier, payload }, p + 1 + len))
}

/// Decodes the speaker allocation data block whose header byte is `data[p]`, within
/// `data[..e]`: a speaker mask byte and two reserved bytes.
pub fn parse_speaker_allocation(data: &[u8], p: usize, e: usize) -> (r: Result<(SpeakerAllocation, usize), ParseError>)
    requires
        p < e <= data@.len(),
    ensures
        match r {
            Ok((v, next)) => p + 1 + declared_len(data@, p as int) <= e && declared_len(data@, p as int)
                >= 3 && next == p + 1 + declared_len(data@, p as int) && speaker_matches(v, data@, p as int),
            Err(x) => (p + 1 + declared_len(data@, p as int) > e || declared_len(data@, p as int) < 3)
                && x == ParseError {
                kind: ErrorKind::UnexpectedEnd,
                offset: p,
                stage: Some(Stage::SpeakerAllocationDataBlock),
            },
        },
{
    let header = parse_data_block_header(data[p]);
    let len = header.len as usize;
    if len > e - p - 1 || len < 3 {
        return Err(ParseError { kind: ErrorKind::UnexpectedEnd, offset: p, stage: Some(Stage::SpeakerAllocationDataBlock) });
    }
    let reserved = [data[p + 2], data[p + 3]];
    assert(reserved@ =~= data@.subrange(p + 2, p + 4));
    Ok((SpeakerAllocation { header, speakers: data[p + 1], reserved }, p + 1 + len))
}

/// Keeps the payload of a data block of a type this decoder does not interpret.
pub fn parse_data_block_reserved(data: &[u8], p: usize, e: usize) -> (r: Result<(DataBlockReserved, usize), ParseError>)
    requires
        p < e <= data@.len(),
    ensures
        match r {
            Ok((v, next)) => p + 1 + declared_len(data@, p as int) <= e && next == p + 1
                + declared_len(data@, p as int) && reserved_matches(v, data@, p as int),
            Err(x) => p + 1 + declared_len(data@, p as int) > e && x == ParseError {
                kind: ErrorKind::UnexpectedEnd,
                offset: p,
                stage: None,
            },
        },
{
    let header = parse_data_block_header(data[p]);
    let len = header.len as usize;
    if len > e - p - 1 {
        return Err(ParseError { kind: ErrorKind::UnexpectedEnd, offset: p, stage: None });
    }
    let payload = copy_bytes(data, p + 1, p + 1 + len);
    Ok((DataBlockReserved { header, payload }, p + 1 + len))
}

/// Decodes the data block whose header byte is `data[p]`, within `data[..e]`,
/// by its type tag. On success the cursor moves past the header byte and the
/// declared payload, whatever the block's type.
pub fn parse_data_block(data: &[u8], p: usize, e: usize) -> (r: Result<(DataBlock, usize), ParseError>)
    requires
        p < e <= data@.len(),
    ensures
        match r {
            Ok((b, next)) => block_fits(data@, p as int, e as int) && next == p + 1 + declared_len(
                data@,
                p as int,
            ) && data_block_matches(b, data@, p as int),
            Err(x) => !block_fits(data@, p as int, e as int) && x == block_error(data@, p as int),
        },
{
    let header = parse_data_block_header(data[p]);
    if header.type_tag == AUDIO_TAG {
        match parse_audio_block(data, p, e) {
            Ok((a, next)) => Ok((DataBlock::AudioBlock(a), next)),
            Err(x) => Err(x),
        }
    } else if header.type_tag == VIDEO_TAG {
        match parse_video_block(data, p, e) {
            Ok((v, next)) => Ok((DataBlock::VideoBlock(v), next)),
            Err(x) => Err(x),
        }
    } else if header.type_tag == VENDOR_SPECIFIC_TAG {
        match parse_vendor_specific(data, p, e) {
            Ok((v, next)) => Ok((DataBlock::VendorSpecific(v), next)),
            Err(x) => Err(x),
        }
    } else if header.type_tag == SPEAKER_ALLOCATION_TAG {
        match parse_speaker_allocation(data, p, e) {
            Ok((v, next)) => Ok((DataBlock::SpeakerAllocation(v), next)),
            Err(x) => Err(x),
        }
    } else {
        match parse_data_block_reserved(data, p, e) {
            Ok((v, next)) => Ok((DataBlock::Reserved(v), next)),
            Err(x) => Err(x),
        }
    }
}

proof fn lemma_chain_push(bs: Seq<DataBlock>, b: DataBlock, s: Seq<u8>, p0: int, p: int, e: int)
    requires
        block_chain(bs, s, p0, p),
        block_fits(s, p, e),
        data_block_matches(b, s, p),
    ensures
        block_chain(bs.push(b), s, p0, p + 1 + declared_len(s, p)),
    decreases bs.len(),
{
    let q = p + 1 + declared_len(s, p);
    if bs.len() == 0 {
        assert(bs.push(b).drop_first() =~= seq![]);
        assert(block_chain(seq![], s, q, q));
    } else {
        let p1 = p0 + 1 + declared_len(s, p0);
        lemma_chain_push(bs.drop_first(), b, s, p1, p, e);
        assert(bs.push(b).drop_first() =~= bs.drop_first().push(b));
    }
}

/// Decodes the data blocks that fill `data[p..e]`, one after another, until the span is used up.
pub fn parse_blocks(data: &[u8], p: usize, e: usize) -> (r: Result<Vec<DataBlock>, ParseError>)
    requires
        p <= e <= data@.len(),
    ensures
        match r {
            Ok(bs) => blocks_error(data@, p as int, e as int) is None && block_chain(
                bs@,
                data@,
                p as int,
                e as int,
            ),
            Err(x) => blocks_error(data@, p as int, e as int) == Some(x),
        },
{
    let mut blocks: Vec<DataBlock> = Vec::new();
    let mut q: usize = p;
    while q < e
        invariant
            p <= q <= e <= data@.len(),
            block_chain(blocks@, data@, p as int, q as int),
            blocks_error(data@, p as int, e as int) == blocks_error(data@, q as int, e as int),
        decreases e - q,
    {
        match parse_data_block(data, q, e) {
            Ok((b, next)) => {
                proof {
                    lemma_chain_push(blocks@, b, data@, p as int, q as int, e as int);
                }
                blocks.push(b);
                q = next;
            },
            Err(x) => {
                return Err(x);
            },
        }
    }
    Ok(blocks)
}

/// The detailed timings stored from `s[p]` up to `e`: 18-byte records, read while a
/// whole record fits and its first two bytes are not both zero.
pub open spec fn timings_spec(s: Seq<u8>, p: int, e: int) -> Seq<DetailedTiming>
    decreases e - p,
{
    if p + 18 <= e && !(s[p] == 0 && s[p + 1] == 0) {
        seq![detailed_timing_spec(s, p)] + timings_spec(s, p + 18, e)
    } else {
        seq![]
    }
}

/// Decodes the detailed timings stored in `data[p..e]`, up to the first record that
/// starts with two zero bytes or does not fit whole.
pub fn parse_descriptors(data: &[u8], p: usize, e: usize) -> (r: Vec<DetailedTiming>)
    requires
        p <= e <= data@.len(),
    ensures
        r@ == timings_spec(data@, p as int, e as int),
{
    let mut r: Vec<DetailedTiming> = Vec::new();
    let mut q: usize = p;
    while e - q >= 18 && !(data[q] == 0 && data[q + 1] == 0)
        invariant
            p <= q <= e <= data@.len(),
            r@ + timings_spec(data@, q as int, e as int) == timings_spec(data@, p as int, e as int),
        decreases e - q,
    {
        let t = parse_detailed_timing(data, q);
        proof {
            assert(r@ + timings_spec(data@, q as int, e as int) =~= r@.push(t) + timings_spec(
                data@,
                q + 18,
                e as int,
            ));
        }
        r.push(t);
        q = q + 18;
    }
    assert(r@ + timings_spec(data@, q as int, e as int) =~= r@);
    r
}

/// The failure of the extension block that starts at `s[p]`, if it has one.
pub open spec fn extension_error(s: Seq<u8>, p: int) -> Option<ParseError> {
    let n = s.len() as int;
    let d = s[p + 2] as int;
    if p + 3 > n {
        Some(ParseError { kind: ErrorKind::UnexpectedEnd, offset: p as usize, stage: None })
    } else if d == 0 {
        if p + 131 > n {
            Some(ParseError { kind: ErrorKind::UnexpectedEnd, offset: (p + 3) as usize, stage: None })
        } else {
            None
        }
    } else if d < 4 {
        Some(ParseError { kind: ErrorKind::BadDataOffset, offset: (p + 2) as usize, stage: None })
    } else if p + 4 > n {
        Some(ParseError { kind: ErrorKind::UnexpectedEnd, offset: (p + 3) as usize, stage: None })
    } else if p + d > n {
        Some(ParseError { kind: ErrorKind::UnexpectedEnd, offset: (p + 4) as usize, stage: None })
    } else if blocks_error(s, p + 4, p + d) is Some {
        blocks_error(s, p + 4, p + d)
    } else if p + d + 1 > n {
        Some(ParseError { kind: ErrorKind::UnexpectedEnd, offset: (p + d) as usize, stage: None })
    } else {
        None
    }
}

/// Where the extension block that starts at `s[p]` ends. Without data blocks a fixed
/// 128 bytes are skipped after its 3 header bytes; otherwise it runs to the end of
/// `s`, whose last byte is the checksum.
pub open spec fn extension_end(s: Seq<u8>, p: int) -> int {
    if s[p + 2] == 0 {
        p + 131
    } else {
        s.len() as int
    }
}

/// `x` is what the extension block that starts at `s[p]` decodes to.
pub open spec fn extension_matches(x: CtaExtensions, s: Seq<u8>, p: int) -> bool {
    let d = s[p + 2] as int;
    &&& x.extension_tag == s[p]
    &&& x.reserved == s[p + 1]
    &&& if d == 0 {
        &&& x.native_dtd == native_dtds_spec(0)
        &&& x.blocks@.len() == 0
        &&& x.descriptors@.len() == 0
    } else {
        &&& x.native_dtd == native_dtds_spec(s[p + 3])
        &&& block_chain(x.blocks@, s, p + 4, p + d)
        &&& x.descriptors@ == timings_spec(s, p + d, s.len() - 1)
    }
}

/// Decodes the extension block that starts at `data[p]`. Its checksum byte is read
/// but not checked.
pub fn parse_extension(data: &[u8], p: usize) -> (r: Result<(CtaExtensions, usize), ParseError>)
    requires
        p <= data@.len(),
    ensures
        match r {
            Ok((x, next)) => extension_error(data@, p as int) is None && next == extension_end(
                data@,
                p as int,
            ) && extension_matches(x, data@, p as int),
            Err(err) => extension_error(data@, p as int) == Some(err),
        },
{
    let n = data.len();
    if n - p < 3 {
        return Err(ParseError { kind: ErrorKind::UnexpectedEnd, offset: p, stage: None });
    }
    let extension_tag = data[p];
    let reserved = data[p + 1];
    let dtd_flag = data[p + 2];
    if dtd_flag == 0 {
        if n - p - 3 < 128 {
            return Err(ParseError { kind: ErrorKind::UnexpectedEnd, offset: p + 3, stage: None });
        }
        let x = CtaExtensions {
            extension_tag,
            reserved,
            native_dtd: parse_native_dtds(0),
            blocks: Vec::new(),
            descriptors: Vec::new(),
        };
        return Ok((x, p + 131));
    }
    if dtd_flag < 4 {
        return Err(ParseError { kind: ErrorKind::BadDataOffset, offset: p + 2, stage: None });
    }
    if n - p < 4 {
        return Err(ParseError { kind: ErrorKind::UnexpectedEnd, offset: p + 3, stage: None });
    }
    let native_dtd = parse_native_dtds(data[p + 3]);
    let d = dtd_flag as usize;
    if n - p < d {
        return Err(ParseError { kind: ErrorKind::UnexpectedEnd, offset: p + 4, stage: None });
    }
    let blocks = match parse_blocks(data, p + 4, p + d) {
        Ok(bs) => bs,
        Err(x) => {
            return Err(x);
        },
    };
    if n - p - d < 1 {
        return Err(ParseError { kind: ErrorKind::UnexpectedEnd, offset: p + d, stage: None });
    }
    let descriptors = parse_descriptors(data, p + d, n - 1);
    let _checksum = data[n - 1];
    Ok((CtaExtensions { extension_tag, reserved, native_dtd, blocks, descriptors }, n))
}

} // verus!
