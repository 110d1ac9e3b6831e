use edidr::edid::{parse, Descriptor, DetailedTiming, Display, Header, EDID};
use edidr::error::{ErrorKind, ParseError, Stage};
use edidr::extension::{
    AudioBlock, CtaExtensions, DataBlock, DataBlockHeader, NativeDTDs, ShortAudioDescriptor,
    ShortVideoDescriptor, SpeakerAllocation, VendorSpecific, VideoBlock,
};

const MAGIC: [u8; 8] = [0x00, 0xFF, 0xFF, 0xFF, 0xFF, 0xFF, 0xFF, 0x00];

fn timing_bytes(t: &DetailedTiming) -> [u8; 18] {
    let raw = (t.pixel_clock / 10) as u16;
    let lo = |v: u16| (v & 0xFF) as u8;
    let hi = |v: u16| (v >> 8) as u8;
    [
        lo(raw),
        hi(raw),
        lo(t.horizontal_active_pixels),
        lo(t.horizontal_blanking_pixels),
        (hi(t.horizontal_active_pixels) << 4) | hi(t.horizontal_blanking_pixels),
        lo(t.vertical_active_lines),
        lo(t.vertical_blanking_lines),
        (hi(t.vertical_active_lines) << 4) | hi(t.vertical_blanking_lines),
        lo(t.horizontal_front_porch),
        lo(t.horizontal_sync_width),
        ((t.vertical_front_porch as u8 & 0xF) << 4) | (t.vertical_sync_width as u8 & 0xF),
        (hi(t.horizontal_front_porch) << 6)
            | (hi(t.horizontal_sync_width) << 4)
            | (((t.vertical_front_porch >> 4) as u8) << 2)
            | ((t.vertical_sync_width >> 4) as u8),
        lo(t.horizontal_size),
        lo(t.vertical_size),
        (hi(t.horizontal_size) << 4) | hi(t.vertical_size),
        t.horizontal_border_pixels,
        t.vertical_border_pixels,
        t.features,
    ]
}

fn monitor_slot(tag: u8, payload: &[u8]) -> [u8; 18] {
    let mut slot = [0u8; 18];
    slot[3] = tag;
    slot[5..5 + payload.len()].copy_from_slice(payload);
    slot
}

fn vendor_code(letters: [char; 3]) -> u16 {
    letters.iter().fold(0u16, |acc, c| (acc << 5) | (*c as u16 - 64))
}

fn base_block(h: &Header, d: &Display, slots: [[u8; 18]; 4], extensions: u8) -> Vec<u8> {
    let mut b = MAGIC.to_vec();
    b.extend_from_slice(&vendor_code(h.vendor).to_be_bytes());
    b.extend_from_slice(&h.product.to_le_bytes());
    b.extend_from_slice(&h.serial.to_le_bytes());
    b.extend_from_slice(&[h.week, h.year, h.version, h.revision]);
    b.extend_from_slice(&[d.video_input, d.width, d.height, d.gamma, d.features]);
    b.extend_from_slice(&[0x5Au8; 29]);
    for s in slots.iter() {
        b.extend_from_slice(s);
    }
    b.push(extensions);
    b.push(0x11);
    assert_eq!(b.len(), 128);
    b
}

fn check(d: &[u8], expected: &EDID) {
    match parse(d) {
        Ok((remaining, parsed)) => {
            assert_eq!(remaining.len(), 0);
            assert_eq!(&parsed, expected);
        }
        Err(err) => panic!("{:?}", err),
    }
}

fn sam_header() -> Header {
    Header { vendor: ['S', 'A', 'M'], product: 596, serial: 1146106418, week: 27, year: 17, version: 1, revision: 3 }
}

fn sam_display() -> Display {
    Display { video_input: 14, width: 47, height: 30, gamma: 120, features: 42 }
}

fn sam_timing() -> DetailedTiming {
    DetailedTiming {
        pixel_clock: 146250,
        horizontal_active_pixels: 1680,
        horizontal_blanking_pixels: 560,
        vertical_active_lines: 1050,
        vertical_blanking_lines: 39,
        horizontal_front_porch: 104,
        horizontal_sync_width: 176,
        vertical_front_porch: 3,
        vertical_sync_width: 6,
        horizontal_size: 474,
        vertical_size: 296,
        horizontal_border_pixels: 0,
        vertical_border_pixels: 0,
        features: 28,
    }
}

fn sam_input() -> Vec<u8> {
    base_block(
        &sam_header(),
        &sam_display(),
        [
            timing_bytes(&sam_timing()),
            monitor_slot(0xFD, &[0x38, 0x4B, 0x1E, 0x51, 0x11, 0, 0x0A, 0x20, 0x20, 0x20, 0x20, 0x20, 0x20]),
            monitor_slot(0xFC, b"SyncMaster\n  "),
            monitor_slot(0xFF, b"HS3P701105\n  "),
        ],
        0,
    )
}

#[test]
fn test_card0_vga_1() {
    let expected = EDID {
        header: sam_header(),
        display: sam_display(),
        chromaticity: (),
        established_timing: (),
        standard_timing: (),
        descriptors: vec![
            Descriptor::DetailedTiming(sam_timing()),
            Descriptor::RangeLimits,
            Descriptor::ProductName("SyncMaster".to_string()),
            Descriptor::SerialNumber("HS3P701105".to_string()),
        ],
        extensions: None,
    };
    check(&sam_input(), &expected);
}

#[test]
fn test_card0_edp_1() {
    let header = Header { vendor: ['S', 'H', 'P'], product: 5193, serial: 0, week: 32, year: 25, version: 1, revision: 4 };
    let display = Display { video_input: 165, width: 29, height: 17, gamma: 120, features: 14 };
    let timing = DetailedTiming {
        pixel_clock: 138500,
        horizontal_active_pixels: 1920,
        horizontal_blanking_pixels: 160,
        vertical_active_lines: 1080,
        vertical_blanking_lines: 31,
        horizontal_front_porch: 48,
        horizontal_sync_width: 32,
        vertical_front_porch: 3,
        vertical_sync_width: 5,
        horizontal_size: 294,
        vertical_size: 165,
        horizontal_border_pixels: 0,
        vertical_border_pixels: 0,
        features: 24,
    };
    let unknown = [2u8, 65, 3, 40, 0, 18, 0, 0, 11, 1, 10, 32, 32];
    let input = base_block(
        &header,
        &display,
        [
            timing_bytes(&timing),
            monitor_slot(0x10, &[0u8; 13]),
            monitor_slot(0xFE, &[b'D', b'J', b'C', b'P', b'6', 0x80, b'L', b'Q', b'1', b'3', b'3', b'M', b'1']),
            monitor_slot(0x02, &unknown),
        ],
        0,
    );
    let expected = EDID {
        header,
        display,
        chromaticity: (),
        established_timing: (),
        standard_timing: (),
        descriptors: vec![
            Descriptor::DetailedTiming(timing),
            Descriptor::Dummy,
            Descriptor::UnspecifiedText("DJCP6\u{c7}LQ133M1".to_string()),
            Descriptor::Unknown(unknown),
        ],
        extensions: None,
    };
    check(&input, &expected);
}

fn timing(clock: u32, ha: u16, hb: u16, va: u16, vb: u16, hfp: u16, hs: u16, vfp: u16, vs: u16, features: u8) -> DetailedTiming {
    DetailedTiming {
        pixel_clock: clock,
        horizontal_active_pixels: ha,
        horizontal_blanking_pixels: hb,
        vertical_active_lines: va,
        vertical_blanking_lines: vb,
        horizontal_front_porch: hfp,
        horizontal_sync_width: hs,
        vertical_front_porch: vfp,
        vertical_sync_width: vs,
        horizontal_size: 531,
        vertical_size: 299,
        horizontal_border_pixels: 0,
        vertical_border_pixels: 0,
        features,
    }
}

fn hdmi_timings() -> Vec<DetailedTiming> {
    vec![
        timing(148500, 1920, 280, 1080, 45, 88, 44, 4, 5, 30),
        timing(74250, 1920, 280, 540, 22, 88, 44, 2, 5, 158),
        timing(74250, 1280, 370, 720, 30, 110, 40, 5, 5, 30),
        timing(27000, 720, 138, 480, 45, 16, 62, 9, 6, 24),
    ]
}

const VIDEO_INDICES: [u8; 12] = [16, 5, 4, 3, 2, 7, 22, 1, 20, 31, 18, 19];

fn hdmi_input() -> Vec<u8> {
    let header = Header { vendor: ['D', 'E', 'L'], product: 41099, serial: 809851217, week: 15, year: 23, version: 1, revision: 3 };
    let display = Display { video_input: 128, width: 53, height: 30, gamma: 120, features: 234 };
    let t = hdmi_timings();
    let mut input = base_block(
        &header,
        &display,
        [
            timing_bytes(&t[0]),
            monitor_slot(0xFF, b"67Y4J34A0EYQ\n"),
            monitor_slot(0xFC, b"DELL S2440L\n "),
            monitor_slot(0xFD, &[0x38, 0x4C, 0x1E, 0x53, 0x11, 0, 0x0A, 0x20, 0x20, 0x20, 0x20, 0x20, 0x20]),
        ],
        1,
    );
    let mut blocks = vec![(2u8 << 5) | 12];
    for (i, v) in VIDEO_INDICES.iter().enumerate() {
        blocks.push(if i == 0 { 0x80 | v } else { *v });
    }
    blocks.extend_from_slice(&[(1 << 5) | 3, 0x09, 7, 7]);
    blocks.extend_from_slice(&[(3 << 5) | 5, 3, 12, 0, 16, 0]);
    blocks.extend_from_slice(&[(4 << 5) | 3, 1, 0, 0]);
    let mut ext = vec![2u8, 3, 4 + blocks.len() as u8, 0xF1];
    ext.extend_from_slice(&blocks);
    for d in t.iter() {
        ext.extend_from_slice(&timing_bytes(d));
    }
    ext.resize(127, 0);
    ext.push(0x99);
    input.extend_from_slice(&ext);
    input
}

#[test]
fn test_card0_hdmi_1() {
    let t = hdmi_timings();
    let mut video = Vec::new();
    for (i, v) in VIDEO_INDICES.iter().enumerate() {
        video.push(ShortVideoDescriptor { is_native: if i == 0 { 1 } else { 0 }, cea861_index: *v });
    }
    let expected = EDID {
        header: Header { vendor: ['D', 'E', 'L'], product: 41099, serial: 809851217, week: 15, year: 23, version: 1, revision: 3 },
        display: Display { video_input: 128, width: 53, height: 30, gamma: 120, features: 234 },
        chromaticity: (),
        established_timing: (),
        standard_timing: (),
        descriptors: vec![
            Descriptor::DetailedTiming(t[0]),
            Descriptor::SerialNumber("67Y4J34A0EYQ".to_string()),
            Descriptor::ProductName("DELL S2440L".to_string()),
            Descriptor::RangeLimits,
        ],
        extensions: Some(CtaExtensions {
            extension_tag: 2,
            reserved: 3,
            native_dtd: NativeDTDs { underscan: 1, basic_audio: 1, ycbcr444: 1, ycbcr422: 1, number_of_native_dtd: 1 },
            blocks: vec![
                DataBlock::VideoBlock(VideoBlock { header: DataBlockHeader { type_tag: 2, len: 12 }, descriptors: video }),
                DataBlock::AudioBlock(AudioBlock {
                    header: DataBlockHeader { type_tag: 1, len: 3 },
                    descriptors: vec![ShortAudioDescriptor {
                        audio_format: 1,
                        number_of_channels: 2,
                        sampling_frequences: 7,
                        format_dependent_value: 7,
                        audio_format_extended_code: 0,
                    }],
                }),
                DataBlock::VendorSpecific(VendorSpecific {
                    header: DataBlockHeader { type_tag: 3, len: 5 },
                    identifier: [3, 12, 0],
                    payload: vec![16, 0],
                }),
                DataBlock::SpeakerAllocation(SpeakerAllocation {
                    header: DataBlockHeader { type_tag: 4, len: 3 },
                    speakers: 1,
                    reserved: [0, 0],
                }),
            ],
            descriptors: t,
        }),
    };
    check(&hdmi_input(), &expected);
}

#[test]
fn magic_mismatch_is_refused() {
    let mut input = sam_input();
    input[3] = 0x00;
    assert_eq!(parse(&input), Err(ParseError { kind: ErrorKind::MagicMismatch, offset: 0, stage: None }));
    assert_eq!(parse(&[0x00, 0xFF, 0x12]), Err(ParseError { kind: ErrorKind::MagicMismatch, offset: 0, stage: None }));
}

#[test]
fn short_base_block_is_refused() {
    let input = sam_input();
    assert_eq!(parse(&input[..127]), Err(ParseError { kind: ErrorKind::UnexpectedEnd, offset: 0, stage: None }));
    assert_eq!(parse(&input[..5]), Err(ParseError { kind: ErrorKind::UnexpectedEnd, offset: 0, stage: None }));
    assert_eq!(parse(&[]), Err(ParseError { kind: ErrorKind::UnexpectedEnd, offset: 0, stage: None }));
}

#[test]
fn trailing_bytes_are_returned() {
    let mut input = sam_input();
    input.extend_from_slice(&[7, 8, 9]);
    let (rest, parsed) = parse(&input).unwrap();
    assert_eq!(rest, &[7, 8, 9]);
    assert_eq!(parsed.extensions, None);
}

#[test]
fn whole_single_extension_is_consumed() {
    let input = hdmi_input();
    assert_eq!(input.len(), 256);
    let (rest, parsed) = parse(&input).unwrap();
    assert!(rest.is_empty());
    assert_eq!(parsed.extensions.unwrap().descriptors.len(), 4);
}

#[test]
fn checksum_is_not_checked() {
    let mut a = hdmi_input();
    let b = hdmi_input();
    a[127] ^= 0xFF;
    a[255] ^= 0xFF;
    assert_eq!(parse(&a).unwrap().1, parse(&b).unwrap().1);
}

#[test]
fn extension_without_data_blocks_skips_a_fixed_span() {
    let mut input = sam_input();
    input[126] = 1;
    input.extend_from_slice(&[2, 3, 0]);
    input.extend_from_slice(&[0xAB; 128]);
    input.extend_from_slice(&[1, 2]);
    let (rest, parsed) = parse(&input).unwrap();
    assert_eq!(rest, &[1, 2]);
    let x = parsed.extensions.unwrap();
    assert_eq!((x.extension_tag, x.reserved), (2, 3));
    assert_eq!(x.native_dtd, NativeDTDs::default());
    assert!(x.blocks.is_empty() && x.descriptors.is_empty());
    let short = &input[..128 + 3 + 127];
    assert_eq!(parse(short), Err(ParseError { kind: ErrorKind::UnexpectedEnd, offset: 131, stage: None }));
}

#[test]
fn data_offset_inside_extension_header_is_refused() {
    let mut input = hdmi_input();
    input[130] = 3;
    assert_eq!(parse(&input), Err(ParseError { kind: ErrorKind::BadDataOffset, offset: 130, stage: None }));
}

#[test]
fn overlong_data_block_reports_its_stage() {
    let mut input = hdmi_input();
    // The speaker allocation block is the last one; claim one byte more than the span holds.
    let speaker = 128 + 4 + 13 + 4 + 6;
    assert_eq!(input[speaker], (4 << 5) | 3);
    input[speaker] = (4 << 5) | 4;
    assert_eq!(
        parse(&input),
        Err(ParseError { kind: ErrorKind::UnexpectedEnd, offset: speaker, stage: Some(Stage::SpeakerAllocationDataBlock) })
    );
    assert_eq!(Stage::SpeakerAllocationDataBlock.label(), "speaker allocation data block");
}

#[test]
fn short_vendor_block_reports_its_stage() {
    let mut input = hdmi_input();
    let vendor = 128 + 4 + 13 + 4;
    // Shrink the vendor block to two bytes and pad the span with a reserved block.
    input[vendor] = (3 << 5) | 2;
    input[vendor + 3] = (7 << 5) | 2;
    assert_eq!(
        parse(&input),
        Err(ParseError { kind: ErrorKind::UnexpectedEnd, offset: vendor, stage: Some(Stage::VendorSpecificDataBlock) })
    );
}
