//! Why a decode failed, and where.
use vstd::prelude::*;

verus! {

/// The class of a decoding failure.
#[derive(Debug, PartialEq, Eq, Clone, Copy)]
pub enum ErrorKind {
    /// The first eight bytes are not the fixed header literal.
    MagicMismatch,
    /// Fewer bytes remain than a fixed-size or declared-length field needs.
    UnexpectedEnd,
    /// The extension's data offset points inside its own four header bytes.
    BadDataOffset,
}

/// The nested decoder that was running when a failure happened.
#[derive(Debug, PartialEq, Eq, Clone, Copy)]
pub enum Stage {
    AudioDataBlocks,
    VideoDataBlocks,
    VendorSpecificDataBlock,
    SpeakerAllocationDataBlock,
}

/// A decoding failure: its class, the position in the input of the record
/// being decoded, and the data-block decoder it happened in, if any.
#[derive(Debug, PartialEq, Eq, Clone, Copy)]
pub struct ParseError {
    pub kind: ErrorKind,
    pub offset: usize,
    pub stage: Option<Stage>,
}

impl Stage {
    /// The label of the stage, as a diagnostic shows it.
    pub fn label(&self) -> (r: &'static str)
        ensures
            r@ == stage_label(*self),
    {
        match self {
            Stage::AudioDataBlocks => "audio data blocks",
            Stage::VideoDataBlocks => "video data blocks",
            Stage::VendorSpecificDataBlock => "vendor specific data block",
            Stage::SpeakerAllocationDataBlock => "speaker allocation data block",
        }
    }
}

pub open spec fn stage_label(s: Stage) -> Seq<char> {
    match s {
        Stage::AudioDataBlocks => "audio data blocks"@,
        Stage::VideoDataBlocks => "video data blocks"@,
        Stage::VendorSpecificDataBlock => "vendor specific data block"@,
        Stage::SpeakerAllocationDataBlock => "speaker allocation data block"@,
    }
}

} // verus!
