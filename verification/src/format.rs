//! The canonical WAV layout as a mathematical model: what a file holds, which bytes stand
//! for it, and what a sequence of bytes decodes to.
//!
//! | offset | size | field             | encoding          |
//! |--------|------|-------------------|-------------------|
//! | 0      | 4    | `riff_header`     | tag               |
//! | 4      | 4    | `riff_chunk_size` | u32 little-endian |
//! | 8      | 4    | `wave_header`     | tag               |
//! | 12     | 4    | `fmt_header`      | tag               |
//! | 16     | 4    | `fmt_chunk_size`  | u32 little-endian |
//! | 20     | 2    | `audio_format`    | u16 little-endian |
//! | 22     | 2    | `channel_amount`  | u16 little-endian |
//! | 24     | 4    | `sample_rate`     | u32 little-endian |
//! | 28     | 4    | `byte_rate`       | u32 little-endian |
//! | 32     | 2    | `block_align`     | u16 little-endian |
//! | 34     | 2    | `bit_rate`        | u16 little-endian |
//! | 36     | 4    | `data_chunk`      | tag               |
//! | 40     | 4    | `data_size`       | u32 little-endian |
//! | 44     | N    | `audio_data`      | raw bytes         |

use crate::endian::spec_u16_from_le_bytes;
use crate::endian::spec_u16_to_le_bytes;
use crate::endian::spec_u32_from_le_bytes;
use crate::endian::spec_u32_to_le_bytes;
use crate::error::WavError;
use vstd::prelude::*;

verus! {

/// The number of bytes before the audio data.
pub const HEADER_SIZE: usize = 44;

/// The offset of the channel count in an encoded file.
pub const CHANNEL_AMOUNT_OFFSET: usize = 22;

/// The offset of the sample rate in an encoded file.
pub const SAMPLE_RATE_OFFSET: usize = 24;

/// What a WAV file holds: the fields of its header and its audio data.
#[verifier::ext_equal]
pub struct WavView {
    pub riff_header: Seq<u8>,
    pub riff_chunk_size: u32,
    pub wave_header: Seq<u8>,
    pub fmt_header: Seq<u8>,
    pub fmt_chunk_size: u32,
    pub audio_format: u16,
    pub channel_amount: u16,
    pub sample_rate: u32,
    pub byte_rate: u32,
    pub block_align: u16,
    pub bit_rate: u16,
    pub data_chunk: Seq<u8>,
    pub data_size: u32,
    pub audio_data: Seq<u8>,
}

impl WavView {
    /// Each of the four tags is four bytes long.
    pub open spec fn has_whole_tags(self) -> bool {
        &&& self.riff_header.len() == 4
        &&& self.wave_header.len() == 4
        &&& self.fmt_header.len() == 4
        &&& self.data_chunk.len() == 4
    }

    /// The audio data is as long as the header says.
    pub open spec fn is_consistent(self) -> bool {
        self.audio_data.len() == self.data_size
    }
}

/// The bytes of the header of `wav`.
pub open spec fn spec_encode_header(wav: WavView) -> Seq<u8> {
    wav.riff_header + spec_u32_to_le_bytes(wav.riff_chunk_size) + wav.wave_header
        + wav.fmt_header + spec_u32_to_le_bytes(wav.fmt_chunk_size) + spec_u16_to_le_bytes(
        wav.audio_format,
    ) + spec_u16_to_le_bytes(wav.channel_amount) + spec_u32_to_le_bytes(wav.sample_rate)
        + spec_u32_to_le_bytes(wav.byte_rate) + spec_u16_to_le_bytes(wav.block_align)
        + spec_u16_to_le_bytes(wav.bit_rate) + wav.data_chunk + spec_u32_to_le_bytes(
        wav.data_size,
    )
}

/// The bytes that stand for `wav`: each field in the order of the layout, the numbers
/// little-endian, the tags and the audio data as they are. No field is computed from
/// another.
pub open spec fn spec_encode(wav: WavView) -> Seq<u8> {
    spec_encode_header(wav) + wav.audio_data
}

/// The size of the audio data that the header at the start of `bytes` declares.
pub open spec fn spec_declared_data_size(bytes: Seq<u8>) -> u32 {
    spec_u32_from_le_bytes(bytes.subrange(40, 44))
}

/// The number of bytes that a decoder reads of `bytes`: the header and the audio data that
/// it declares.
pub open spec fn spec_encoded_len(bytes: Seq<u8>) -> int {
    HEADER_SIZE + spec_declared_data_size(bytes)
}

/// The fields that the first `HEADER_SIZE` bytes of `bytes` hold, with the audio data that
/// follows them. Tags are taken as they are, whatever they read.
pub open spec fn spec_decode_fields(bytes: Seq<u8>) -> WavView {
    WavView {
        riff_header: bytes.subrange(0, 4),
        riff_chunk_size: spec_u32_from_le_bytes(bytes.subrange(4, 8)),
        wave_header: bytes.subrange(8, 12),
        fmt_header: bytes.subrange(12, 16),
        fmt_chunk_size: spec_u32_from_le_bytes(bytes.subrange(16, 20)),
        audio_format: spec_u16_from_le_bytes(bytes.subrange(20, 22)),
        channel_amount: spec_u16_from_le_bytes(bytes.subrange(22, 24)),
        sample_rate: spec_u32_from_le_bytes(bytes.subrange(24, 28)),
        byte_rate: spec_u32_from_le_bytes(bytes.subrange(28, 32)),
        block_align: spec_u16_from_le_bytes(bytes.subrange(32, 34)),
        bit_rate: spec_u16_from_le_bytes(bytes.subrange(34, 36)),
        data_chunk: bytes.subrange(36, 40),
        data_size: spec_declared_data_size(bytes),
        audio_data: bytes.subrange(HEADER_SIZE as int, spec_encoded_len(bytes)),
    }
}

/// What `bytes` decodes to. Decoding fails where the bytes end before the header does, or
/// before the audio data that the header declares; bytes after the audio data are not read.
pub open spec fn spec_decode(bytes: Seq<u8>) -> Result<WavView, WavError> {
    if bytes.len() < HEADER_SIZE {
        Err(WavError::TruncatedHeader)
    } else if bytes.len() < spec_encoded_len(bytes) {
        Err(WavError::TruncatedData)
    } else {
        Ok(spec_decode_fields(bytes))
    }
}

/// `bytes` is one whole canonical WAV file: a header, and as many bytes of audio data as it
/// declares.
pub open spec fn is_canonical(bytes: Seq<u8>) -> bool {
    &&& bytes.len() >= HEADER_SIZE
    &&& bytes.len() == spec_encoded_len(bytes)
}

} // verus!
