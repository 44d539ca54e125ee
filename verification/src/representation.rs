//! The bytes of a WAV file field by field, as they are written.

use crate::endian::spec_u16_to_le_bytes;
use crate::endian::spec_u32_to_le_bytes;
use crate::endian::u16_to_le_bytes;
use crate::endian::u32_to_le_bytes;
use crate::format::spec_encode;
use crate::handler::WavHandler;
use vstd::prelude::*;

verus! {

/// The bytes that stand for each field of a WAV file.
pub struct ByteRepresentation {
    // Riff chunk
    pub riff_header: [u8; 4],
    pub riff_chunk_size: [u8; 4],
    pub wave_header: [u8; 4],
    // fmt subchunk
    pub fmt_header: [u8; 4],
    pub fmt_chunk_size: [u8; 4],
    pub audio_format: [u8; 2],
    pub channel_amount: [u8; 2],
    pub sample_rate: [u8; 4],
    pub byte_rate: [u8; 4],
    pub block_align: [u8; 2],
    pub bit_rate: [u8; 2],
    // Data subchunk
    pub data_chunk: [u8; 4],
    pub data_size: [u8; 4],
    pub audio_data: Vec<u8>,
}

impl View for ByteRepresentation {
    type V = Seq<u8>;

    /// The bytes of all fields, one field after the other in the order of the layout.
    open spec fn view(&self) -> Seq<u8> {
        self.riff_header@ + self.riff_chunk_size@ + self.wave_header@ + self.fmt_header@
            + self.fmt_chunk_size@ + self.audio_format@ + self.channel_amount@
            + self.sample_rate@ + self.byte_rate@ + self.block_align@ + self.bit_rate@
            + self.data_chunk@ + self.data_size@ + self.audio_data@
    }
}

impl ByteRepresentation {
    /// Turns each field of `wav_handler` into its bytes: a tag and the audio data as they
    /// are, a number into its little-endian bytes at its own width.
    pub fn convert_to_bytes(wav_handler: &WavHandler) -> (byte_repr: ByteRepresentation)
        ensures
            byte_repr.riff_header@ == wav_handler.riff_header@,
            byte_repr.riff_chunk_size@ == spec_u32_to_le_bytes(wav_handler.riff_chunk_size),
            byte_repr.wave_header@ == wav_handler.wave_header@,
            byte_repr.fmt_header@ == wav_handler.fmt_header@,
            byte_repr.fmt_chunk_size@ == spec_u32_to_le_bytes(wav_handler.fmt_chunk_size),
            byte_repr.audio_format@ == spec_u16_to_le_bytes(wav_handler.audio_format),
            byte_repr.channel_amount@ == spec_u16_to_le_bytes(wav_handler.channel_amount),
            byte_repr.sample_rate@ == spec_u32_to_le_bytes(wav_handler.sample_rate),
            byte_repr.byte_rate@ == spec_u32_to_le_bytes(wav_handler.byte_rate),
            byte_repr.block_align@ == spec_u16_to_le_bytes(wav_handler.block_align),
            byte_repr.bit_rate@ == spec_u16_to_le_bytes(wav_handler.bit_rate),
            byte_repr.data_chunk@ == wav_handler.data_chunk@,
            byte_repr.data_size@ == spec_u32_to_le_bytes(wav_handler.data_size),
            byte_repr.audio_data@ == wav_handler.audio_data@,
            byte_repr@ == spec_encode(wav_handler@),
    {
        ByteRepresentation {
            riff_header: wav_handler.riff_header,
            riff_chunk_size: u32_to_le_bytes(wav_handler.riff_chunk_size),
            wave_header: wav_handler.wave_header,
            fmt_header: wav_handler.fmt_header,
            fmt_chunk_size: u32_to_le_bytes(wav_handler.fmt_chunk_size),
            audio_format: u16_to_le_bytes(wav_handler.audio_format),
            channel_amount: u16_to_le_bytes(wav_handler.channel_amount),
            sample_rate: u32_to_le_bytes(wav_handler.sample_rate),
            byte_rate: u32_to_le_bytes(wav_handler.byte_rate),
            block_align: u16_to_le_bytes(wav_handler.block_align),
            bit_rate: u16_to_le_bytes(wav_handler.bit_rate),
            data_chunk: wav_handler.data_chunk,
            data_size: u32_to_le_bytes(wav_handler.data_size),
            audio_data: wav_handler.audio_data.clone(),
        }
    }

    /// Writes the fields to a fresh sequence of bytes, each field in one piece, in the
    /// order of the layout.
    pub fn write_new_file(byte_repr: ByteRepresentation) -> (sink: Vec<u8>)
        ensures
            sink@ == byte_repr@,
    {
        let mut buffer: Vec<u8> = Vec::new();
        buffer.extend_from_slice(&byte_repr.riff_header);
        buffer.extend_from_slice(&byte_repr.riff_chunk_size);
        buffer.extend_from_slice(&byte_repr.wave_header);
        buffer.extend_from_slice(&byte_repr.fmt_header);
        buffer.extend_from_slice(&byte_repr.fmt_chunk_size);
        buffer.extend_from_slice(&byte_repr.audio_format);
        buffer.extend_from_slice(&byte_repr.channel_amount);
        buffer.extend_from_slice(&byte_repr.sample_rate);
        buffer.extend_from_slice(&byte_repr.byte_rate);
        buffer.extend_from_slice(&byte_repr.block_align);
        buffer.extend_from_slice(&byte_repr.bit_rate);
        buffer.extend_from_slice(&byte_repr.data_chunk);
        buffer.extend_from_slice(&byte_repr.data_size);
        buffer.extend_from_slice(byte_repr.audio_data.as_slice());
        buffer
    }
}

} // verus!
