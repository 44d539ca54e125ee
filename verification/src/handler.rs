//! A WAV file in memory: decoding it from bytes, changing it, and encoding it again.

use crate::endian::u16_from_le_bytes;
use crate::endian::u32_from_le_bytes;
use crate::error::WavError;
use crate::format::spec_declared_data_size;
use crate::format::spec_decode;
use crate::format::spec_decode_fields;
use crate::format::spec_encode;
use crate::format::WavView;
use crate::format::HEADER_SIZE;
use crate::reader::get_next_byteline;
use crate::reader::get_next_data_chunk;
use crate::reader::ByteReader;
use crate::representation::ByteRepresentation;
use vstd::prelude::*;

verus! {

/// The number of bytes of audio data that the decoder reads at a time.
pub const DATA_CHUNK_SIZE: u8 = 128;

/// A canonical WAV file: the fields of its header, in the order of the layout, and its
/// audio data. Every field may be changed; nothing keeps the fields consistent with each
/// other.
#[derive(Debug)]
pub struct WavHandler {
    // Riff chunk
    /// The tag of the RIFF chunk: `RIFF` in a canonical file.
    pub riff_header: [u8; 4],
    /// The size of the file less the eight bytes before this field ends.
    pub riff_chunk_size: u32,
    /// The tag of the RIFF profile: `WAVE` in a canonical file.
    pub wave_header: [u8; 4],
    // fmt subchunk
    /// The tag of the format subchunk: `fmt ` in a canonical file.
    pub fmt_header: [u8; 4],
    /// The size of the rest of the format subchunk: 16 for PCM.
    pub fmt_chunk_size: u32,
    /// The code of the audio format: 1 for PCM.
    pub audio_format: u16,
    /// The number of channels.
    pub channel_amount: u16,
    /// The number of sample frames in a second.
    pub sample_rate: u32,
    /// The number of bytes in a second of audio.
    pub byte_rate: u32,
    /// The number of bytes in a sample frame.
    pub block_align: u16,
    /// The number of bits in a sample.
    pub bit_rate: u16,
    // Data subchunk
    /// The tag of the data subchunk: `data` in a canonical file.
    pub data_chunk: [u8; 4],
    /// The number of bytes of audio data.
    pub data_size: u32,
    /// The audio data.
    pub audio_data: Vec<u8>,
}

impl View for WavHandler {
    type V = WavView;

    open spec fn view(&self) -> WavView {
        WavView {
            riff_header: self.riff_header@,
            riff_chunk_size: self.riff_chunk_size,
            wave_header: self.wave_header@,
            fmt_header: self.fmt_header@,
            fmt_chunk_size: self.fmt_chunk_size,
            audio_format: self.audio_format,
            channel_amount: self.channel_amount,
            sample_rate: self.sample_rate,
            byte_rate: self.byte_rate,
            block_align: self.block_align,
            bit_rate: self.bit_rate,
            data_chunk: self.data_chunk@,
            data_size: self.data_size,
            audio_data: self.audio_data@,
        }
    }
}

impl WavHandler {
    /// Decodes a WAV file from its bytes. The header is read four bytes at a time, the
    /// audio data in chunks of `DATA_CHUNK_SIZE` bytes and one shorter chunk for what is
    /// left after the last whole one. Tags are stored as they are read. Nothing is returned
    /// of a file that ends too early.
    pub fn new(audio_file: &[u8]) -> (res: Result<WavHandler, WavError>)
        ensures
            match res {
                Ok(wav) => spec_decode(audio_file@) == Ok::<WavView, WavError>(wav@),
                Err(e) => spec_decode(audio_file@) == Err::<WavView, WavError>(e),
            },
            audio_file@.len() < HEADER_SIZE ==> res == Err::<WavHandler, WavError>(
                WavError::TruncatedHeader,
            ),
            res matches Ok(wav) ==> wav.audio_data@.len() == wav.data_size,
    {
        let mut reader = ByteReader::new(audio_file);

        let riff_header: [u8; 4] = get_next_byteline(&mut reader)?;
        let riff_chunk_size: u32 = u32_from_le_bytes(get_next_byteline(&mut reader)?);
        let wave_header: [u8; 4] = get_next_byteline(&mut reader)?;
        let fmt_header: [u8; 4] = get_next_byteline(&mut reader)?;
        let fmt_chunk_size: u32 = u32_from_le_bytes(get_next_byteline(&mut reader)?);

        let line: [u8; 4] = get_next_byteline(&mut reader)?;
        let audio_format: u16 = u16_from_le_bytes([line[0], line[1]]);
        let channel_amount: u16 = u16_from_le_bytes([line[2], line[3]]);

        let sample_rate: u32 = u32_from_le_bytes(get_next_byteline(&mut reader)?);
        let byte_rate: u32 = u32_from_le_bytes(get_next_byteline(&mut reader)?);

        let line: [u8; 4] = get_next_byteline(&mut reader)?;
        let block_align: u16 = u16_from_le_bytes([line[0], line[1]]);
        let bit_rate: u16 = u16_from_le_bytes([line[2], line[3]]);

        let data_chunk: [u8; 4] = get_next_byteline(&mut reader)?;
        let data_size: u32 = u32_from_le_bytes(get_next_byteline(&mut reader)?);

        let chunk_size: u32 = DATA_CHUNK_SIZE as u32;
        let whole_chunks: u32 = data_size / chunk_size;
        let rest: u8 = (data_size % chunk_size) as u8;
        let mut audio_data: Vec<u8> = Vec::new();
        let mut read_count: u32 = 0;
        while read_count < whole_chunks
            invariant
                chunk_size == DATA_CHUNK_SIZE,
                read_count <= whole_chunks,
                whole_chunks == data_size / chunk_size,
                audio_file@.len() >= HEADER_SIZE + chunk_size * read_count,
                reader@ == audio_file@.skip(HEADER_SIZE + chunk_size * read_count),
                audio_data@ == audio_file@.subrange(
                    HEADER_SIZE as int,
                    HEADER_SIZE + chunk_size * read_count,
                ),
                data_size == spec_declared_data_size(audio_file@),
            decreases whole_chunks - read_count,
        {
            let mut line: Vec<u8> = get_next_data_chunk(&mut reader, DATA_CHUNK_SIZE)?;
            audio_data.append(&mut line);
            read_count += 1;
        }
        if rest > 0 {
            let mut line: Vec<u8> = get_next_data_chunk(&mut reader, rest)?;
            audio_data.append(&mut line);
        }
        let wav = WavHandler {
            riff_header,
            riff_chunk_size,
            wave_header,
            fmt_header,
            fmt_chunk_size,
            audio_format,
            channel_amount,
            sample_rate,
            byte_rate,
            block_align,
            bit_rate,
            data_chunk,
            data_size,
            audio_data,
        };
        assert(wav@ =~= spec_decode_fields(audio_file@));
        Ok(wav)
    }

    /// Makes the file a mono file: sets the channel count to one. Nothing else changes, so
    /// the fields that depend on the channel count are left as they were.
    pub fn change_channel_test(&mut self)
        ensures
            final(self)@ == (WavView { channel_amount: 1, ..old(self)@ }),
    {
        self.channel_amount = 1;
    }

    /// Shows nothing: a hook for inspecting a file while debugging.
    pub fn show(&self) {
    }

    /// Encodes the file into a fresh sequence of bytes: each field as it is now, in the
    /// order of the layout.
    pub fn write_new_file(&self) -> (sink: Vec<u8>)
        ensures
            sink@ == spec_encode(self@),
    {
        let bytes_repr = ByteRepresentation::convert_to_bytes(self);
        ByteRepresentation::write_new_file(bytes_repr)
    }
}

impl Default for WavHandler {
    /// A file whose every field is zero and that has no audio data.
    fn default() -> (wav: Self)
        ensures
            wav@ == (WavView {
                riff_header: seq![0u8, 0u8, 0u8, 0u8],
                riff_chunk_size: 0,
                wave_header: seq![0u8, 0u8, 0u8, 0u8],
                fmt_header: seq![0u8, 0u8, 0u8, 0u8],
                fmt_chunk_size: 0,
                audio_format: 0,
                channel_amount: 0,
                sample_rate: 0,
                byte_rate: 0,
                block_align: 0,
                bit_rate: 0,
                data_chunk: seq![0u8, 0u8, 0u8, 0u8],
                data_size: 0,
                audio_data: Seq::<u8>::empty(),
            }),
    {
        WavHandler {
            riff_header: [0, 0, 0, 0],
            riff_chunk_size: 0,
            wave_header: [0, 0, 0, 0],
            fmt_header: [0, 0, 0, 0],
            fmt_chunk_size: 0,
            audio_format: 0,
            channel_amount: 0,
            sample_rate: 0,
            byte_rate: 0,
            block_align: 0,
            bit_rate: 0,
            data_chunk: [0, 0, 0, 0],
            data_size: 0,
            audio_data: Vec::new(),
        }
    }
}

impl Clone for WavHandler {
    /// A copy that shares nothing with the file it was made from.
    fn clone(&self) -> (copy: Self)
        ensures
            copy@ == self@,
    {
        WavHandler {
            riff_header: self.riff_header,
            riff_chunk_size: self.riff_chunk_size,
            wave_header: self.wave_header,
            fmt_header: self.fmt_header,
            fmt_chunk_size: self.fmt_chunk_size,
            audio_format: self.audio_format,
            channel_amount: self.channel_amount,
            sample_rate: self.sample_rate,
            byte_rate: self.byte_rate,
            block_align: self.block_align,
            bit_rate: self.bit_rate,
            data_chunk: self.data_chunk,
            data_size: self.data_size,
            audio_data: self.audio_data.clone(),
        }
    }
}

} // verus!
