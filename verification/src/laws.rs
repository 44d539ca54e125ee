//! What holds of decoding and encoding together.

use crate::endian::lemma_u16_bytes_round_trip;
use crate::endian::lemma_u16_value_round_trip;
use crate::endian::lemma_u32_bytes_round_trip;
use crate::endian::lemma_u32_value_round_trip;
use crate::endian::spec_u16_to_le_bytes;
use crate::endian::spec_u32_to_le_bytes;
use crate::error::WavError;
use crate::format::is_canonical;
use crate::format::spec_declared_data_size;
use crate::format::spec_decode;
use crate::format::spec_decode_fields;
use crate::format::spec_encode;
use crate::format::spec_encode_header;
use crate::format::spec_encoded_len;
use crate::format::WavView;
use crate::format::CHANNEL_AMOUNT_OFFSET;
use crate::format::HEADER_SIZE;
use crate::format::SAMPLE_RATE_OFFSET;
use crate::handler::WavHandler;
use vstd::prelude::*;

verus! {

/// The tags of a file in memory are four bytes long each.
pub proof fn lemma_handler_has_whole_tags(wav: WavHandler)
    ensures
        wav@.has_whole_tags(),
{
}

/// Each field of a file stands at its offset of the layout, in its own encoding, and the
/// audio data follows the header.
pub proof fn lemma_encode_layout(wav: WavView)
    requires
        wav.has_whole_tags(),
    ensures
        spec_encode_header(wav).len() == HEADER_SIZE,
        spec_encode(wav).len() == HEADER_SIZE + wav.audio_data.len(),
        spec_encode(wav).subrange(0, 4) == wav.riff_header,
        spec_encode(wav).subrange(4, 8) == spec_u32_to_le_bytes(wav.riff_chunk_size),
        spec_encode(wav).subrange(8, 12) == wav.wave_header,
        spec_encode(wav).subrange(12, 16) == wav.fmt_header,
        spec_encode(wav).subrange(16, 20) == spec_u32_to_le_bytes(wav.fmt_chunk_size),
        spec_encode(wav).subrange(20, 22) == spec_u16_to_le_bytes(wav.audio_format),
        spec_encode(wav).subrange(
            CHANNEL_AMOUNT_OFFSET as int,
            CHANNEL_AMOUNT_OFFSET + 2,
        ) == spec_u16_to_le_bytes(wav.channel_amount),
        spec_encode(wav).subrange(SAMPLE_RATE_OFFSET as int, SAMPLE_RATE_OFFSET + 4)
            == spec_u32_to_le_bytes(wav.sample_rate),
        spec_encode(wav).subrange(28, 32) == spec_u32_to_le_bytes(wav.byte_rate),
        spec_encode(wav).subrange(32, 34) == spec_u16_to_le_bytes(wav.block_align),
        spec_encode(wav).subrange(34, 36) == spec_u16_to_le_bytes(wav.bit_rate),
        spec_encode(wav).subrange(36, 40) == wav.data_chunk,
        spec_encode(wav).subrange(40, 44) == spec_u32_to_le_bytes(wav.data_size),
        spec_encode(wav).subrange(HEADER_SIZE as int, spec_encode(wav).len() as int)
            == wav.audio_data,
{
}

/// Truncation: bytes that end before the header does never decode.
pub proof fn lemma_short_input_fails(bytes: Seq<u8>)
    requires
        bytes.len() < HEADER_SIZE,
    ensures
        spec_decode(bytes) == Err::<WavView, WavError>(WavError::TruncatedHeader),
{
}

/// Decoding succeeds on a whole header that is followed by all the audio data that it
/// declares, and only there. The size of the audio data is free: it need not be a multiple
/// of the size of the chunks in which the decoder reads.
pub proof fn lemma_decode_succeeds_on_whole_files(bytes: Seq<u8>)
    ensures
        spec_decode(bytes) is Ok <==> bytes.len() >= HEADER_SIZE && bytes.len()
            >= HEADER_SIZE + spec_declared_data_size(bytes),
{
}

/// What decoding returns has four-byte tags and as much audio data as its header says.
pub proof fn lemma_decoded_is_consistent(bytes: Seq<u8>)
    requires
        spec_decode(bytes) is Ok,
    ensures
        spec_decode(bytes)->Ok_0.has_whole_tags(),
        spec_decode(bytes)->Ok_0.is_consistent(),
{
}

/// Decoding reads a header and the audio data that it declares, and encoding what was
/// decoded gives exactly the bytes that were read.
pub proof fn lemma_decode_then_encode_prefix(bytes: Seq<u8>)
    requires
        spec_decode(bytes) is Ok,
    ensures
        spec_encode(spec_decode(bytes)->Ok_0) == bytes.take(spec_encoded_len(bytes)),
{
    let wav = spec_decode_fields(bytes);
    lemma_u32_bytes_round_trip(bytes.subrange(4, 8));
    lemma_u32_bytes_round_trip(bytes.subrange(16, 20));
    lemma_u16_bytes_round_trip(bytes.subrange(20, 22));
    lemma_u16_bytes_round_trip(bytes.subrange(22, 24));
    lemma_u32_bytes_round_trip(bytes.subrange(24, 28));
    lemma_u32_bytes_round_trip(bytes.subrange(28, 32));
    lemma_u16_bytes_round_trip(bytes.subrange(32, 34));
    lemma_u16_bytes_round_trip(bytes.subrange(34, 36));
    lemma_u32_bytes_round_trip(bytes.subrange(40, 44));
    assert(spec_encode(wav) =~= bytes.take(spec_encoded_len(bytes)));
}

/// Round trip: a whole canonical WAV file decodes, and encoding what it decodes to gives
/// the file back, byte for byte.
pub proof fn lemma_decode_then_encode(bytes: Seq<u8>)
    requires
        is_canonical(bytes),
    ensures
        spec_decode(bytes) is Ok,
        spec_encode(spec_decode(bytes)->Ok_0) == bytes,
{
    lemma_decode_then_encode_prefix(bytes);
    assert(bytes.take(spec_encoded_len(bytes)) =~= bytes);
}

/// The other way round: the bytes of a consistent file are a whole canonical WAV file, and
/// they decode to the file.
pub proof fn lemma_encode_then_decode(wav: WavView)
    requires
        wav.has_whole_tags(),
        wav.is_consistent(),
    ensures
        is_canonical(spec_encode(wav)),
        spec_decode(spec_encode(wav)) == Ok::<WavView, WavError>(wav),
{
    let bytes = spec_encode(wav);
    lemma_encode_layout(wav);
    lemma_u32_value_round_trip(wav.riff_chunk_size);
    lemma_u32_value_round_trip(wav.fmt_chunk_size);
    lemma_u16_value_round_trip(wav.audio_format);
    lemma_u16_value_round_trip(wav.channel_amount);
    lemma_u32_value_round_trip(wav.sample_rate);
    lemma_u32_value_round_trip(wav.byte_rate);
    lemma_u16_value_round_trip(wav.block_align);
    lemma_u16_value_round_trip(wav.bit_rate);
    lemma_u32_value_round_trip(wav.data_size);
    assert(spec_decode_fields(bytes) =~= wav);
}

/// A change of the channel count is local: the bytes of the changed file are those of the
/// file as it was, but for the two bytes at the offset of the channel count, which hold the
/// new count.
pub proof fn lemma_channel_change_is_local(wav: WavView, channel_amount: u16)
    requires
        wav.has_whole_tags(),
    ensures
        ({
            let before = spec_encode(wav);
            let after = spec_encode(WavView { channel_amount, ..wav });
            &&& after.len() == before.len()
            &&& after.subrange(CHANNEL_AMOUNT_OFFSET as int, CHANNEL_AMOUNT_OFFSET + 2)
                == spec_u16_to_le_bytes(channel_amount)
            &&& forall|i: int|
                0 <= i < before.len() && !(CHANNEL_AMOUNT_OFFSET <= i < CHANNEL_AMOUNT_OFFSET
                    + 2) ==> after[i] == before[i]
        }),
{
    lemma_encode_layout(wav);
    lemma_encode_layout(WavView { channel_amount, ..wav });
}

/// A change of the channel count on a decoded file reaches the bytes, and nothing else
/// does: encoding the changed file gives the bytes that were decoded with the new count in
/// place of the old one.
pub proof fn lemma_decode_change_channels_encode(bytes: Seq<u8>, channel_amount: u16)
    requires
        spec_decode(bytes) is Ok,
    ensures
        spec_encode(WavView { channel_amount, ..spec_decode(bytes)->Ok_0 }) == bytes.subrange(
            0,
            CHANNEL_AMOUNT_OFFSET as int,
        ) + spec_u16_to_le_bytes(channel_amount) + bytes.subrange(
            CHANNEL_AMOUNT_OFFSET + 2,
            spec_encoded_len(bytes),
        ),
{
    let wav = spec_decode(bytes)->Ok_0;
    lemma_decode_then_encode_prefix(bytes);
    lemma_channel_change_is_local(wav, channel_amount);
    let after = spec_encode(WavView { channel_amount, ..wav });
    let expected = bytes.subrange(0, CHANNEL_AMOUNT_OFFSET as int) + spec_u16_to_le_bytes(
        channel_amount,
    ) + bytes.subrange(CHANNEL_AMOUNT_OFFSET + 2, spec_encoded_len(bytes));
    assert(after =~= expected);
}

} // verus!
