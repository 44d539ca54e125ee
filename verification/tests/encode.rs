use wav_handler::format::CHANNEL_AMOUNT_OFFSET;
use wav_handler::format::HEADER_SIZE;
use wav_handler::format::SAMPLE_RATE_OFFSET;
use wav_handler::ByteRepresentation;
use wav_handler::WavHandler;

fn sample_file() -> WavHandler {
    WavHandler {
        riff_header: *b"RIFF",
        riff_chunk_size: 42,
        wave_header: *b"WAVE",
        fmt_header: *b"fmt ",
        fmt_chunk_size: 16,
        audio_format: 1,
        channel_amount: 2,
        sample_rate: 44100,
        byte_rate: 176400,
        block_align: 4,
        bit_rate: 16,
        data_chunk: *b"data",
        data_size: 6,
        audio_data: vec![10, 20, 30, 40, 50, 60],
    }
}

#[test]
fn encodes_the_fields_in_the_order_of_the_layout() {
    let bytes = sample_file().write_new_file();
    let expected: Vec<u8> = vec![
        0x52, 0x49, 0x46, 0x46, // "RIFF"
        42, 0, 0, 0, // riff chunk size
        0x57, 0x41, 0x56, 0x45, // "WAVE"
        0x66, 0x6d, 0x74, 0x20, // "fmt "
        16, 0, 0, 0, // fmt chunk size
        1, 0, // audio format
        2, 0, // channels
        0x44, 0xac, 0x00, 0x00, // sample rate
        0x10, 0xb1, 0x02, 0x00, // byte rate
        4, 0, // block align
        16, 0, // bits per sample
        0x64, 0x61, 0x74, 0x61, // "data"
        6, 0, 0, 0, // data size
        10, 20, 30, 40, 50, 60,
    ];
    assert_eq!(bytes, expected);
}

#[test]
fn sample_rate_is_written_little_endian_at_its_offset() {
    let mut wav = WavHandler::default();
    wav.sample_rate = 44100;
    let bytes = wav.write_new_file();
    assert_eq!(SAMPLE_RATE_OFFSET, 24);
    assert_eq!(bytes[SAMPLE_RATE_OFFSET..SAMPLE_RATE_OFFSET + 4], [0x44, 0xac, 0x00, 0x00]);
}

#[test]
fn encoded_length_is_header_plus_audio_data() {
    assert_eq!(HEADER_SIZE, 44);
    assert_eq!(WavHandler::default().write_new_file().len(), 44);
    assert_eq!(sample_file().write_new_file().len(), 50);
}

#[test]
fn encoder_does_not_mend_inconsistent_fields() {
    let mut wav = sample_file();
    wav.data_size = 1000;
    wav.riff_chunk_size = 7;
    wav.byte_rate = 1;
    wav.block_align = 9;
    let bytes = wav.write_new_file();
    assert_eq!(bytes.len(), 50);
    assert_eq!(bytes[4..8], [7, 0, 0, 0]);
    assert_eq!(bytes[28..32], [1, 0, 0, 0]);
    assert_eq!(bytes[32..34], [9, 0]);
    assert_eq!(bytes[40..44], [0xe8, 0x03, 0, 0]);
    assert_eq!(bytes[44..], [10, 20, 30, 40, 50, 60]);
}

#[test]
fn convert_to_bytes_gives_each_field_its_bytes() {
    let repr = ByteRepresentation::convert_to_bytes(&sample_file());
    assert_eq!(repr.riff_header, *b"RIFF");
    assert_eq!(repr.riff_chunk_size, [42, 0, 0, 0]);
    assert_eq!(repr.wave_header, *b"WAVE");
    assert_eq!(repr.fmt_header, *b"fmt ");
    assert_eq!(repr.fmt_chunk_size, [16, 0, 0, 0]);
    assert_eq!(repr.audio_format, [1, 0]);
    assert_eq!(repr.channel_amount, [2, 0]);
    assert_eq!(repr.sample_rate, [0x44, 0xac, 0x00, 0x00]);
    assert_eq!(repr.byte_rate, [0x10, 0xb1, 0x02, 0x00]);
    assert_eq!(repr.block_align, [4, 0]);
    assert_eq!(repr.bit_rate, [16, 0]);
    assert_eq!(repr.data_chunk, *b"data");
    assert_eq!(repr.data_size, [6, 0, 0, 0]);
    assert_eq!(repr.audio_data, vec![10, 20, 30, 40, 50, 60]);
}

#[test]
fn byte_representation_is_written_field_after_field() {
    let repr = ByteRepresentation {
        riff_header: [1, 2, 3, 4],
        riff_chunk_size: [5, 6, 7, 8],
        wave_header: [9, 10, 11, 12],
        fmt_header: [13, 14, 15, 16],
        fmt_chunk_size: [17, 18, 19, 20],
        audio_format: [21, 22],
        channel_amount: [23, 24],
        sample_rate: [25, 26, 27, 28],
        byte_rate: [29, 30, 31, 32],
        block_align: [33, 34],
        bit_rate: [35, 36],
        data_chunk: [37, 38, 39, 40],
        data_size: [41, 42, 43, 44],
        audio_data: vec![45, 46, 47],
    };
    let bytes = ByteRepresentation::write_new_file(repr);
    let expected: Vec<u8> = (1..=47).collect();
    assert_eq!(bytes, expected);
}

#[test]
fn change_channel_test_sets_one_channel_and_nothing_else() {
    let mut wav = sample_file();
    wav.change_channel_test();
    assert_eq!(wav.channel_amount, 1);
    assert_eq!(wav.riff_header, *b"RIFF");
    assert_eq!(wav.riff_chunk_size, 42);
    assert_eq!(wav.wave_header, *b"WAVE");
    assert_eq!(wav.fmt_header, *b"fmt ");
    assert_eq!(wav.fmt_chunk_size, 16);
    assert_eq!(wav.audio_format, 1);
    assert_eq!(wav.sample_rate, 44100);
    assert_eq!(wav.byte_rate, 176400);
    assert_eq!(wav.block_align, 4);
    assert_eq!(wav.bit_rate, 16);
    assert_eq!(wav.data_chunk, *b"data");
    assert_eq!(wav.data_size, 6);
    assert_eq!(wav.audio_data, vec![10, 20, 30, 40, 50, 60]);
}

#[test]
fn changed_channel_count_is_written_at_its_offset() {
    let before = sample_file().write_new_file();
    let mut wav = sample_file();
    wav.change_channel_test();
    let after = wav.write_new_file();

    assert_eq!(CHANNEL_AMOUNT_OFFSET, 22);
    assert_eq!(after.len(), before.len());
    assert_eq!(before[22..24], [2, 0]);
    assert_eq!(after[22..24], [1, 0]);
    for i in 0..before.len() {
        if i != 22 && i != 23 {
            assert_eq!(after[i], before[i], "offset {}", i);
        }
    }
}

#[test]
fn clone_is_a_deep_copy() {
    let wav = sample_file();
    let mut copy = wav.clone();
    assert_eq!(copy.write_new_file(), wav.write_new_file());

    copy.change_channel_test();
    copy.audio_data[0] = 99;
    assert_eq!(wav.channel_amount, 2);
    assert_eq!(wav.audio_data[0], 10);
    assert_eq!(copy.channel_amount, 1);
    assert_eq!(copy.audio_data[0], 99);
}

#[test]
fn show_leaves_the_file_as_it_is() {
    let wav = sample_file();
    let before = wav.write_new_file();
    wav.show();
    assert_eq!(wav.write_new_file(), before);
}
