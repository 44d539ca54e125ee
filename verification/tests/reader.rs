use wav_handler::get_next_byteline;
use wav_handler::get_next_data_chunk;
use wav_handler::ByteReader;
use wav_handler::WavError;

#[test]
fn bytelines_are_read_one_after_the_other() {
    let bytes = [1u8, 2, 3, 4, 5, 6, 7, 8, 9];
    let mut reader = ByteReader::new(&bytes);
    assert_eq!(get_next_byteline(&mut reader), Ok([1, 2, 3, 4]));
    assert_eq!(get_next_byteline(&mut reader), Ok([5, 6, 7, 8]));
    assert_eq!(get_next_byteline(&mut reader), Err(WavError::TruncatedHeader));
}

#[test]
fn byteline_fails_on_fewer_than_four_bytes() {
    for len in 0..4 {
        let bytes = vec![7u8; len];
        let mut reader = ByteReader::new(&bytes);
        assert_eq!(get_next_byteline(&mut reader), Err(WavError::TruncatedHeader));
    }
}

#[test]
fn data_chunks_are_read_one_after_the_other() {
    let bytes: Vec<u8> = (0..10).collect();
    let mut reader = ByteReader::new(&bytes);
    assert_eq!(get_next_data_chunk(&mut reader, 3), Ok(vec![0, 1, 2]));
    assert_eq!(get_next_data_chunk(&mut reader, 0), Ok(vec![]));
    assert_eq!(get_next_data_chunk(&mut reader, 7), Ok(vec![3, 4, 5, 6, 7, 8, 9]));
    assert_eq!(get_next_data_chunk(&mut reader, 0), Ok(vec![]));
    assert_eq!(get_next_data_chunk(&mut reader, 1), Err(WavError::TruncatedData));
}

#[test]
fn data_chunk_fails_when_too_few_bytes_are_left() {
    let bytes = vec![1u8; 127];
    let mut reader = ByteReader::new(&bytes);
    assert_eq!(get_next_data_chunk(&mut reader, 128), Err(WavError::TruncatedData));
}

#[test]
fn largest_data_chunk_is_255_bytes() {
    let bytes: Vec<u8> = (0..=255u8).collect();
    let mut reader = ByteReader::new(&bytes);
    let chunk = get_next_data_chunk(&mut reader, 255).unwrap();
    assert_eq!(chunk, bytes[..255].to_vec());
    assert_eq!(get_next_data_chunk(&mut reader, 1), Ok(vec![255]));
}

#[test]
fn failed_read_uses_up_what_was_left() {
    let bytes = [1u8, 2, 3, 4, 5, 6];
    let mut reader = ByteReader::new(&bytes);
    assert_eq!(get_next_byteline(&mut reader), Ok([1, 2, 3, 4]));
    assert_eq!(get_next_byteline(&mut reader), Err(WavError::TruncatedHeader));
    assert_eq!(get_next_data_chunk(&mut reader, 1), Err(WavError::TruncatedData));
    assert_eq!(get_next_data_chunk(&mut reader, 0), Ok(vec![]));
}

#[test]
fn read_exact_hands_out_the_bytes_in_order() {
    let bytes = [10u8, 20, 30, 40, 50];
    let mut reader = ByteReader::new(&bytes);
    assert_eq!(reader.read_exact(2), Some(&bytes[0..2]));
    assert_eq!(reader.read_exact(0), Some(&bytes[2..2]));
    assert_eq!(reader.read_exact(3), Some(&bytes[2..5]));
    assert_eq!(reader.read_exact(1), None);
}

#[test]
fn read_exact_of_more_than_is_left_fails_and_drains() {
    let bytes = [10u8, 20, 30];
    let mut reader = ByteReader::new(&bytes);
    assert_eq!(reader.read_exact(4), None);
    assert_eq!(reader.read_exact(1), None);
    assert_eq!(reader.read_exact(usize::MAX), None);
}
