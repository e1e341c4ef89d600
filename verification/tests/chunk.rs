use pngme::chunk::Chunk;
use pngme::chunk_type::ChunkType;
use pngme::error::PngError;

fn sample_chunk(tag: &str, data: &[u8]) -> Chunk {
    let chunk_type = ChunkType::from_str(tag).unwrap();
    Chunk::new(chunk_type, data.to_vec())
}

#[test]
fn test_chunk_accessors() {
    let chunk = sample_chunk("RuSt", &[1, 2, 3]);
    assert_eq!(chunk.length(), 3);
    assert_eq!(chunk.data(), &[1, 2, 3]);
    assert_eq!(chunk.chunk_type().bytes(), [82, 117, 83, 116]);
}

#[test]
fn test_length_equals_data_len_on_both_paths() {
    let built = sample_chunk("teSt", &[9, 8, 7, 6]);
    assert_eq!(built.length() as usize, built.data().len());

    let parsed = Chunk::parse(&built.as_bytes()).unwrap();
    assert_eq!(parsed.length() as usize, parsed.data().len());
    assert_eq!(parsed.length(), 4);
}

#[test]
fn test_crc_known_value() {
    // The ISO-HDLC check value: the checksum of b"123456789" is
    // 0xCBF43926.  Split as a 4-byte tag and 5 data bytes, the chunk's
    // checksum covers exactly that concatenation.
    let chunk = sample_chunk("1234", b"56789");
    assert_eq!(chunk.crc(), 0xCBF43926);
}

#[test]
fn test_as_bytes_exact_layout() {
    // The canonical empty IEND chunk, byte for byte.
    let chunk = sample_chunk("IEND", &[]);
    assert_eq!(
        chunk.as_bytes(),
        vec![0x00, 0x00, 0x00, 0x00, 0x49, 0x45, 0x4E, 0x44, 0xAE, 0x42, 0x60, 0x82]
    );
}

#[test]
fn test_crc_deterministic() {
    let a = sample_chunk("RuSt", &[10, 20, 30]);
    let b = sample_chunk("RuSt", &[10, 20, 30]);
    assert_eq!(a.crc(), b.crc());
    assert_eq!(a.as_bytes(), b.as_bytes());
}

#[test]
fn test_parse_round_trip() {
    let original = sample_chunk("RuSt", &[0, 255, 127, 128, 1]);
    let parsed = Chunk::parse(&original.as_bytes()).unwrap();
    assert_eq!(parsed.chunk_type().bytes(), original.chunk_type().bytes());
    assert_eq!(parsed.data(), original.data());
    assert_eq!(parsed.crc(), original.crc());
    assert_eq!(parsed.length(), original.length());
}

#[test]
fn test_parse_empty_data_round_trip() {
    let original = sample_chunk("ruSt", &[]);
    let parsed = Chunk::parse(&original.as_bytes()).unwrap();
    assert_eq!(parsed.length(), 0);
    assert_eq!(parsed.data(), &[] as &[u8]);
    assert_eq!(parsed.crc(), original.crc());
}

#[test]
fn test_parse_too_short() {
    assert!(matches!(Chunk::parse(&[]), Err(PngError::TruncatedInput)));
    assert!(matches!(Chunk::parse(&[0; 5]), Err(PngError::TruncatedInput)));
    assert!(matches!(Chunk::parse(&[0; 11]), Err(PngError::TruncatedInput)));
}

#[test]
fn test_parse_declared_length_exceeds_buffer() {
    // 12 bytes, but the header declares 5 data bytes.
    let bytes = [0, 0, 0, 5, 82, 117, 83, 116, 0, 0, 0, 0];
    assert!(matches!(Chunk::parse(&bytes), Err(PngError::TruncatedInput)));
}

#[test]
fn test_parse_checksum_mismatch() {
    let mut bytes = sample_chunk("RuSt", &[1, 2, 3]).as_bytes();
    bytes[9] ^= 0x01; // corrupt one data byte
    assert!(matches!(Chunk::parse(&bytes), Err(PngError::ChecksumMismatch)));
}

#[test]
fn test_checksum_catches_every_single_bit_flip() {
    let chunk = sample_chunk("RuSt", b"abc");
    let bytes = chunk.as_bytes();
    // Flip each single bit of the serialized type+data region in turn.
    for i in 4..bytes.len() - 4 {
        for bit in 0..8 {
            let mut corrupted = bytes.clone();
            corrupted[i] ^= 1 << bit;
            assert!(matches!(Chunk::parse(&corrupted), Err(PngError::ChecksumMismatch)));
        }
    }
}

#[test]
fn test_parse_ignores_trailing_bytes() {
    let mut bytes = sample_chunk("RuSt", &[5, 6]).as_bytes();
    bytes.push(0xAB);
    bytes.push(0xCD);
    let parsed = Chunk::parse(&bytes).unwrap();
    assert_eq!(parsed.data(), &[5, 6]);
}

#[test]
fn test_data_as_string_utf8() {
    let chunk = sample_chunk("teXt", "hello chunk".as_bytes());
    assert_eq!(chunk.data_as_string(), Ok(String::from("hello chunk")));
}

#[test]
fn test_data_as_string_not_utf8() {
    // A lone 0xFF is never a valid UTF-8 lead byte.
    let chunk = sample_chunk("teXt", &[0xFF]);
    assert_eq!(chunk.data_as_string(), Err(PngError::NotUtf8));
}

#[test]
fn test_try_new_ok() {
    let chunk_type = ChunkType::from_str("RuSt").unwrap();
    let chunk = Chunk::try_new(chunk_type, vec![1, 2]).unwrap();
    assert_eq!(chunk.length(), 2);
}


#[test]
fn test_from_str_wrong_length() {
    assert_eq!(ChunkType::from_str("RuS"), Err(PngError::TagLengthMismatch));
    assert_eq!(ChunkType::from_str("RuSty"), Err(PngError::TagLengthMismatch));
    assert_eq!(ChunkType::from_str(""), Err(PngError::TagLengthMismatch));
}

#[test]
fn test_to_string_non_letter_bytes() {
    let chunk_type = ChunkType::try_from([82, 117, 49, 116]).unwrap();
    assert_eq!(&chunk_type.to_string(), "Ru1t");
    assert!(!chunk_type.is_valid());
}
