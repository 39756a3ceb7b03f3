use wave_file::{
    get_file_chunks, read_bext_chunk, read_chunk_header, read_data_chunk, read_fact_chunk,
    read_fmt_chunk, read_junk_chunk, read_riff_header, skip_chunk, ByteCursor, ChunkKind,
    WaveError,
};

/// A container with one chunk of each kind and one that is not known.
fn sample_file() -> Vec<u8> {
    let mut body: Vec<u8> = Vec::new();
    body.extend_from_slice(b"JUNK\x03\0\0\0abc");
    body.extend_from_slice(b"bext");
    body.extend_from_slice(&604u32.to_le_bytes());
    let mut bext = vec![0u8; 602];
    bext[256..262].copy_from_slice(b"STUDIO");
    body.extend_from_slice(&bext);
    body.extend_from_slice(b"hi");
    body.extend_from_slice(b"fmt \x10\0\0\0");
    body.extend_from_slice(&[1, 0, 2, 0, 0x44, 0xac, 0, 0, 0x10, 0xb1, 2, 0, 4, 0, 16, 0]);
    body.extend_from_slice(b"cue \x05\0\0\0?????");
    body.extend_from_slice(b"fact\x04\0\0\0\x0a\0\0\0");
    body.extend_from_slice(b"data\0\0\0\0");
    let mut file = b"RIFF".to_vec();
    file.extend_from_slice(&(4 + body.len() as u32).to_le_bytes());
    file.extend_from_slice(b"WAVE");
    file.extend_from_slice(&body);
    file
}

#[test]
fn walking_by_hand_meets_every_chunk_at_its_place() {
    let mut cursor = ByteCursor::new(sample_file());
    let outer = read_chunk_header(&mut cursor).unwrap().unwrap();
    assert!(outer.is_container());
    let riff = read_riff_header(&mut cursor, outer).unwrap();
    assert!(riff.is_wave());

    let h = read_chunk_header(&mut cursor).unwrap().unwrap();
    assert_eq!((h.kind(), h.data_pointer, cursor.current_position()), (ChunkKind::Junk, 20, 20));
    let junk = read_junk_chunk(&mut cursor, h).unwrap();
    assert_eq!(junk.junk, Some(b"abc".to_vec()));
    assert_eq!(cursor.current_position(), 23);

    let h = read_chunk_header(&mut cursor).unwrap().unwrap();
    assert_eq!((h.kind(), h.data_pointer), (ChunkKind::BroadcastExtension, 31));
    let (bext, warning) = read_bext_chunk(&mut cursor, h).unwrap();
    assert_eq!(bext.originator, "STUDIO");
    assert_eq!(bext.coding_history, Some("hi".to_string()));
    assert_eq!(warning, None);
    assert_eq!(cursor.current_position(), 635);

    let h = read_chunk_header(&mut cursor).unwrap().unwrap();
    assert_eq!((h.kind(), h.data_pointer), (ChunkKind::Format, 643));
    let fmt = read_fmt_chunk(&mut cursor, h).unwrap();
    assert_eq!(fmt.sample_rate, 44100);
    assert_eq!(fmt.bytes_per_second, 176400);
    assert_eq!(fmt.bits_per_sample, Some(16));
    assert_eq!(cursor.current_position(), 659);

    let h = read_chunk_header(&mut cursor).unwrap().unwrap();
    assert_eq!((h.kind(), h.data_pointer), (ChunkKind::Unrecognized, 667));
    assert_eq!(skip_chunk(&mut cursor, h), Ok(672));

    let h = read_chunk_header(&mut cursor).unwrap().unwrap();
    assert_eq!((h.kind(), h.data_pointer), (ChunkKind::Fact, 680));
    assert_eq!(read_fact_chunk(&mut cursor, h).unwrap().sample_length, 10);

    let h = read_chunk_header(&mut cursor).unwrap().unwrap();
    assert_eq!((h.kind(), h.data_pointer), (ChunkKind::Data, 692));
    let data = read_data_chunk(&mut cursor, h).unwrap();
    assert_eq!(data.chunk_header.ck_size, 0);
    assert_eq!(cursor.current_position(), 692);

    assert!(matches!(read_chunk_header(&mut cursor), Ok(None)));
}

#[test]
fn decoding_agrees_with_walking_by_hand() {
    let mut cursor = ByteCursor::new(sample_file());
    let set = get_file_chunks(&mut cursor).unwrap();
    assert_eq!(cursor.current_position(), 692);
    assert_eq!(set.riff_header.chunk_header.ck_size, 684);
    assert_eq!(set.junk_chunk.unwrap().chunk_header.data_pointer, 20);
    let bext = set.broadcast_audio_extension_chunk.unwrap();
    assert_eq!(bext.chunk_header.data_pointer, 31);
    assert_eq!(bext.coding_history, Some("hi".to_string()));
    assert_eq!(set.format_chunk.unwrap().chunk_header.data_pointer, 643);
    assert_eq!(set.fact_chunk.unwrap().chunk_header.data_pointer, 680);
    assert_eq!(set.data_chunk.unwrap().chunk_header.data_pointer, 692);
    assert!(set.warnings.is_empty());
}

#[test]
fn every_prefix_of_a_file_decodes_or_fails_without_panicking() {
    let file = sample_file();
    for cut in 0..file.len() {
        let mut cursor = ByteCursor::new(file[..cut].to_vec());
        match get_file_chunks(&mut cursor) {
            Ok(_) => assert!(cursor.current_position() >= cut as u64),
            Err(WaveError::Truncated { offset, expected, available }) => {
                assert_eq!(offset, cursor.current_position());
                assert!(available < expected);
                if available > 0 {
                    assert_eq!(offset + available, cut as u64);
                } else {
                    assert!(offset >= cut as u64);
                }
            }
            Err(e) => panic!("cut at {}: {:?}", cut, e),
        }
    }
}
