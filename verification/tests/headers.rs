use wave_file::cursor::ByteCursor;
use wave_file::error::WaveError;
use wave_file::header::{read_chunk_header, read_riff_header, ChunkHeader, ChunkKind};

fn header_of(tag: &str, size: u32, at: u64) -> ChunkHeader {
    ChunkHeader { ck_id: tag.to_string(), ck_size: size, data_pointer: at }
}

#[test]
fn header_holds_tag_size_and_payload_position() {
    let mut cursor = ByteCursor::new(vec![b'f', b'm', b't', b' ', 0x10, 0, 0, 0, 9, 9]);
    let header = read_chunk_header(&mut cursor).unwrap().unwrap();
    assert_eq!(header.ck_id, "fmt ");
    assert_eq!(header.ck_size, 16);
    assert_eq!(header.data_pointer, 8);
    assert_eq!(cursor.current_position(), 8);
}

#[test]
fn payload_position_is_right_behind_each_header() {
    let mut bytes = vec![0xaa; 5];
    bytes.extend_from_slice(b"LIST");
    bytes.extend_from_slice(&[0x78, 0x56, 0x34, 0x12]);
    bytes.extend_from_slice(b"data");
    bytes.extend_from_slice(&[0xff, 0xff, 0xff, 0xff]);
    let mut cursor = ByteCursor::new(bytes);
    cursor.seek_relative(5).unwrap();
    let first = read_chunk_header(&mut cursor).unwrap().unwrap();
    assert_eq!(first.ck_id, "LIST");
    assert_eq!(first.ck_size, 0x1234_5678);
    assert_eq!(first.data_pointer, 13);
    assert_eq!(cursor.current_position(), 13);
    let second = read_chunk_header(&mut cursor).unwrap().unwrap();
    assert_eq!(second.ck_id, "data");
    assert_eq!(second.ck_size, u32::MAX);
    assert_eq!(second.data_pointer, 21);
    assert_eq!(cursor.current_position(), 21);
}

#[test]
fn end_of_stream_is_no_header_and_no_error() {
    let mut cursor = ByteCursor::new(vec![]);
    assert!(matches!(read_chunk_header(&mut cursor), Ok(None)));
    assert_eq!(cursor.current_position(), 0);

    let mut cursor = ByteCursor::new(vec![1, 2, 3]);
    cursor.seek_relative(3).unwrap();
    assert!(matches!(read_chunk_header(&mut cursor), Ok(None)));
    cursor.seek_relative(40).unwrap();
    assert!(matches!(read_chunk_header(&mut cursor), Ok(None)));
    assert_eq!(cursor.current_position(), 43);
}

#[test]
fn header_cut_short_is_an_error() {
    for have in 1..8u64 {
        let mut bytes = b"data\x04\0\0\0".to_vec();
        bytes.truncate(have as usize);
        let mut cursor = ByteCursor::new(bytes);
        match read_chunk_header(&mut cursor) {
            Err(e) => assert_eq!(e, WaveError::Truncated { offset: 0, expected: 8, available: have }),
            Ok(_) => panic!("a header of {} bytes was accepted", have),
        }
        assert_eq!(cursor.current_position(), 0);
    }
}

#[test]
fn tag_that_is_no_text_is_an_error() {
    let mut cursor = ByteCursor::new(vec![0, 0, 0xff, 0xfe, b'x', b'y', 1, 0, 0, 0]);
    cursor.seek_relative(2).unwrap();
    match read_chunk_header(&mut cursor) {
        Err(e) => assert_eq!(e, WaveError::InvalidText { offset: 2, length: 4 }),
        Ok(_) => panic!("a tag that is no text was accepted"),
    }
    assert_eq!(cursor.current_position(), 10);
}

#[test]
fn header_round_trips_through_its_bytes() {
    let samples: [[u8; 8]; 4] = [
        [b'R', b'I', b'F', b'F', 0x24, 0x08, 0x00, 0x00],
        [b'f', b'm', b't', b' ', 0x10, 0x00, 0x00, 0x00],
        [b'd', b'a', b't', b'a', 0xff, 0xff, 0xff, 0xff],
        [0xc3, 0xa9, b'x', 0x00, 0x01, 0x02, 0x03, 0x04],
    ];
    for raw in samples {
        let mut cursor = ByteCursor::new(raw.to_vec());
        let header = read_chunk_header(&mut cursor).unwrap().unwrap();
        assert_eq!(header.to_bytes(), raw.to_vec());
    }
}

#[test]
fn header_bytes_are_tag_then_size() {
    assert_eq!(
        header_of("bext", 602, 20).to_bytes(),
        vec![b'b', b'e', b'x', b't', 0x5a, 0x02, 0x00, 0x00]
    );
}

#[test]
fn kinds_are_told_apart_in_any_case() {
    assert_eq!(header_of("fmt ", 0, 8).kind(), ChunkKind::Format);
    assert_eq!(header_of("FMT ", 0, 8).kind(), ChunkKind::Format);
    assert_eq!(header_of("Fmt ", 0, 8).kind(), ChunkKind::Format);
    assert_eq!(header_of("junk", 0, 8).kind(), ChunkKind::Junk);
    assert_eq!(header_of("JUNK", 0, 8).kind(), ChunkKind::Junk);
    assert_eq!(header_of("data", 0, 8).kind(), ChunkKind::Data);
    assert_eq!(header_of("DaTa", 0, 8).kind(), ChunkKind::Data);
    assert_eq!(header_of("bext", 0, 8).kind(), ChunkKind::BroadcastExtension);
    assert_eq!(header_of("BEXT", 0, 8).kind(), ChunkKind::BroadcastExtension);
    assert_eq!(header_of("fact", 0, 8).kind(), ChunkKind::Fact);
    assert_eq!(header_of("FACT", 0, 8).kind(), ChunkKind::Fact);
}

#[test]
fn other_tags_are_unrecognized() {
    assert_eq!(header_of("LIST", 0, 8).kind(), ChunkKind::Unrecognized);
    assert_eq!(header_of("fmt", 0, 8).kind(), ChunkKind::Unrecognized);
    assert_eq!(header_of("fmt  ", 0, 8).kind(), ChunkKind::Unrecognized);
    assert_eq!(header_of("fmt\0", 0, 8).kind(), ChunkKind::Unrecognized);
    assert_eq!(header_of("", 0, 8).kind(), ChunkKind::Unrecognized);
    assert_eq!(header_of("f\u{2f}ct", 0, 8).kind(), ChunkKind::Unrecognized);
    assert_eq!(header_of("d\u{e0}a", 0, 8).kind(), ChunkKind::Unrecognized);
    assert_eq!(header_of("dat\x41", 0, 8).kind(), ChunkKind::Data);
    assert_eq!(header_of("dat\x40", 0, 8).kind(), ChunkKind::Unrecognized);
    assert_eq!(header_of("dat\x5b", 0, 8).kind(), ChunkKind::Unrecognized);
}

#[test]
fn container_tags_are_riff_and_rf64_as_written() {
    assert!(header_of("RIFF", 0, 8).is_container());
    assert!(header_of("RF64", 0, 8).is_container());
    assert!(!header_of("riff", 0, 8).is_container());
    assert!(!header_of("RIFX", 0, 8).is_container());
    assert!(!header_of("RF6", 0, 8).is_container());
    assert!(!header_of("RIF4", 0, 8).is_container());
    assert!(!header_of("FORM", 0, 8).is_container());
}

#[test]
fn form_type_follows_the_outer_header() {
    let mut cursor = ByteCursor::new(b"RIFF\x04\0\0\0WAVEmore".to_vec());
    let outer = read_chunk_header(&mut cursor).unwrap().unwrap();
    let riff = read_riff_header(&mut cursor, outer).unwrap();
    assert_eq!(riff.riff_type, "WAVE");
    assert_eq!(riff.chunk_header.ck_id, "RIFF");
    assert_eq!(riff.chunk_header.ck_size, 4);
    assert_eq!(riff.chunk_header.data_pointer, 8);
    assert!(riff.is_wave());
    assert_eq!(cursor.current_position(), 12);
}

#[test]
fn other_form_types_are_not_wave() {
    for form in ["AVI ", "wave", "WAVF", "RMID"] {
        let mut cursor = ByteCursor::new(form.as_bytes().to_vec());
        let riff = read_riff_header(&mut cursor, header_of("RIFF", 4, 8)).unwrap();
        assert_eq!(riff.riff_type, form);
        assert!(!riff.is_wave());
    }
}

#[test]
fn form_type_cut_short_is_an_error() {
    let mut cursor = ByteCursor::new(b"RIFF\x04\0\0\0WA".to_vec());
    let outer = read_chunk_header(&mut cursor).unwrap().unwrap();
    match read_riff_header(&mut cursor, outer) {
        Err(e) => assert_eq!(e, WaveError::Truncated { offset: 8, expected: 4, available: 2 }),
        Ok(_) => panic!("a form type of two bytes was accepted"),
    }
    assert_eq!(cursor.current_position(), 8);
}

#[test]
fn form_type_that_is_no_text_is_an_error() {
    let mut cursor = ByteCursor::new(vec![b'W', 0xc3, b'V', b'E']);
    match read_riff_header(&mut cursor, header_of("RIFF", 4, 8)) {
        Err(e) => assert_eq!(e, WaveError::InvalidText { offset: 0, length: 4 }),
        Ok(_) => panic!("a form type that is no text was accepted"),
    }
    assert_eq!(cursor.current_position(), 4);
}
