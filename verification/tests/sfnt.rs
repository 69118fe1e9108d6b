use font_test_data::{AHEM, COUSINE_HINT_SUBSET, TINOS_SUBSET};
use gpui_text::sfnt::{
    collection_face_offset, compact_sfnt_for_face, face_table, identity_table_matches, pad_to_u32,
    read_u16, read_u32, sfnt_checksum, starts_collection, SfntError, CHECKSUM_MAGIC,
};

fn test_collection(faces: &[&[u8]]) -> Vec<u8> {
    let header_len = 12 + faces.len() * 4;
    let mut collection = vec![0; header_len];
    collection[..4].copy_from_slice(b"ttcf");
    collection[4..8].copy_from_slice(&0x0001_0000u32.to_be_bytes());
    collection[8..12].copy_from_slice(&(faces.len() as u32).to_be_bytes());

    for (face_idx, face) in faces.iter().enumerate() {
        while collection.len() % 4 != 0 {
            collection.push(0);
        }

        let face_offset = collection.len();
        let offset_position = 12 + face_idx * 4;
        collection[offset_position..offset_position + 4]
            .copy_from_slice(&(face_offset as u32).to_be_bytes());
        collection.extend_from_slice(face);

        let table_count = read_u16(face, 4).unwrap() as usize;
        for table_idx in 0..table_count {
            let table_offset_position = face_offset + 12 + table_idx * 16 + 8;
            let table_offset = read_u32(&collection, table_offset_position).unwrap();
            let collection_offset = table_offset + face_offset as u32;
            collection[table_offset_position..table_offset_position + 4]
                .copy_from_slice(&collection_offset.to_be_bytes());
        }
    }

    collection
}

#[test]
fn compacted_faces_keep_their_tables_and_balance_their_checksum() {
    let faces = [TINOS_SUBSET, AHEM, COUSINE_HINT_SUBSET];
    let collection = test_collection(&faces);
    assert!(starts_collection(&collection));
    for (index, face) in faces.iter().enumerate() {
        let font = compact_sfnt_for_face(&collection, index as u32).unwrap();
        assert!(font.len() < collection.len());
        assert_eq!(font.len() % 4, 0);
        assert_eq!(sfnt_checksum(&font), CHECKSUM_MAGIC);
        for tag in [b"name", b"maxp", b"glyf", b"cmap"] {
            assert_eq!(face_table(&font, 0, tag), face_table(face, 0, tag));
        }
        let head = face_table(&font, 0, b"head").unwrap().unwrap();
        let expected = face_table(face, 0, b"head").unwrap().unwrap();
        assert!(identity_table_matches(b"head", head, expected));
        assert!(skrifa::FontRef::new(&font).is_ok());
    }
}

#[test]
fn compacted_faces_keep_their_directory_and_lay_tables_out_in_order() {
    let faces = [TINOS_SUBSET, AHEM, COUSINE_HINT_SUBSET];
    let collection = test_collection(&faces);
    for index in 0..faces.len() as u32 {
        let face = collection_face_offset(&collection, index).unwrap();
        let font = compact_sfnt_for_face(&collection, index).unwrap();
        assert_eq!(font[..12], collection[face..face + 12]);
        let count = read_u16(&font, 4).unwrap() as usize;
        let mut end = 12 + count * 16;
        for record in (0..count).map(|record| 12 + record * 16) {
            assert_eq!(
                font[record..record + 8],
                collection[face + record..face + record + 8]
            );
            let read = |data: &[u8], at: usize| read_u32(data, at).unwrap() as usize;
            let (copy, len) = (read(&font, record + 8), read(&font, record + 12));
            let source = read(&collection, face + record + 8);
            assert_eq!(len, read(&collection, face + record + 12));
            assert_eq!(copy % 4, 0);
            assert!(end <= copy);
            end = copy + len;
            if font[record..record + 4] != *b"head" {
                assert_eq!(font[copy..end], collection[source..source + len]);
            }
        }
        assert!(end <= font.len());
    }
}

#[test]
fn numbers_are_read_in_network_order() {
    let data = [1, 2, 3, 4, 5];
    assert_eq!(read_u16(&data, 0), Some(0x0102));
    assert_eq!(read_u16(&data, 3), Some(0x0405));
    assert_eq!(read_u16(&data, 4), None);
    assert_eq!(read_u16(&data, usize::MAX), None);
    assert_eq!(read_u32(&data, 1), Some(0x0203_0405));
    assert_eq!(read_u32(&data, 2), None);
    assert_eq!(read_u32(&data, usize::MAX), None);
}

#[test]
fn checksums_wrap_and_leave_a_partial_word_out() {
    assert_eq!(sfnt_checksum(&[]), 0);
    assert_eq!(sfnt_checksum(&[0, 0, 0, 7, 1, 2, 3]), 7);
    assert_eq!(sfnt_checksum(&[255, 255, 255, 255, 0, 0, 0, 3]), 2);
}

#[test]
fn padding_reaches_the_next_word() {
    for (before, after) in [(0, 0), (1, 4), (3, 4), (4, 4), (5, 8)] {
        let mut data = vec![9; before];
        pad_to_u32(&mut data);
        assert_eq!(data.len(), after);
        assert!(data[before..].iter().all(|byte| *byte == 0));
    }
}

#[test]
fn a_head_table_is_compared_without_its_checksum_adjustment() {
    let left: Vec<u8> = (0..20).collect();
    let mut right = left.clone();
    right[8..12].copy_from_slice(&[99; 4]);
    assert!(identity_table_matches(b"head", &left, &right));
    assert!(!identity_table_matches(b"name", &left, &right));
    right[12] = 99;
    assert!(!identity_table_matches(b"head", &left, &right));
    assert!(!identity_table_matches(b"name", &left, &left[..19]));
}

#[test]
fn malformed_fonts_are_refused_with_their_fault() {
    assert_eq!(compact_sfnt_for_face(AHEM, 0), Err(SfntError::NotACollection));
    assert_eq!(
        collection_face_offset(b"ttcf\0\x01\0\0", 0),
        Err(SfntError::TruncatedCollectionHeader)
    );
    let collection = test_collection(&[AHEM]);
    assert_eq!(collection_face_offset(&collection, 0), Ok(16));
    assert_eq!(
        collection_face_offset(&collection, 1),
        Err(SfntError::FaceOutOfRange { face_count: 1, face_index: 1 })
    );
    assert_eq!(
        collection_face_offset(&collection[..14], 0),
        Err(SfntError::TruncatedFaceOffsets)
    );
    assert_eq!(
        compact_sfnt_for_face(&collection[..18], 0),
        Err(SfntError::TruncatedHeader)
    );
    assert_eq!(
        compact_sfnt_for_face(&collection[..40], 0),
        Err(SfntError::TruncatedDirectory)
    );
    assert_eq!(
        compact_sfnt_for_face(&collection[..collection.len() / 2], 0),
        Err(SfntError::TruncatedTable)
    );

    let one_table = |tag: &[u8; 4], offset: u32, length: u32, body: &[u8]| {
        let mut face = vec![0, 1, 0, 0, 0, 1, 0, 0, 0, 0, 0, 0];
        face.extend_from_slice(tag);
        face.extend_from_slice(&[0; 4]);
        face.extend_from_slice(&offset.to_be_bytes());
        face.extend_from_slice(&length.to_be_bytes());
        face.extend_from_slice(body);
        face
    };
    let headless = test_collection(&[&one_table(b"name", 28, 4, &[1; 4])]);
    assert_eq!(compact_sfnt_for_face(&headless, 0), Err(SfntError::MissingHead));
    let short_head = test_collection(&[&one_table(b"head", 28, 8, &[1; 8])]);
    assert_eq!(compact_sfnt_for_face(&short_head, 0), Err(SfntError::TruncatedHead));

    let face = one_table(b"name", 28, 4, &[1; 4]);
    assert_eq!(face_table(&face, 0, b"name"), Ok(Some(&[1u8; 4][..])));
    assert_eq!(face_table(&face, 0, b"head"), Ok(None));
    assert_eq!(face_table(&face[..5], 0, b"name"), Err(SfntError::TruncatedHeader));
    assert_eq!(face_table(&face[..14], 0, b"name"), Err(SfntError::TruncatedTableTag));
    assert_eq!(face_table(&face[..22], 0, b"name"), Err(SfntError::TruncatedTableOffset));
    assert_eq!(face_table(&face[..26], 0, b"name"), Err(SfntError::TruncatedTableLength));
    assert_eq!(face_table(&face[..30], 0, b"name"), Err(SfntError::TruncatedTable));
}
