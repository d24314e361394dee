use meshio::error::DecodeError;
use meshio::index::{determine_index_size, read_index, read_indices};
use meshio::primitives::Cursor;
use meshio::text::{
    collect_utf16_units, decode_text, is_well_formed_utf16, pool_string, pool_text, read_string,
    string260, string80, trim_field, zstr, Encoding,
};

#[test]
fn index_of_one_byte_is_signed_or_unsigned() {
    let bytes = [0xFFu8];
    let mut c = Cursor::new(&bytes);
    assert_eq!(read_index(&mut c, 1, true), Ok(-1));
    assert_eq!(c.position(), 1);
    let mut d = Cursor::new(&bytes);
    assert_eq!(read_index(&mut d, 1, false), Ok(255));
}

#[test]
fn index_widths_two_and_four() {
    let bytes = [0xFE, 0xFF, 0xFD, 0xFF, 0xFF, 0xFF];
    let mut c = Cursor::new(&bytes);
    assert_eq!(read_index(&mut c, 2, true), Ok(-2));
    assert_eq!(read_index(&mut c, 4, true), Ok(-3));
    let mut d = Cursor::new(&bytes);
    assert_eq!(read_index(&mut d, 2, false), Ok(0xFFFE));
    assert_eq!(read_index(&mut d, 4, false), Ok(-3));
    assert_eq!(read_index(&mut d, 1, false), Err(DecodeError::UnexpectedEof));
}

#[test]
fn other_widths_are_invalid() {
    let bytes = [0u8; 16];
    for width in [0u8, 3, 5, 8, 255] {
        let mut c = Cursor::new(&bytes);
        assert_eq!(read_index(&mut c, width, true), Err(DecodeError::InvalidWidth));
        assert_eq!(c.position(), 0);
    }
    let mut empty = Cursor::new(&[]);
    assert_eq!(read_index(&mut empty, 3, true), Err(DecodeError::InvalidWidth));
    assert_eq!(read_index(&mut empty, 2, true), Err(DecodeError::UnexpectedEof));
}

#[test]
fn index_size_follows_the_element_count() {
    assert_eq!(determine_index_size(0), 1);
    assert_eq!(determine_index_size(254), 1);
    assert_eq!(determine_index_size(255), 2);
    assert_eq!(determine_index_size(65533), 2);
    assert_eq!(determine_index_size(65534), 4);
    assert_eq!(determine_index_size(u32::MAX), 4);
}

#[test]
fn runs_of_indices() {
    let bytes = [1u8, 0, 0xFF, 0xFF, 3, 0, 9];
    let mut c = Cursor::new(&bytes);
    assert_eq!(read_indices(&mut c, 3, 2, true), Ok(vec![1, -1, 3]));
    assert_eq!(c.position(), 6);
    assert_eq!(read_indices(&mut c, 0, 7, true), Ok(vec![]));
    assert_eq!(read_indices(&mut c, 1, 7, true), Err(DecodeError::InvalidWidth));
    assert_eq!(read_indices(&mut c, 2, 1, false), Err(DecodeError::UnexpectedEof));
    assert_eq!(c.position(), 6);
    assert_eq!(read_indices(&mut c, 1, 1, false), Ok(vec![9]));
}

#[test]
fn utf8_text_is_decoded() {
    let text = decode_text("héllo".as_bytes(), Encoding::Utf8, 17);
    assert_eq!(text.value, "héllo");
    assert!(!text.substituted);
    assert_eq!(text.offset, 17);
}

#[test]
fn malformed_utf8_is_replaced() {
    let text = decode_text(&[b'a', 0xFF, b'b'], Encoding::Utf8, 0);
    assert_eq!(text.value, "a\u{FFFD}b");
    assert!(text.substituted);
}

#[test]
fn utf16_text_is_decoded() {
    let bytes: Vec<u8> = "日本語 ok".encode_utf16().flat_map(|u| u.to_le_bytes()).collect();
    let text = decode_text(&bytes, Encoding::Utf16Le, 0);
    assert_eq!(text.value, "日本語 ok");
    assert!(!text.substituted);
    let pair: Vec<u8> = "𝄞".encode_utf16().flat_map(|u| u.to_le_bytes()).collect();
    assert_eq!(pair.len(), 4);
    let clef = decode_text(&pair, Encoding::Utf16Le, 0);
    assert_eq!(clef.value, "𝄞");
    assert!(!clef.substituted);
}

#[test]
fn unpaired_surrogates_are_replaced() {
    // a lone high surrogate, the letter A, a lone low surrogate
    let bytes = [0x00, 0xD8, 0x41, 0x00, 0x00, 0xDC];
    let text = decode_text(&bytes, Encoding::Utf16Le, 0);
    assert_eq!(text.value, "\u{FFFD}A\u{FFFD}");
    assert!(text.substituted);
}

#[test]
fn odd_utf16_length_is_replaced() {
    let text = decode_text(&[0x41, 0x00, 0x42], Encoding::Utf16Le, 0);
    assert_eq!(text.value, "A\u{FFFD}");
    assert!(text.substituted);
}

#[test]
fn utf16_units_and_their_check() {
    assert_eq!(collect_utf16_units(&[0x34, 0x12, 0x78, 0x56]), vec![0x1234, 0x5678]);
    assert_eq!(collect_utf16_units(&[0x34, 0x12, 0x78]), vec![0x1234, 0xFFFD]);
    assert_eq!(collect_utf16_units(&[]), Vec::<u16>::new());
    assert!(is_well_formed_utf16(&[]));
    assert!(is_well_formed_utf16(&[0x41, 0xD834, 0xDD1E, 0x42]));
    assert!(!is_well_formed_utf16(&[0xD834]));
    assert!(!is_well_formed_utf16(&[0xD834, 0x41]));
    assert!(!is_well_formed_utf16(&[0xDD1E, 0xD834]));
    assert!(!is_well_formed_utf16(&[0x41, 0xDC00]));
}

#[test]
fn length_prefixed_strings() {
    let mut bytes = vec![0xAA];
    bytes.extend_from_slice(&5u32.to_le_bytes());
    bytes.extend_from_slice(b"hello!");
    let mut c = Cursor::at(&bytes, 1);
    let text = read_string(&mut c, Encoding::Utf8).unwrap();
    assert_eq!(text.value, "hello");
    assert_eq!(text.offset, 1);
    assert_eq!(c.position(), 10);
    assert_eq!(read_string(&mut c, Encoding::Utf8), Err(DecodeError::UnexpectedEof));
    assert_eq!(c.position(), 10);
    let mut short = Cursor::new(&bytes[1..9]);
    assert_eq!(read_string(&mut short, Encoding::Utf8), Err(DecodeError::UnexpectedEof));
    assert_eq!(short.position(), 0);
}

#[test]
fn invalid_surrogates_do_not_fail_the_string() {
    let mut bytes = Vec::new();
    bytes.extend_from_slice(&4u32.to_le_bytes());
    bytes.extend_from_slice(&[0x00, 0xDC, 0x42, 0x00]);
    bytes.extend_from_slice(&2u32.to_le_bytes());
    bytes.extend_from_slice(&[0x43, 0x00]);
    let mut c = Cursor::new(&bytes);
    let first = read_string(&mut c, Encoding::Utf16Le).unwrap();
    assert_eq!(first.value, "\u{FFFD}B");
    assert!(first.substituted);
    let second = read_string(&mut c, Encoding::Utf16Le).unwrap();
    assert_eq!(second.value, "C");
    assert!(!second.substituted);
    assert_eq!(second.offset, 8);
    assert_eq!(c.left(), 0);
}

#[test]
fn nul_terminated_strings() {
    let bytes = b"ab\0cd\0ef";
    let mut c = Cursor::new(bytes);
    assert_eq!(zstr(&mut c), Ok(&b"ab"[..]));
    assert_eq!(c.position(), 2);
    assert_eq!(zstr(&mut c), Ok(&b""[..]));
    c.seek(3);
    assert_eq!(zstr(&mut c), Ok(&b"cd"[..]));
    c.seek(6);
    assert_eq!(zstr(&mut c), Err(DecodeError::UnexpectedEof));
    assert_eq!(c.position(), 6);
}

#[test]
fn pool_strings_leave_the_cursor() {
    let bytes = b"....name\0other\0tail";
    let mut c = Cursor::at(bytes, 2);
    let name = pool_string(&mut c, 4, 0).unwrap();
    assert_eq!(name.value, "name");
    assert_eq!(name.offset, 4);
    assert_eq!(c.position(), 2);
    assert_eq!(pool_string(&mut c, 4, 5).unwrap().value, "other");
    assert_eq!(pool_string(&mut c, 4, 8).unwrap().value, "er");
    assert_eq!(pool_string(&mut c, 4, 11), Err(DecodeError::UnexpectedEof));
    assert_eq!(
        pool_string(&mut c, 4, 15),
        Err(DecodeError::ReferenceOutOfBounds { offset: 19, length: 19 })
    );
    assert_eq!(
        pool_string(&mut c, u32::MAX, u32::MAX),
        Err(DecodeError::ReferenceOutOfBounds { offset: 2 * (u32::MAX as u64), length: 19 })
    );
    assert_eq!(c.position(), 2);
}

#[test]
fn name_fields_are_cut_and_unpadded() {
    assert_eq!(string80(b"Stand\0\0\0"), "Stand");
    assert_eq!(string80(b""), "");
    assert_eq!(string80(b"\0\0"), "");
    assert_eq!(string80(b"a\0b\0"), "a\0b");
    let long = vec![b'x'; 100];
    assert_eq!(string80(&long), "x".repeat(80));
    assert_eq!(string260(&long), "x".repeat(100));
    let mut path = vec![b'p'; 259];
    path.push(0);
    path.extend_from_slice(b"junk");
    assert_eq!(string260(&path), "p".repeat(259));
    assert_eq!(string80(&[b'a', 0xC3]), "a\u{FFFD}");
}

#[test]
fn trimming_keeps_the_prefix() {
    assert_eq!(trim_field(b"abc\0\0", 4), b"abc");
    assert_eq!(trim_field(b"abc\0\0", 2), b"ab");
    assert_eq!(trim_field(b"abc\0\0", 0), b"");
    assert_eq!(trim_field(b"\0abc", 9), b"\0abc");
}

#[test]
fn counted_pool_strings_leave_the_cursor() {
    let mut bytes = vec![0xAA, 0xBB];
    bytes.extend_from_slice(&3u32.to_le_bytes());
    bytes.extend_from_slice(b"abc");
    bytes.extend_from_slice(&2u32.to_le_bytes());
    bytes.extend_from_slice(&[0x42, 0x30]);
    let mut c = Cursor::at(&bytes, 1);
    assert_eq!(pool_text(&mut c, 2, 0, Encoding::Utf8).unwrap().value, "abc");
    let second = pool_text(&mut c, 2, 7, Encoding::Utf16Le).unwrap();
    assert_eq!(second.value, "あ");
    assert_eq!(second.offset, 9);
    assert_eq!(c.position(), 1);
    assert_eq!(pool_text(&mut c, 2, 8, Encoding::Utf8), Err(DecodeError::UnexpectedEof));
    assert_eq!(pool_text(&mut c, 15, 0, Encoding::Utf8), Err(DecodeError::UnexpectedEof));
    assert_eq!(
        pool_text(&mut c, 15, 1, Encoding::Utf8),
        Err(DecodeError::ReferenceOutOfBounds { offset: 16, length: 15 })
    );
    assert_eq!(c.position(), 1);
}
