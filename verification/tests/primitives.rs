use meshio::error::DecodeError;
use meshio::primitives::{
    put_f32, put_f64, put_i16, put_i32, put_i64, put_i8, put_u16, put_u32, put_u64, put_u8,
    to_signed16, to_signed32, to_signed64, to_signed8, to_unsigned16, to_unsigned32,
    to_unsigned64, to_unsigned8, ByteOrder, Cursor, Float32, Float64,
};

const BYTES: [u8; 10] = [0x01, 0x02, 0x03, 0x04, 0x05, 0x06, 0x07, 0x08, 0x09, 0x0A];

#[test]
fn u16_in_both_orders() {
    let mut c = Cursor::new(&BYTES);
    assert_eq!(c.read_u16(ByteOrder::Little), Ok(0x0201));
    assert_eq!(c.position(), 2);
    assert_eq!(c.read_u16(ByteOrder::Big), Ok(0x0304));
    assert_eq!(c.position(), 4);
}

#[test]
fn u32_in_both_orders() {
    let mut c = Cursor::new(&BYTES);
    assert_eq!(c.read_u32(ByteOrder::Little), Ok(0x0403_0201));
    assert_eq!(c.read_u32(ByteOrder::Big), Ok(0x0506_0708));
    assert_eq!(c.position(), 8);
}

#[test]
fn u64_in_both_orders() {
    let mut c = Cursor::new(&BYTES);
    assert_eq!(c.read_u64(ByteOrder::Little), Ok(0x0807_0605_0403_0201));
    c.seek(1);
    assert_eq!(c.read_u64(ByteOrder::Big), Ok(0x0203_0405_0607_0809));
    assert_eq!(c.position(), 9);
}

#[test]
fn signed_numbers_are_twos_complement() {
    let bytes = [0xFF, 0xFE, 0xFF, 0xFD, 0xFF, 0xFF, 0xFF, 0x80, 0, 0, 0, 0, 0, 0, 0x80];
    let mut c = Cursor::new(&bytes);
    assert_eq!(c.read_i8(), Ok(-1));
    assert_eq!(c.read_i16(ByteOrder::Little), Ok(-2));
    assert_eq!(c.read_i32(ByteOrder::Little), Ok(-3));
    assert_eq!(c.read_i64(ByteOrder::Big), Ok(i64::MIN + 0x80));
    assert_eq!(c.left(), 0);
}

#[test]
fn signed_casts_agree_with_the_language() {
    for v in [0u8, 1, 127, 128, 255] {
        assert_eq!(to_signed8(v), v as i8);
        assert_eq!(to_unsigned8(v as i8), v);
    }
    for v in [0u16, 1, 0x7FFF, 0x8000, 0xFFFF] {
        assert_eq!(to_signed16(v), v as i16);
        assert_eq!(to_unsigned16(v as i16), v);
    }
    for v in [0u32, 1, 0x7FFF_FFFF, 0x8000_0000, 0xFFFF_FFFF] {
        assert_eq!(to_signed32(v), v as i32);
        assert_eq!(to_unsigned32(v as i32), v);
    }
    for v in [0u64, 1, 0x7FFF_FFFF_FFFF_FFFF, 0x8000_0000_0000_0000, u64::MAX] {
        assert_eq!(to_signed64(v), v as i64);
        assert_eq!(to_unsigned64(v as i64), v);
    }
}

#[test]
fn short_reads_fail_and_leave_the_cursor() {
    let bytes = [1u8, 2, 3];
    let mut c = Cursor::new(&bytes);
    assert_eq!(c.read_u32(ByteOrder::Little), Err(DecodeError::UnexpectedEof));
    assert_eq!(c.position(), 0);
    assert_eq!(c.read_u64(ByteOrder::Big), Err(DecodeError::UnexpectedEof));
    assert_eq!(c.read_u16(ByteOrder::Big), Ok(0x0102));
    assert_eq!(c.read_u16(ByteOrder::Big), Err(DecodeError::UnexpectedEof));
    assert_eq!(c.position(), 2);
    assert_eq!(c.read_u8(), Ok(3));
    assert_eq!(c.read_u8(), Err(DecodeError::UnexpectedEof));
    assert_eq!(c.read_i8(), Err(DecodeError::UnexpectedEof));
}

#[test]
fn cursor_beyond_the_end_reads_nothing() {
    let bytes = [1u8, 2, 3];
    let mut c = Cursor::at(&bytes, 7);
    assert_eq!(c.left(), 0);
    assert!(!c.has(1));
    assert!(!c.has(0));
    assert_eq!(c.rest().len(), 0);
    assert_eq!(c.read_u8(), Err(DecodeError::UnexpectedEof));
    assert_eq!(c.skip(0), Err(DecodeError::UnexpectedEof));
    assert_eq!(c.position(), 7);
}

#[test]
fn skip_and_read_bytes() {
    let mut c = Cursor::new(&BYTES);
    assert_eq!(c.skip(3), Ok(()));
    assert_eq!(c.read_bytes(4), Ok(vec![4, 5, 6, 7]));
    assert_eq!(c.read_quad(), Err(DecodeError::UnexpectedEof));
    assert_eq!(c.position(), 7);
    c.seek(6);
    assert_eq!(c.read_quad(), Ok([7, 8, 9, 10]));
    assert_eq!(c.read_bytes(1), Err(DecodeError::UnexpectedEof));
    assert_eq!(c.read_bytes(0), Ok(vec![]));
    assert_eq!(c.rest(), &[] as &[u8]);
}

#[test]
fn tags_are_matched_at_the_cursor() {
    let bytes = b"xxABCDyy";
    let mut c = Cursor::at(bytes, 2);
    assert_eq!(c.expect_tag(b"ABCE"), Err(DecodeError::BadMagic));
    assert_eq!(c.position(), 2);
    assert_eq!(c.expect_tag(b"ABCD"), Ok(()));
    assert_eq!(c.position(), 6);
    assert_eq!(c.expect_tag(b"yyy"), Err(DecodeError::BadMagic));
    assert_eq!(c.expect_tag(b"yy"), Ok(()));
    assert_eq!(c.expect_tag(b""), Ok(()));
    let mut far = Cursor::at(bytes, 20);
    assert_eq!(far.expect_tag(b""), Err(DecodeError::BadMagic));
}

#[test]
fn writers_lay_bytes_out_in_order() {
    let mut out = vec![0xEE];
    put_u8(&mut out, 0x01);
    put_u16(&mut out, 0x0203, ByteOrder::Big);
    put_u16(&mut out, 0x0203, ByteOrder::Little);
    put_u32(&mut out, 0x0405_0607, ByteOrder::Big);
    put_u32(&mut out, 0x0405_0607, ByteOrder::Little);
    assert_eq!(out, vec![0xEE, 1, 2, 3, 3, 2, 4, 5, 6, 7, 7, 6, 5, 4]);
    let mut wide = Vec::new();
    put_u64(&mut wide, 0x0102_0304_0506_0708, ByteOrder::Big);
    put_u64(&mut wide, 0x0102_0304_0506_0708, ByteOrder::Little);
    assert_eq!(wide, vec![1, 2, 3, 4, 5, 6, 7, 8, 8, 7, 6, 5, 4, 3, 2, 1]);
    assert_eq!(wide[..8], 0x0102_0304_0506_0708u64.to_be_bytes());
}

#[test]
fn scalars_round_trip_in_both_orders() {
    for order in [ByteOrder::Little, ByteOrder::Big] {
        let mut out = vec![0xAA, 0xBB];
        put_i8(&mut out, -7);
        put_u16(&mut out, 0xBEEF, order);
        put_i16(&mut out, -12345, order);
        put_u32(&mut out, 0xDEAD_BEEF, order);
        put_i32(&mut out, i32::MIN, order);
        put_u64(&mut out, 0xFEDC_BA98_7654_3210, order);
        put_i64(&mut out, -1, order);
        put_f32(&mut out, Float32 { bits: (-1.5f32).to_bits() }, order);
        put_f64(&mut out, Float64 { bits: 6.25f64.to_bits() }, order);
        let mut c = Cursor::at(&out, 2);
        assert_eq!(c.read_i8(), Ok(-7));
        assert_eq!(c.read_u16(order), Ok(0xBEEF));
        assert_eq!(c.read_i16(order), Ok(-12345));
        assert_eq!(c.read_u32(order), Ok(0xDEAD_BEEF));
        assert_eq!(c.read_i32(order), Ok(i32::MIN));
        assert_eq!(c.read_u64(order), Ok(0xFEDC_BA98_7654_3210));
        assert_eq!(c.read_i64(order), Ok(-1));
        assert_eq!(f32::from_bits(c.read_f32(order).unwrap().bits), -1.5);
        assert_eq!(f64::from_bits(c.read_f64(order).unwrap().bits), 6.25);
        assert_eq!(c.left(), 0);
    }
}

#[test]
fn floats_are_their_bit_patterns() {
    let bytes = 1.0f32.to_le_bytes();
    let mut c = Cursor::new(&bytes);
    assert_eq!(c.read_f32(ByteOrder::Little), Ok(Float32 { bits: 0x3F80_0000 }));
    assert_eq!(meshio::primitives::ONE_F32, 1.0f32.to_bits());
    let wide = (-2.0f64).to_be_bytes();
    let mut d = Cursor::new(&wide);
    assert_eq!(d.read_f64(ByteOrder::Big), Ok(Float64 { bits: (-2.0f64).to_bits() }));
}
