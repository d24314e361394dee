use meshio::bounds::{
    be_bounds32, be_bounds32_r, be_bounds64, be_bounds64_r, le_bounds32, le_bounds32_r,
    le_bounds64, le_bounds64_r, put_bounds32, put_bounds32_r, put_bounds64, put_bounds64_r,
    read_bounds32, read_bounds32_r, read_bounds64, read_bounds64_r, Bounds,
};
use meshio::color::{
    be_argb_b, be_bgra_b, be_rgb_f, be_rgba_f, le_argb_b, le_argb_f, le_bgra_b, le_rgb_f,
    le_rgba_b, le_rgba_f, put_argb_b, put_argb_f, put_bgra_b, put_rgb_f, put_rgba_b, put_rgba_f,
    read_argb_b, read_argb_f, read_bgra_b, read_rgb_f, read_rgba_b, read_rgba_f, Color,
};
use meshio::error::DecodeError;
use meshio::primitives::{ByteOrder, Cursor, Float32, Float64};
use meshio::vector::{
    be_v3d, be_v3f, le_mat4x3, le_v2f, le_v3d, le_v3f, le_v4f, put_v2f, put_v3d, put_v3f, put_v4f,
    read_v2f, read_v3d, read_v3f, read_v4f, Vector2, Vector3, Vector4,
};

fn f(v: f32) -> Float32 {
    Float32 { bits: v.to_bits() }
}

fn d(v: f64) -> Float64 {
    Float64 { bits: v.to_bits() }
}

fn le_floats(values: &[f32]) -> Vec<u8> {
    values.iter().flat_map(|v| v.to_le_bytes()).collect()
}

fn be_floats(values: &[f32]) -> Vec<u8> {
    values.iter().flat_map(|v| v.to_be_bytes()).collect()
}

#[test]
fn vectors_are_read_in_component_order() {
    let bytes = le_floats(&[1.0, 2.0, 3.0, 4.0]);
    assert_eq!(le_v2f(&mut Cursor::new(&bytes)), Ok(Vector2 { x: f(1.0), y: f(2.0) }));
    assert_eq!(le_v3f(&mut Cursor::new(&bytes)), Ok(Vector3 { x: f(1.0), y: f(2.0), z: f(3.0) }));
    assert_eq!(
        le_v4f(&mut Cursor::new(&bytes)),
        Ok(Vector4 { x: f(1.0), y: f(2.0), z: f(3.0), w: f(4.0) })
    );
    let big = be_floats(&[-1.0, 0.5, 8.0]);
    assert_eq!(be_v3f(&mut Cursor::new(&big)), Ok(Vector3 { x: f(-1.0), y: f(0.5), z: f(8.0) }));
    assert_eq!(le_v3f(&mut Cursor::new(&bytes[..11])), Err(DecodeError::UnexpectedEof));
}

#[test]
fn double_vectors_are_read_in_both_orders() {
    let le: Vec<u8> = [1.5f64, -2.5, 3.5].iter().flat_map(|v| v.to_le_bytes()).collect();
    let be: Vec<u8> = [1.5f64, -2.5, 3.5].iter().flat_map(|v| v.to_be_bytes()).collect();
    let want = Vector3 { x: d(1.5), y: d(-2.5), z: d(3.5) };
    let mut c = Cursor::new(&le);
    assert_eq!(le_v3d(&mut c), Ok(want));
    assert_eq!(c.position(), 24);
    assert_eq!(be_v3d(&mut Cursor::new(&be)), Ok(want));
    assert_eq!(be_v3d(&mut Cursor::new(&be[1..])), Err(DecodeError::UnexpectedEof));
}

#[test]
fn matrix_columns_are_completed_with_one() {
    let values: Vec<f32> = (0..12).map(|k| k as f32).collect();
    let bytes = le_floats(&values);
    let mut c = Cursor::new(&bytes);
    let m = le_mat4x3(&mut c).unwrap();
    assert_eq!(c.position(), 48);
    assert_eq!(m.x, Vector4 { x: f(0.0), y: f(1.0), z: f(2.0), w: f(1.0) });
    assert_eq!(m.y, Vector4 { x: f(3.0), y: f(4.0), z: f(5.0), w: f(1.0) });
    assert_eq!(m.z, Vector4 { x: f(6.0), y: f(7.0), z: f(8.0), w: f(1.0) });
    assert_eq!(m.w, Vector4 { x: f(9.0), y: f(10.0), z: f(11.0), w: f(1.0) });
    assert_eq!(le_mat4x3(&mut Cursor::new(&bytes[..47])), Err(DecodeError::UnexpectedEof));
}

#[test]
fn byte_colors_in_every_channel_order() {
    let bytes = [10u8, 20, 30, 40];
    assert_eq!(
        le_rgba_b(&mut Cursor::new(&bytes)),
        Ok(Color { red: 10, green: 20, blue: 30, alpha: 40 })
    );
    assert_eq!(
        le_argb_b(&mut Cursor::new(&bytes)),
        Ok(Color { red: 20, green: 30, blue: 40, alpha: 10 })
    );
    assert_eq!(
        le_bgra_b(&mut Cursor::new(&bytes)),
        Ok(Color { red: 30, green: 20, blue: 10, alpha: 40 })
    );
    assert_eq!(be_argb_b(&mut Cursor::new(&bytes)), le_argb_b(&mut Cursor::new(&bytes)));
    assert_eq!(be_bgra_b(&mut Cursor::new(&bytes)), le_bgra_b(&mut Cursor::new(&bytes)));
    assert_eq!(le_rgba_b(&mut Cursor::new(&bytes[..3])), Err(DecodeError::UnexpectedEof));
}

#[test]
fn float_colors_in_every_channel_order() {
    let le = le_floats(&[0.1, 0.2, 0.3, 0.4]);
    let be = be_floats(&[0.1, 0.2, 0.3, 0.4]);
    let rgba = Color { red: f(0.1), green: f(0.2), blue: f(0.3), alpha: f(0.4) };
    assert_eq!(le_rgba_f(&mut Cursor::new(&le)), Ok(rgba));
    assert_eq!(be_rgba_f(&mut Cursor::new(&be)), Ok(rgba));
    assert_eq!(
        le_argb_f(&mut Cursor::new(&le)),
        Ok(Color { red: f(0.2), green: f(0.3), blue: f(0.4), alpha: f(0.1) })
    );
    let opaque = Color { red: f(0.1), green: f(0.2), blue: f(0.3), alpha: f(1.0) };
    let mut c = Cursor::new(&le);
    assert_eq!(le_rgb_f(&mut c), Ok(opaque));
    assert_eq!(c.position(), 12);
    assert_eq!(be_rgb_f(&mut Cursor::new(&be)), Ok(opaque));
}

#[test]
fn bounds_with_and_without_radius_are_two_shapes() {
    let bytes = le_floats(&[-1.0, -2.0, -3.0, 1.0, 2.0, 3.0, 9.0]);
    let min = Vector3 { x: f(-1.0), y: f(-2.0), z: f(-3.0) };
    let max = Vector3 { x: f(1.0), y: f(2.0), z: f(3.0) };
    let mut with = Cursor::new(&bytes);
    assert_eq!(le_bounds32_r(&mut with), Ok(Bounds { min, max, radius: Some(f(9.0)) }));
    assert_eq!(with.position(), 28);
    let mut without = Cursor::new(&bytes);
    assert_eq!(le_bounds32(&mut without), Ok(Bounds { min, max, radius: None }));
    assert_eq!(without.position(), 24);
    assert_eq!(le_bounds32_r(&mut Cursor::new(&bytes[..27])), Err(DecodeError::UnexpectedEof));
    let big = be_floats(&[-1.0, -2.0, -3.0, 1.0, 2.0, 3.0, 9.0]);
    assert_eq!(
        be_bounds32_r(&mut Cursor::new(&big)),
        Ok(Bounds { min, max, radius: Some(f(9.0)) })
    );
    assert_eq!(be_bounds32(&mut Cursor::new(&big)), Ok(Bounds { min, max, radius: None }));
}

#[test]
fn double_bounds_in_both_orders() {
    let values = [0.5f64, 1.5, 2.5, 3.5, 4.5, 5.5, 6.5];
    let le: Vec<u8> = values.iter().flat_map(|v| v.to_le_bytes()).collect();
    let be: Vec<u8> = values.iter().flat_map(|v| v.to_be_bytes()).collect();
    let min = Vector3 { x: d(0.5), y: d(1.5), z: d(2.5) };
    let max = Vector3 { x: d(3.5), y: d(4.5), z: d(5.5) };
    assert_eq!(le_bounds64_r(&mut Cursor::new(&le)), Ok(Bounds { min, max, radius: Some(d(6.5)) }));
    assert_eq!(be_bounds64_r(&mut Cursor::new(&be)), Ok(Bounds { min, max, radius: Some(d(6.5)) }));
    assert_eq!(le_bounds64(&mut Cursor::new(&le)), Ok(Bounds { min, max, radius: None }));
    assert_eq!(be_bounds64(&mut Cursor::new(&be)), Ok(Bounds { min, max, radius: None }));
    assert_eq!(be_bounds64(&mut Cursor::new(&be[..47])), Err(DecodeError::UnexpectedEof));
}

#[test]
fn vectors_round_trip_in_both_orders() {
    for order in [ByteOrder::Little, ByteOrder::Big] {
        let v2 = Vector2 { x: f(1.25), y: f(-2.5) };
        let v3 = Vector3 { x: f(1.0), y: f(f32::MAX), z: f(-0.0) };
        let v4 = Vector4 { x: f(4.0), y: f(3.0), z: f(2.0), w: f(1.0) };
        let v3d = Vector3 { x: d(1e300), y: d(-1e-300), z: d(0.0) };
        let mut out = vec![0x55];
        put_v2f(&mut out, &v2, order);
        put_v3f(&mut out, &v3, order);
        put_v4f(&mut out, &v4, order);
        put_v3d(&mut out, &v3d, order);
        assert_eq!(out.len(), 1 + 8 + 12 + 16 + 24);
        let mut c = Cursor::at(&out, 1);
        assert_eq!(read_v2f(&mut c, order), Ok(v2));
        assert_eq!(read_v3f(&mut c, order), Ok(v3));
        assert_eq!(read_v4f(&mut c, order), Ok(v4));
        assert_eq!(read_v3d(&mut c, order), Ok(v3d));
        assert_eq!(c.left(), 0);
    }
}

#[test]
fn colors_round_trip_in_both_orders() {
    let b = Color { red: 1u8, green: 2, blue: 3, alpha: 4 };
    let mut out = Vec::new();
    put_rgba_b(&mut out, &b);
    put_argb_b(&mut out, &b);
    put_bgra_b(&mut out, &b);
    assert_eq!(out, vec![1, 2, 3, 4, 4, 1, 2, 3, 3, 2, 1, 4]);
    let mut c = Cursor::new(&out);
    assert_eq!(read_rgba_b(&mut c), Ok(b));
    assert_eq!(read_argb_b(&mut c), Ok(b));
    assert_eq!(read_bgra_b(&mut c), Ok(b));
    for order in [ByteOrder::Little, ByteOrder::Big] {
        let color = Color { red: f(0.25), green: f(0.5), blue: f(0.75), alpha: f(1.0) };
        let faint = Color { red: f(0.25), green: f(0.5), blue: f(0.75), alpha: f(0.125) };
        let mut out = Vec::new();
        put_rgba_f(&mut out, &faint, order);
        put_argb_f(&mut out, &faint, order);
        put_rgb_f(&mut out, &color, order);
        let mut c = Cursor::new(&out);
        assert_eq!(read_rgba_f(&mut c, order), Ok(faint));
        assert_eq!(read_argb_f(&mut c, order), Ok(faint));
        assert_eq!(read_rgb_f(&mut c, order), Ok(color));
        assert_eq!(c.left(), 0);
    }
}

#[test]
fn bounds_round_trip_in_both_orders() {
    for order in [ByteOrder::Little, ByteOrder::Big] {
        let min = Vector3 { x: f(-1.0), y: f(-2.0), z: f(-3.0) };
        let max = Vector3 { x: f(1.0), y: f(2.0), z: f(3.0) };
        let mind = Vector3 { x: d(-1.0), y: d(-2.0), z: d(-3.0) };
        let maxd = Vector3 { x: d(1.0), y: d(2.0), z: d(3.0) };
        let with = Bounds { min, max, radius: Some(f(4.0)) };
        let without = Bounds { min, max, radius: None };
        let withd = Bounds { min: mind, max: maxd, radius: Some(d(4.0)) };
        let withoutd = Bounds { min: mind, max: maxd, radius: None };
        let mut out = Vec::new();
        put_bounds32_r(&mut out, &with, order);
        put_bounds32(&mut out, &without, order);
        put_bounds64_r(&mut out, &withd, order);
        put_bounds64(&mut out, &withoutd, order);
        assert_eq!(out.len(), 28 + 24 + 56 + 48);
        let mut c = Cursor::new(&out);
        assert_eq!(read_bounds32_r(&mut c, order), Ok(with));
        assert_eq!(read_bounds32(&mut c, order), Ok(without));
        assert_eq!(read_bounds64_r(&mut c, order), Ok(withd));
        assert_eq!(read_bounds64(&mut c, order), Ok(withoutd));
        assert_eq!(c.left(), 0);
    }
}
