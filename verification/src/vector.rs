//! Fixed-size vectors and matrices of floating-point numbers.
//!
//! The components of a vector follow each other on the wire in the order
//! x, y, z, w; that order is part of the format.

use vstd::prelude::*;
use crate::error::DecodeError;
use crate::primitives::{
    f32_at, f32_bytes, f64_at, f64_bytes, fixed_read, lemma_f32_round_trip, lemma_f64_round_trip,
    lemma_split2, lemma_split3, lemma_split4, put_f32, put_f64, ByteOrder, Cursor, Float32, Float64,
    ONE_F32,
};

verus! {

/// A vector of two components.
#[derive(Clone, Copy, Debug, PartialEq, Eq)]
pub struct Vector2<T> {
    pub x: T,
    pub y: T,
}

/// A vector of three components.
#[derive(Clone, Copy, Debug, PartialEq, Eq)]
pub struct Vector3<T> {
    pub x: T,
    pub y: T,
    pub z: T,
}

/// A vector of four components.
#[derive(Clone, Copy, Debug, PartialEq, Eq)]
pub struct Vector4<T> {
    pub x: T,
    pub y: T,
    pub z: T,
    pub w: T,
}

/// A matrix of four columns.
#[derive(Clone, Copy, Debug, PartialEq, Eq)]
pub struct Matrix4<T> {
    pub x: Vector4<T>,
    pub y: Vector4<T>,
    pub z: Vector4<T>,
    pub w: Vector4<T>,
}

/// A vector of two single-precision numbers found in `s` at `at`.
pub open spec fn v2f_at(s: Seq<u8>, at: int, order: ByteOrder) -> Vector2<Float32> {
    Vector2 { x: f32_at(s, at, order), y: f32_at(s, at + 4, order) }
}

/// Reads a vector of two single-precision numbers.
pub fn read_v2f(cur: &mut Cursor, order: ByteOrder) -> (r: Result<Vector2<Float32>, DecodeError>)
    ensures
        fixed_read(*old(cur), *final(cur), r, 8, v2f_at(old(cur).buf@, old(cur).pos as int, order)),
{
    if !cur.has(8) {
        return Err(DecodeError::UnexpectedEof);
    }
    let x = cur.read_f32(order)?;
    let y = cur.read_f32(order)?;
    Ok(Vector2 { x, y })
}

/// The bytes that encode a vector of two single-precision numbers.
pub open spec fn v2f_bytes(v: Vector2<Float32>, order: ByteOrder) -> Seq<u8> {
    f32_bytes(v.x, order) + f32_bytes(v.y, order)
}

/// Appends the encoding of a vector of two single-precision numbers.
pub fn put_v2f(out: &mut Vec<u8>, v: &Vector2<Float32>, order: ByteOrder)
    ensures
        final(out)@ == old(out)@ + v2f_bytes(*v, order),
{
    put_f32(out, v.x, order);
    put_f32(out, v.y, order);
    assert(out@ =~= old(out)@ + v2f_bytes(*v, order));
}

/// A vector of two single-precision numbers, encoded anywhere in a buffer, decodes to itself.
pub proof fn lemma_v2f_round_trip(
    v: Vector2<Float32>,
    order: ByteOrder,
    pre: Seq<u8>,
    post: Seq<u8>,
)
    ensures
        v2f_bytes(v, order).len() == 8,
        v2f_at(pre + v2f_bytes(v, order) + post, pre.len() as int, order) == v,
{
    let b0 = f32_bytes(v.x, order);
    let b1 = f32_bytes(v.y, order);
    lemma_split2(pre, b0, b1, post);
    lemma_f32_round_trip(v.x, order, pre, b1 + post);
    lemma_f32_round_trip(v.y, order, pre + b0, post);
}

/// A vector of three single-precision numbers found in `s` at `at`.
pub open spec fn v3f_at(s: Seq<u8>, at: int, order: ByteOrder) -> Vector3<Float32> {
    Vector3 { x: f32_at(s, at, order), y: f32_at(s, at + 4, order), z: f32_at(s, at + 8, order) }
}

/// Reads a vector of three single-precision numbers.
pub fn read_v3f(cur: &mut Cursor, order: ByteOrder) -> (r: Result<Vector3<Float32>, DecodeError>)
    ensures
        fixed_read(
            *old(cur),
            *final(cur),
            r,
            12,
            v3f_at(old(cur).buf@, old(cur).pos as int, order),
        ),
{
    if !cur.has(12) {
        return Err(DecodeError::UnexpectedEof);
    }
    let x = cur.read_f32(order)?;
    let y = cur.read_f32(order)?;
    let z = cur.read_f32(order)?;
    Ok(Vector3 { x, y, z })
}

/// The bytes that encode a vector of three single-precision numbers.
pub open spec fn v3f_bytes(v: Vector3<Float32>, order: ByteOrder) -> Seq<u8> {
    f32_bytes(v.x, order) + f32_bytes(v.y, order) + f32_bytes(v.z, order)
}

/// Appends the encoding of a vector of three single-precision numbers.
pub fn put_v3f(out: &mut Vec<u8>, v: &Vector3<Float32>, order: ByteOrder)
    ensures
        final(out)@ == old(out)@ + v3f_bytes(*v, order),
{
    put_f32(out, v.x, order);
    put_f32(out, v.y, order);
    put_f32(out, v.z, order);
    assert(out@ =~= old(out)@ + v3f_bytes(*v, order));
}

/// A vector of three single-precision numbers, encoded anywhere in a buffer, decodes to itself.
pub proof fn lemma_v3f_round_trip(
    v: Vector3<Float32>,
    order: ByteOrder,
    pre: Seq<u8>,
    post: Seq<u8>,
)
    ensures
        v3f_bytes(v, order).len() == 12,
        v3f_at(pre + v3f_bytes(v, order) + post, pre.len() as int, order) == v,
{
    let b0 = f32_bytes(v.x, order);
    let b1 = f32_bytes(v.y, order);
    let b2 = f32_bytes(v.z, order);
    lemma_split3(pre, b0, b1, b2, post);
    lemma_f32_round_trip(v.x, order, pre, b1 + b2 + post);
    lemma_f32_round_trip(v.y, order, pre + b0, b2 + post);
    lemma_f32_round_trip(v.z, order, pre + b0 + b1, post);
}

/// A vector of four single-precision numbers found in `s` at `at`.
pub open spec fn v4f_at(s: Seq<u8>, at: int, order: ByteOrder) -> Vector4<Float32> {
    Vector4 {
        x: f32_at(s, at, order),
        y: f32_at(s, at + 4, order),
        z: f32_at(s, at + 8, order),
        w: f32_at(s, at + 12, order),
    }
}

/// Reads a vector of four single-precision numbers.
pub fn read_v4f(cur: &mut Cursor, order: ByteOrder) -> (r: Result<Vector4<Float32>, DecodeError>)
    ensures
        fixed_read(
            *old(cur),
            *final(cur),
            r,
            16,
            v4f_at(old(cur).buf@, old(cur).pos as int, order),
        ),
{
    if !cur.has(16) {
        return Err(DecodeError::UnexpectedEof);
    }
    let x = cur.read_f32(order)?;
    let y = cur.read_f32(order)?;
    let z = cur.read_f32(order)?;
    let w = cur.read_f32(order)?;
    Ok(Vector4 { x, y, z, w })
}

/// The bytes that encode a vector of four single-precision numbers.
pub open spec fn v4f_bytes(v: Vector4<Float32>, order: ByteOrder) -> Seq<u8> {
    f32_bytes(v.x, order) + f32_bytes(v.y, order) + f32_bytes(v.z, order) + f32_bytes(v.w, order)
}

/// Appends the encoding of a vector of four single-precision numbers.
pub fn put_v4f(out: &mut Vec<u8>, v: &Vector4<Float32>, order: ByteOrder)
    ensures
        final(out)@ == old(out)@ + v4f_bytes(*v, order),
{
    put_f32(out, v.x, order);
    put_f32(out, v.y, order);
    put_f32(out, v.z, order);
    put_f32(out, v.w, order);
    assert(out@ =~= old(out)@ + v4f_bytes(*v, order));
}

/// A vector of four single-precision numbers, encoded anywhere in a buffer, decodes to itself.
pub proof fn lemma_v4f_round_trip(
    v: Vector4<Float32>,
    order: ByteOrder,
    pre: Seq<u8>,
    post: Seq<u8>,
)
    ensures
        v4f_bytes(v, order).len() == 16,
        v4f_at(pre + v4f_bytes(v, order) + post, pre.len() as int, order) == v,
{
    let b0 = f32_bytes(v.x, order);
    let b1 = f32_bytes(v.y, order);
    let b2 = f32_bytes(v.z, order);
    let b3 = f32_bytes(v.w, order);
    lemma_split4(pre, b0, b1, b2, b3, post);
    lemma_f32_round_trip(v.x, order, pre, b1 + b2 + b3 + post);
    lemma_f32_round_trip(v.y, order, pre + b0, b2 + b3 + post);
    lemma_f32_round_trip(v.z, order, pre + b0 + b1, b3 + post);
    lemma_f32_round_trip(v.w, order, pre + b0 + b1 + b2, post);
}

/// A vector of three double-precision numbers found in `s` at `at`.
pub open spec fn v3d_at(s: Seq<u8>, at: int, order: ByteOrder) -> Vector3<Float64> {
    Vector3 { x: f64_at(s, at, order), y: f64_at(s, at + 8, order), z: f64_at(s, at + 16, order) }
}

/// Reads a vector of three double-precision numbers.
pub fn read_v3d(cur: &mut Cursor, order: ByteOrder) -> (r: Result<Vector3<Float64>, DecodeError>)
    ensures
        fixed_read(
            *old(cur),
            *final(cur),
            r,
            24,
            v3d_at(old(cur).buf@, old(cur).pos as int, order),
        ),
{
    if !cur.has(24) {
        return Err(DecodeError::UnexpectedEof);
    }
    let x = cur.read_f64(order)?;
    let y = cur.read_f64(order)?;
    let z = cur.read_f64(order)?;
    Ok(Vector3 { x, y, z })
}

/// The bytes that encode a vector of three double-precision numbers.
pub open spec fn v3d_bytes(v: Vector3<Float64>, order: ByteOrder) -> Seq<u8> {
    f64_bytes(v.x, order) + f64_bytes(v.y, order) + f64_bytes(v.z, order)
}

/// Appends the encoding of a vector of three double-precision numbers.
pub fn put_v3d(out: &mut Vec<u8>, v: &Vector3<Float64>, order: ByteOrder)
    ensures
        final(out)@ == old(out)@ + v3d_bytes(*v, order),
{
    put_f64(out, v.x, order);
    put_f64(out, v.y, order);
    put_f64(out, v.z, order);
    assert(out@ =~= old(out)@ + v3d_bytes(*v, order));
}

/// A vector of three double-precision numbers, encoded anywhere in a buffer, decodes to itself.
pub proof fn lemma_v3d_round_trip(
    v: Vector3<Float64>,
    order: ByteOrder,
    pre: Seq<u8>,
    post: Seq<u8>,
)
    ensures
        v3d_bytes(v, order).len() == 24,
        v3d_at(pre + v3d_bytes(v, order) + post, pre.len() as int, order) == v,
{
    let b0 = f64_bytes(v.x, order);
    let b1 = f64_bytes(v.y, order);
    let b2 = f64_bytes(v.z, order);
    lemma_split3(pre, b0, b1, b2, post);
    lemma_f64_round_trip(v.x, order, pre, b1 + b2 + post);
    lemma_f64_round_trip(v.y, order, pre + b0, b2 + post);
    lemma_f64_round_trip(v.z, order, pre + b0 + b1, post);
}

/// A 4x3 matrix of single-precision numbers found in `s` at `at`: twelve
/// numbers, three to a column, each column completed by the number 1.0.
pub open spec fn mat4x3_at(s: Seq<u8>, at: int, order: ByteOrder) -> Matrix4<Float32> {
    let one = Float32 { bits: ONE_F32 };
    Matrix4 {
        x: Vector4 {
            x: f32_at(s, at, order),
            y: f32_at(s, at + 4, order),
            z: f32_at(s, at + 8, order),
            w: one,
        },
        y: Vector4 {
            x: f32_at(s, at + 12, order),
            y: f32_at(s, at + 16, order),
            z: f32_at(s, at + 20, order),
            w: one,
        },
        z: Vector4 {
            x: f32_at(s, at + 24, order),
            y: f32_at(s, at + 28, order),
            z: f32_at(s, at + 32, order),
            w: one,
        },
        w: Vector4 {
            x: f32_at(s, at + 36, order),
            y: f32_at(s, at + 40, order),
            z: f32_at(s, at + 44, order),
            w: one,
        },
    }
}

/// Reads a 4x3 matrix of single-precision numbers.
pub fn read_mat4x3(cur: &mut Cursor, order: ByteOrder) -> (r: Result<Matrix4<Float32>, DecodeError>)
    ensures
        fixed_read(
            *old(cur),
            *final(cur),
            r,
            48,
            mat4x3_at(old(cur).buf@, old(cur).pos as int, order),
        ),
{
    if !cur.has(48) {
        return Err(DecodeError::UnexpectedEof);
    }
    let one = Float32 { bits: ONE_F32 };
    let a = read_v3f(cur, order)?;
    let b = read_v3f(cur, order)?;
    let c = read_v3f(cur, order)?;
    let d = read_v3f(cur, order)?;
    Ok(
        Matrix4 {
            x: Vector4 { x: a.x, y: a.y, z: a.z, w: one },
            y: Vector4 { x: b.x, y: b.y, z: b.z, w: one },
            z: Vector4 { x: c.x, y: c.y, z: c.z, w: one },
            w: Vector4 { x: d.x, y: d.y, z: d.z, w: one },
        },
    )
}

/// Reads a vector of three double-precision numbers in big-endian order.
pub fn be_v3d(cur: &mut Cursor) -> (r: Result<Vector3<Float64>, DecodeError>)
    ensures
        fixed_read(
            *old(cur),
            *final(cur),
            r,
            24,
            v3d_at(old(cur).buf@, old(cur).pos as int, ByteOrder::Big),
        ),
{
    read_v3d(cur, ByteOrder::Big)
}

/// Reads a vector of three single-precision numbers in big-endian order.
pub fn be_v3f(cur: &mut Cursor) -> (r: Result<Vector3<Float32>, DecodeError>)
    ensures
        fixed_read(
            *old(cur),
            *final(cur),
            r,
            12,
            v3f_at(old(cur).buf@, old(cur).pos as int, ByteOrder::Big),
        ),
{
    read_v3f(cur, ByteOrder::Big)
}

/// Reads a 4x3 matrix of single-precision numbers in little-endian order.
pub fn le_mat4x3(cur: &mut Cursor) -> (r: Result<Matrix4<Float32>, DecodeError>)
    ensures
        fixed_read(
            *old(cur),
            *final(cur),
            r,
            48,
            mat4x3_at(old(cur).buf@, old(cur).pos as int, ByteOrder::Little),
        ),
{
    read_mat4x3(cur, ByteOrder::Little)
}

/// Reads a vector of three double-precision numbers in little-endian order.
pub fn le_v3d(cur: &mut Cursor) -> (r: Result<Vector3<Float64>, DecodeError>)
    ensures
        fixed_read(
            *old(cur),
            *final(cur),
            r,
            24,
            v3d_at(old(cur).buf@, old(cur).pos as int, ByteOrder::Little),
        ),
{
    read_v3d(cur, ByteOrder::Little)
}

/// Reads a vector of three single-precision numbers in little-endian order.
pub fn le_v3f(cur: &mut Cursor) -> (r: Result<Vector3<Float32>, DecodeError>)
    ensures
        fixed_read(
            *old(cur),
            *final(cur),
            r,
            12,
            v3f_at(old(cur).buf@, old(cur).pos as int, ByteOrder::Little),
        ),
{
    read_v3f(cur, ByteOrder::Little)
}

/// Reads a vector of two single-precision numbers in little-endian order.
pub fn le_v2f(cur: &mut Cursor) -> (r: Result<Vector2<Float32>, DecodeError>)
    ensures
        fixed_read(
            *old(cur),
            *final(cur),
            r,
            8,
            v2f_at(old(cur).buf@, old(cur).pos as int, ByteOrder::Little),
        ),
{
    read_v2f(cur, ByteOrder::Little)
}

/// Reads a vector of four single-precision numbers in little-endian order.
pub fn le_v4f(cur: &mut Cursor) -> (r: Result<Vector4<Float32>, DecodeError>)
    ensures
        fixed_read(
            *old(cur),
            *final(cur),
            r,
            16,
            v4f_at(old(cur).buf@, old(cur).pos as int, ByteOrder::Little),
        ),
{
    read_v4f(cur, ByteOrder::Little)
}

impl<T> View for Vector4<T> {
    type V = Vector4<T>;

    open spec fn view(&self) -> Vector4<T> {
        *self
    }
}

impl<T> View for Vector3<T> {
    type V = Vector3<T>;

    open spec fn view(&self) -> Vector3<T> {
        *self
    }
}

} // verus!
