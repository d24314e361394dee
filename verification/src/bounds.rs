//! Bounding boxes. A box with a radius and a box without one are two
//! different wire shapes.

use vstd::prelude::*;
use crate::error::DecodeError;
use crate::primitives::{
    f32_at, f32_bytes, f64_at, f64_bytes, fixed_read, lemma_f32_round_trip, lemma_f64_round_trip,
    lemma_split2, lemma_split3, put_f32, put_f64, ByteOrder, Cursor, Float32, Float64,
};
use crate::vector::{
    lemma_v3d_round_trip, lemma_v3f_round_trip, put_v3d, put_v3f, read_v3d, read_v3f, v3d_at,
    v3d_bytes, v3f_at, v3f_bytes, Vector3,
};

verus! {

/// Minimum and maximum corner of a box, and the radius of the enclosing
/// sphere where the format stores one.
#[derive(Clone, Copy, Debug, PartialEq, Eq)]
pub struct Bounds<T> {
    pub min: Vector3<T>,
    pub max: Vector3<T>,
    pub radius: Option<T>,
}

/// Bounds of single-precision numbers.
pub type Bounds32 = Bounds<Float32>;

/// Bounds of double-precision numbers.
pub type Bounds64 = Bounds<Float64>;

/// Single-precision bounds with a radius found in `s` at `at`.
pub open spec fn bounds32_r_at(s: Seq<u8>, at: int, order: ByteOrder) -> Bounds32 {
    Bounds {
        min: v3f_at(s, at, order),
        max: v3f_at(s, at + 12, order),
        radius: Some(f32_at(s, at + 24, order)),
    }
}

/// Reads single-precision bounds with a radius.
pub fn read_bounds32_r(cur: &mut Cursor, order: ByteOrder) -> (r: Result<Bounds32, DecodeError>)
    ensures
        fixed_read(
            *old(cur),
            *final(cur),
            r,
            28,
            bounds32_r_at(old(cur).buf@, old(cur).pos as int, order),
        ),
{
    if !cur.has(28) {
        return Err(DecodeError::UnexpectedEof);
    }
    let min = read_v3f(cur, order)?;
    let max = read_v3f(cur, order)?;
    let r = cur.read_f32(order)?;
    Ok(Bounds { min, max, radius: Some(r) })
}

/// The bytes that encode single-precision bounds with a radius.
pub open spec fn bounds32_r_bytes(v: Bounds32, order: ByteOrder) -> Seq<u8> {
    v3f_bytes(v.min, order) + v3f_bytes(v.max, order) + f32_bytes(v.radius.unwrap(), order)
}

/// Appends the encoding of single-precision bounds with a radius.
pub fn put_bounds32_r(out: &mut Vec<u8>, v: &Bounds32, order: ByteOrder)
    requires
        v.radius.is_some(),
    ensures
        final(out)@ == old(out)@ + bounds32_r_bytes(*v, order),
{
    put_v3f(out, &v.min, order);
    put_v3f(out, &v.max, order);
    put_f32(out, v.radius.unwrap(), order);
    assert(out@ =~= old(out)@ + bounds32_r_bytes(*v, order));
}

/// Single-precision bounds that have a radius, encoded anywhere in a buffer,
/// decode to themselves.
pub proof fn lemma_bounds32_r_round_trip(v: Bounds32, order: ByteOrder, pre: Seq<u8>, post: Seq<u8>)
    requires
        v.radius.is_some(),
    ensures
        bounds32_r_bytes(v, order).len() == 28,
        bounds32_r_at(pre + bounds32_r_bytes(v, order) + post, pre.len() as int, order) == v,
{
    let b0 = v3f_bytes(v.min, order);
    let b1 = v3f_bytes(v.max, order);
    let b2 = f32_bytes(v.radius.unwrap(), order);
    lemma_split3(pre, b0, b1, b2, post);
    lemma_v3f_round_trip(v.min, order, pre, b1 + b2 + post);
    lemma_v3f_round_trip(v.max, order, pre + b0, b2 + post);
    lemma_f32_round_trip(v.radius.unwrap(), order, pre + b0 + b1, post);
}

/// Double-precision bounds with a radius found in `s` at `at`.
pub open spec fn bounds64_r_at(s: Seq<u8>, at: int, order: ByteOrder) -> Bounds64 {
    Bounds {
        min: v3d_at(s, at, order),
        max: v3d_at(s, at + 24, order),
        radius: Some(f64_at(s, at + 48, order)),
    }
}

/// Reads double-precision bounds with a radius.
pub fn read_bounds64_r(cur: &mut Cursor, order: ByteOrder) -> (r: Result<Bounds64, DecodeError>)
    ensures
        fixed_read(
            *old(cur),
            *final(cur),
            r,
            56,
            bounds64_r_at(old(cur).buf@, old(cur).pos as int, order),
        ),
{
    if !cur.has(56) {
        return Err(DecodeError::UnexpectedEof);
    }
    let min = read_v3d(cur, order)?;
    let max = read_v3d(cur, order)?;
    let r = cur.read_f64(order)?;
    Ok(Bounds { min, max, radius: Some(r) })
}

/// The bytes that encode double-precision bounds with a radius.
pub open spec fn bounds64_r_bytes(v: Bounds64, order: ByteOrder) -> Seq<u8> {
    v3d_bytes(v.min, order) + v3d_bytes(v.max, order) + f64_bytes(v.radius.unwrap(), order)
}

/// Appends the encoding of double-precision bounds with a radius.
pub fn put_bounds64_r(out: &mut Vec<u8>, v: &Bounds64, order: ByteOrder)
    requires
        v.radius.is_some(),
    ensures
        final(out)@ == old(out)@ + bounds64_r_bytes(*v, order),
{
    put_v3d(out, &v.min, order);
    put_v3d(out, &v.max, order);
    put_f64(out, v.radius.unwrap(), order);
    assert(out@ =~= old(out)@ + bounds64_r_bytes(*v, order));
}

/// Double-precision bounds that have a radius, encoded anywhere in a buffer,
/// decode to themselves.
pub proof fn lemma_bounds64_r_round_trip(v: Bounds64, order: ByteOrder, pre: Seq<u8>, post: Seq<u8>)
    requires
        v.radius.is_some(),
    ensures
        bounds64_r_bytes(v, order).len() == 56,
        bounds64_r_at(pre + bounds64_r_bytes(v, order) + post, pre.len() as int, order) == v,
{
    let b0 = v3d_bytes(v.min, order);
    let b1 = v3d_bytes(v.max, order);
    let b2 = f64_bytes(v.radius.unwrap(), order);
    lemma_split3(pre, b0, b1, b2, post);
    lemma_v3d_round_trip(v.min, order, pre, b1 + b2 + post);
    lemma_v3d_round_trip(v.max, order, pre + b0, b2 + post);
    lemma_f64_round_trip(v.radius.unwrap(), order, pre + b0 + b1, post);
}

/// Single-precision bounds without a radius found in `s` at `at`.
pub open spec fn bounds32_at(s: Seq<u8>, at: int, order: ByteOrder) -> Bounds32 {
    Bounds { min: v3f_at(s, at, order), max: v3f_at(s, at + 12, order), radius: None }
}

/// Reads single-precision bounds without a radius.
pub fn read_bounds32(cur: &mut Cursor, order: ByteOrder) -> (r: Result<Bounds32, DecodeError>)
    ensures
        fixed_read(
            *old(cur),
            *final(cur),
            r,
            24,
            bounds32_at(old(cur).buf@, old(cur).pos as int, order),
        ),
{
    if !cur.has(24) {
        return Err(DecodeError::UnexpectedEof);
    }
    let min = read_v3f(cur, order)?;
    let max = read_v3f(cur, order)?;
    Ok(Bounds { min, max, radius: None })
}

/// The bytes that encode single-precision bounds without a radius.
pub open spec fn bounds32_bytes(v: Bounds32, order: ByteOrder) -> Seq<u8> {
    v3f_bytes(v.min, order) + v3f_bytes(v.max, order)
}

/// Appends the encoding of single-precision bounds without a radius.
pub fn put_bounds32(out: &mut Vec<u8>, v: &Bounds32, order: ByteOrder)
    requires
        v.radius.is_none(),
    ensures
        final(out)@ == old(out)@ + bounds32_bytes(*v, order),
{
    put_v3f(out, &v.min, order);
    put_v3f(out, &v.max, order);
    assert(out@ =~= old(out)@ + bounds32_bytes(*v, order));
}

/// Single-precision bounds that have no radius, encoded anywhere in a buffer,
/// decode to themselves.
pub proof fn lemma_bounds32_round_trip(v: Bounds32, order: ByteOrder, pre: Seq<u8>, post: Seq<u8>)
    requires
        v.radius.is_none(),
    ensures
        bounds32_bytes(v, order).len() == 24,
        bounds32_at(pre + bounds32_bytes(v, order) + post, pre.len() as int, order) == v,
{
    let b0 = v3f_bytes(v.min, order);
    let b1 = v3f_bytes(v.max, order);
    lemma_split2(pre, b0, b1, post);
    lemma_v3f_round_trip(v.min, order, pre, b1 + post);
    lemma_v3f_round_trip(v.max, order, pre + b0, post);
}

/// Double-precision bounds without a radius found in `s` at `at`.
pub open spec fn bounds64_at(s: Seq<u8>, at: int, order: ByteOrder) -> Bounds64 {
    Bounds { min: v3d_at(s, at, order), max: v3d_at(s, at + 24, order), radius: None }
}

/// Reads double-precision bounds without a radius.
pub fn read_bounds64(cur: &mut Cursor, order: ByteOrder) -> (r: Result<Bounds64, DecodeError>)
    ensures
        fixed_read(
            *old(cur),
            *final(cur),
            r,
            48,
            bounds64_at(old(cur).buf@, old(cur).pos as int, order),
        ),
{
    if !cur.has(48) {
        return Err(DecodeError::UnexpectedEof);
    }
    let min = read_v3d(cur, order)?;
    let max = read_v3d(cur, order)?;
    Ok(Bounds { min, max, radius: None })
}

/// The bytes that encode double-precision bounds without a radius.
pub open spec fn bounds64_bytes(v: Bounds64, order: ByteOrder) -> Seq<u8> {
    v3d_bytes(v.min, order) + v3d_bytes(v.max, order)
}

/// Appends the encoding of double-precision bounds without a radius.
pub fn put_bounds64(out: &mut Vec<u8>, v: &Bounds64, order: ByteOrder)
    requires
        v.radius.is_none(),
    ensures
        final(out)@ == old(out)@ + bounds64_bytes(*v, order),
{
    put_v3d(out, &v.min, order);
    put_v3d(out, &v.max, order);
    assert(out@ =~= old(out)@ + bounds64_bytes(*v, order));
}

/// Double-precision bounds that have no radius, encoded anywhere in a buffer,
/// decode to themselves.
pub proof fn lemma_bounds64_round_trip(v: Bounds64, order: ByteOrder, pre: Seq<u8>, post: Seq<u8>)
    requires
        v.radius.is_none(),
    ensures
        bounds64_bytes(v, order).len() == 48,
        bounds64_at(pre + bounds64_bytes(v, order) + post, pre.len() as int, order) == v,
{
    let b0 = v3d_bytes(v.min, order);
    let b1 = v3d_bytes(v.max, order);
    lemma_split2(pre, b0, b1, post);
    lemma_v3d_round_trip(v.min, order, pre, b1 + post);
    lemma_v3d_round_trip(v.max, order, pre + b0, post);
}

/// Reads single-precision bounds with a radius in little-endian order.
pub fn le_bounds32_r(cur: &mut Cursor) -> (r: Result<Bounds32, DecodeError>)
    ensures
        fixed_read(
            *old(cur),
            *final(cur),
            r,
            28,
            bounds32_r_at(old(cur).buf@, old(cur).pos as int, ByteOrder::Little),
        ),
{
    read_bounds32_r(cur, ByteOrder::Little)
}

/// Reads double-precision bounds with a radius in little-endian order.
pub fn le_bounds64_r(cur: &mut Cursor) -> (r: Result<Bounds64, DecodeError>)
    ensures
        fixed_read(
            *old(cur),
            *final(cur),
            r,
            56,
            bounds64_r_at(old(cur).buf@, old(cur).pos as int, ByteOrder::Little),
        ),
{
    read_bounds64_r(cur, ByteOrder::Little)
}

/// Reads single-precision bounds with a radius in big-endian order.
pub fn be_bounds32_r(cur: &mut Cursor) -> (r: Result<Bounds32, DecodeError>)
    ensures
        fixed_read(
            *old(cur),
            *final(cur),
            r,
            28,
            bounds32_r_at(old(cur).buf@, old(cur).pos as int, ByteOrder::Big),
        ),
{
    read_bounds32_r(cur, ByteOrder::Big)
}

/// Reads double-precision bounds with a radius in big-endian order.
pub fn be_bounds64_r(cur: &mut Cursor) -> (r: Result<Bounds64, DecodeError>)
    ensures
        fixed_read(
            *old(cur),
            *final(cur),
            r,
            56,
            bounds64_r_at(old(cur).buf@, old(cur).pos as int, ByteOrder::Big),
        ),
{
    read_bounds64_r(cur, ByteOrder::Big)
}

/// Reads single-precision bounds without a radius in little-endian order.
pub fn le_bounds32(cur: &mut Cursor) -> (r: Result<Bounds32, DecodeError>)
    ensures
        fixed_read(
            *old(cur),
            *final(cur),
            r,
            24,
            bounds32_at(old(cur).buf@, old(cur).pos as int, ByteOrder::Little),
        ),
{
    read_bounds32(cur, ByteOrder::Little)
}

/// Reads double-precision bounds without a radius in little-endian order.
pub fn le_bounds64(cur: &mut Cursor) -> (r: Result<Bounds64, DecodeError>)
    ensures
        fixed_read(
            *old(cur),
            *final(cur),
            r,
            48,
            bounds64_at(old(cur).buf@, old(cur).pos as int, ByteOrder::Little),
        ),
{
    read_bounds64(cur, ByteOrder::Little)
}

/// Reads single-precision bounds without a radius in big-endian order.
pub fn be_bounds32(cur: &mut Cursor) -> (r: Result<Bounds32, DecodeError>)
    ensures
        fixed_read(
            *old(cur),
            *final(cur),
            r,
            24,
            bounds32_at(old(cur).buf@, old(cur).pos as int, ByteOrder::Big),
        ),
{
    read_bounds32(cur, ByteOrder::Big)
}

/// Reads double-precision bounds without a radius in big-endian order.
pub fn be_bounds64(cur: &mut Cursor) -> (r: Result<Bounds64, DecodeError>)
    ensures
        fixed_read(
            *old(cur),
            *final(cur),
            r,
            48,
            bounds64_at(old(cur).buf@, old(cur).pos as int, ByteOrder::Big),
        ),
{
    read_bounds64(cur, ByteOrder::Big)
}

impl<T> View for Bounds<T> {
    type V = Bounds<T>;

    open spec fn view(&self) -> Bounds<T> {
        *self
    }
}

} // verus!
