//! Colors of four channels, in the channel orders found on the wire.

use vstd::prelude::*;
use crate::error::DecodeError;
use crate::primitives::{
    f32_at, f32_bytes, fixed_read, lemma_f32_round_trip, lemma_split3, lemma_split4,
    lemma_u8_round_trip, put_f32, put_u8,
    ByteOrder, Cursor, Float32, Float64, ONE_F32,
};

verus! {

/// A color with red, green, blue and alpha channels.
#[derive(Clone, Copy, Debug, PartialEq, Eq)]
pub struct Color<T> {
    pub red: T,
    pub green: T,
    pub blue: T,
    pub alpha: T,
}

/// A color of single-precision channels.
pub type ColorF = Color<Float32>;

/// A color of double-precision channels.
pub type ColorD = Color<Float64>;

/// A color of byte channels.
pub type ColorB = Color<u8>;

/// A byte color in the channel order red, green, blue, alpha found in `s` at `at`.
pub open spec fn rgba_b_at(s: Seq<u8>, at: int) -> ColorB {
    Color { red: s[at], green: s[at + 1], blue: s[at + 2], alpha: s[at + 3] }
}

/// Reads a byte color in the channel order red, green, blue, alpha.
pub fn read_rgba_b(cur: &mut Cursor) -> (r: Result<ColorB, DecodeError>)
    ensures
        fixed_read(*old(cur), *final(cur), r, 4, rgba_b_at(old(cur).buf@, old(cur).pos as int)),
{
    if !cur.has(4) {
        return Err(DecodeError::UnexpectedEof);
    }
    let r = cur.read_u8()?;
    let g = cur.read_u8()?;
    let b = cur.read_u8()?;
    let a = cur.read_u8()?;
    Ok(Color { red: r, green: g, blue: b, alpha: a })
}

/// The bytes that encode a byte color in the channel order red, green, blue, alpha.
pub open spec fn rgba_b_bytes(v: ColorB) -> Seq<u8> {
    seq![v.red] + seq![v.green] + seq![v.blue] + seq![v.alpha]
}

/// Appends the encoding of a byte color in the channel order red, green, blue, alpha.
pub fn put_rgba_b(out: &mut Vec<u8>, v: &ColorB)
    ensures
        final(out)@ == old(out)@ + rgba_b_bytes(*v),
{
    put_u8(out, v.red);
    put_u8(out, v.green);
    put_u8(out, v.blue);
    put_u8(out, v.alpha);
    assert(out@ =~= old(out)@ + rgba_b_bytes(*v));
}

/// A byte color in the channel order red, green, blue, alpha, encoded anywhere
/// in a buffer, decodes to itself.
pub proof fn lemma_rgba_b_round_trip(v: ColorB, pre: Seq<u8>, post: Seq<u8>)
    ensures
        rgba_b_bytes(v).len() == 4,
        rgba_b_at(pre + rgba_b_bytes(v) + post, pre.len() as int) == v,
{
    let b0 = seq![v.red];
    let b1 = seq![v.green];
    let b2 = seq![v.blue];
    let b3 = seq![v.alpha];
    lemma_split4(pre, b0, b1, b2, b3, post);
    lemma_u8_round_trip(v.red, pre, b1 + b2 + b3 + post);
    lemma_u8_round_trip(v.green, pre + b0, b2 + b3 + post);
    lemma_u8_round_trip(v.blue, pre + b0 + b1, b3 + post);
    lemma_u8_round_trip(v.alpha, pre + b0 + b1 + b2, post);
}

/// A byte color in the channel order alpha, red, green, blue found in `s` at `at`.
pub open spec fn argb_b_at(s: Seq<u8>, at: int) -> ColorB {
    Color { red: s[at + 1], green: s[at + 2], blue: s[at + 3], alpha: s[at] }
}

/// Reads a byte color in the channel order alpha, red, green, blue.
pub fn read_argb_b(cur: &mut Cursor) -> (r: Result<ColorB, DecodeError>)
    ensures
        fixed_read(*old(cur), *final(cur), r, 4, argb_b_at(old(cur).buf@, old(cur).pos as int)),
{
    if !cur.has(4) {
        return Err(DecodeError::UnexpectedEof);
    }
    let a = cur.read_u8()?;
    let r = cur.read_u8()?;
    let g = cur.read_u8()?;
    let b = cur.read_u8()?;
    Ok(Color { red: r, green: g, blue: b, alpha: a })
}

/// The bytes that encode a byte color in the channel order alpha, red, green, blue.
pub open spec fn argb_b_bytes(v: ColorB) -> Seq<u8> {
    seq![v.alpha] + seq![v.red] + seq![v.green] + seq![v.blue]
}

/// Appends the encoding of a byte color in the channel order alpha, red, green, blue.
pub fn put_argb_b(out: &mut Vec<u8>, v: &ColorB)
    ensures
        final(out)@ == old(out)@ + argb_b_bytes(*v),
{
    put_u8(out, v.alpha);
    put_u8(out, v.red);
    put_u8(out, v.green);
    put_u8(out, v.blue);
    assert(out@ =~= old(out)@ + argb_b_bytes(*v));
}

/// A byte color in the channel order alpha, red, green, blue, encoded anywhere
/// in a buffer, decodes to itself.
pub proof fn lemma_argb_b_round_trip(v: ColorB, pre: Seq<u8>, post: Seq<u8>)
    ensures
        argb_b_bytes(v).len() == 4,
        argb_b_at(pre + argb_b_bytes(v) + post, pre.len() as int) == v,
{
    let b0 = seq![v.alpha];
    let b1 = seq![v.red];
    let b2 = seq![v.green];
    let b3 = seq![v.blue];
    lemma_split4(pre, b0, b1, b2, b3, post);
    lemma_u8_round_trip(v.alpha, pre, b1 + b2 + b3 + post);
    lemma_u8_round_trip(v.red, pre + b0, b2 + b3 + post);
    lemma_u8_round_trip(v.green, pre + b0 + b1, b3 + post);
    lemma_u8_round_trip(v.blue, pre + b0 + b1 + b2, post);
}

/// A byte color in the channel order blue, green, red, alpha found in `s` at `at`.
pub open spec fn bgra_b_at(s: Seq<u8>, at: int) -> ColorB {
    Color { red: s[at + 2], green: s[at + 1], blue: s[at], alpha: s[at + 3] }
}

/// Reads a byte color in the channel order blue, green, red, alpha.
pub fn read_bgra_b(cur: &mut Cursor) -> (r: Result<ColorB, DecodeError>)
    ensures
        fixed_read(*old(cur), *final(cur), r, 4, bgra_b_at(old(cur).buf@, old(cur).pos as int)),
{
    if !cur.has(4) {
        return Err(DecodeError::UnexpectedEof);
    }
    let b = cur.read_u8()?;
    let g = cur.read_u8()?;
    let r = cur.read_u8()?;
    let a = cur.read_u8()?;
    Ok(Color { red: r, green: g, blue: b, alpha: a })
}

/// The bytes that encode a byte color in the channel order blue, green, red, alpha.
pub open spec fn bgra_b_bytes(v: ColorB) -> Seq<u8> {
    seq![v.blue] + seq![v.green] + seq![v.red] + seq![v.alpha]
}

/// Appends the encoding of a byte color in the channel order blue, green, red, alpha.
pub fn put_bgra_b(out: &mut Vec<u8>, v: &ColorB)
    ensures
        final(out)@ == old(out)@ + bgra_b_bytes(*v),
{
    put_u8(out, v.blue);
    put_u8(out, v.green);
    put_u8(out, v.red);
    put_u8(out, v.alpha);
    assert(out@ =~= old(out)@ + bgra_b_bytes(*v));
}

/// A byte color in the channel order blue, green, red, alpha, encoded anywhere
/// in a buffer, decodes to itself.
pub proof fn lemma_bgra_b_round_trip(v: ColorB, pre: Seq<u8>, post: Seq<u8>)
    ensures
        bgra_b_bytes(v).len() == 4,
        bgra_b_at(pre + bgra_b_bytes(v) + post, pre.len() as int) == v,
{
    let b0 = seq![v.blue];
    let b1 = seq![v.green];
    let b2 = seq![v.red];
    let b3 = seq![v.alpha];
    lemma_split4(pre, b0, b1, b2, b3, post);
    lemma_u8_round_trip(v.blue, pre, b1 + b2 + b3 + post);
    lemma_u8_round_trip(v.green, pre + b0, b2 + b3 + post);
    lemma_u8_round_trip(v.red, pre + b0 + b1, b3 + post);
    lemma_u8_round_trip(v.alpha, pre + b0 + b1 + b2, post);
}

/// A single-precision color in the channel order red, green, blue, alpha found in `s` at `at`.
pub open spec fn rgba_f_at(s: Seq<u8>, at: int, order: ByteOrder) -> ColorF {
    Color {
        red: f32_at(s, at, order),
        green: f32_at(s, at + 4, order),
        blue: f32_at(s, at + 8, order),
        alpha: f32_at(s, at + 12, order),
    }
}

/// Reads a single-precision color in the channel order red, green, blue, alpha.
pub fn read_rgba_f(cur: &mut Cursor, order: ByteOrder) -> (r: Result<ColorF, DecodeError>)
    ensures
        fixed_read(
            *old(cur),
            *final(cur),
            r,
            16,
            rgba_f_at(old(cur).buf@, old(cur).pos as int, order),
        ),
{
    if !cur.has(16) {
        return Err(DecodeError::UnexpectedEof);
    }
    let r = cur.read_f32(order)?;
    let g = cur.read_f32(order)?;
    let b = cur.read_f32(order)?;
    let a = cur.read_f32(order)?;
    Ok(Color { red: r, green: g, blue: b, alpha: a })
}

/// The bytes that encode a single-precision color in the channel order red, green, blue, alpha.
pub open spec fn rgba_f_bytes(v: ColorF, order: ByteOrder) -> Seq<u8> {
    f32_bytes(v.red, order) + f32_bytes(v.green, order) + f32_bytes(v.blue, order)
        + f32_bytes(v.alpha, order)
}

/// Appends the encoding of a single-precision color in the channel order red, green, blue, alpha.
pub fn put_rgba_f(out: &mut Vec<u8>, v: &ColorF, order: ByteOrder)
    ensures
        final(out)@ == old(out)@ + rgba_f_bytes(*v, order),
{
    put_f32(out, v.red, order);
    put_f32(out, v.green, order);
    put_f32(out, v.blue, order);
    put_f32(out, v.alpha, order);
    assert(out@ =~= old(out)@ + rgba_f_bytes(*v, order));
}

/// A single-precision color in the channel order red, green, blue, alpha,
/// encoded anywhere in a buffer, decodes to itself.
pub proof fn lemma_rgba_f_round_trip(v: ColorF, order: ByteOrder, pre: Seq<u8>, post: Seq<u8>)
    ensures
        rgba_f_bytes(v, order).len() == 16,
        rgba_f_at(pre + rgba_f_bytes(v, order) + post, pre.len() as int, order) == v,
{
    let b0 = f32_bytes(v.red, order);
    let b1 = f32_bytes(v.green, order);
    let b2 = f32_bytes(v.blue, order);
    let b3 = f32_bytes(v.alpha, order);
    lemma_split4(pre, b0, b1, b2, b3, post);
    lemma_f32_round_trip(v.red, order, pre, b1 + b2 + b3 + post);
    lemma_f32_round_trip(v.green, order, pre + b0, b2 + b3 + post);
    lemma_f32_round_trip(v.blue, order, pre + b0 + b1, b3 + post);
    lemma_f32_round_trip(v.alpha, order, pre + b0 + b1 + b2, post);
}

/// A single-precision color in the channel order alpha, red, green, blue found in `s` at `at`.
pub open spec fn argb_f_at(s: Seq<u8>, at: int, order: ByteOrder) -> ColorF {
    Color {
        red: f32_at(s, at + 4, order),
        green: f32_at(s, at + 8, order),
        blue: f32_at(s, at + 12, order),
        alpha: f32_at(s, at, order),
    }
}

/// Reads a single-precision color in the channel order alpha, red, green, blue.
pub fn read_argb_f(cur: &mut Cursor, order: ByteOrder) -> (r: Result<ColorF, DecodeError>)
    ensures
        fixed_read(
            *old(cur),
            *final(cur),
            r,
            16,
            argb_f_at(old(cur).buf@, old(cur).pos as int, order),
        ),
{
    if !cur.has(16) {
        return Err(DecodeError::UnexpectedEof);
    }
    let a = cur.read_f32(order)?;
    let r = cur.read_f32(order)?;
    let g = cur.read_f32(order)?;
    let b = cur.read_f32(order)?;
    Ok(Color { red: r, green: g, blue: b, alpha: a })
}

/// The bytes that encode a single-precision color in the channel order alpha, red, green, blue.
pub open spec fn argb_f_bytes(v: ColorF, order: ByteOrder) -> Seq<u8> {
    f32_bytes(v.alpha, order) + f32_bytes(v.red, order) + f32_bytes(v.green, order)
        + f32_bytes(v.blue, order)
}

/// Appends the encoding of a single-precision color in the channel order alpha, red, green, blue.
pub fn put_argb_f(out: &mut Vec<u8>, v: &ColorF, order: ByteOrder)
    ensures
        final(out)@ == old(out)@ + argb_f_bytes(*v, order),
{
    put_f32(out, v.alpha, order);
    put_f32(out, v.red, order);
    put_f32(out, v.green, order);
    put_f32(out, v.blue, order);
    assert(out@ =~= old(out)@ + argb_f_bytes(*v, order));
}

/// A single-precision color in the channel order alpha, red, green, blue,
/// encoded anywhere in a buffer, decodes to itself.
pub proof fn lemma_argb_f_round_trip(v: ColorF, order: ByteOrder, pre: Seq<u8>, post: Seq<u8>)
    ensures
        argb_f_bytes(v, order).len() == 16,
        argb_f_at(pre + argb_f_bytes(v, order) + post, pre.len() as int, order) == v,
{
    let b0 = f32_bytes(v.alpha, order);
    let b1 = f32_bytes(v.red, order);
    let b2 = f32_bytes(v.green, order);
    let b3 = f32_bytes(v.blue, order);
    lemma_split4(pre, b0, b1, b2, b3, post);
    lemma_f32_round_trip(v.alpha, order, pre, b1 + b2 + b3 + post);
    lemma_f32_round_trip(v.red, order, pre + b0, b2 + b3 + post);
    lemma_f32_round_trip(v.green, order, pre + b0 + b1, b3 + post);
    lemma_f32_round_trip(v.blue, order, pre + b0 + b1 + b2, post);
}

/// A single-precision color in the channel order red, green, blue, with alpha
/// 1.0 found in `s` at `at`.
pub open spec fn rgb_f_at(s: Seq<u8>, at: int, order: ByteOrder) -> ColorF {
    Color {
        red: f32_at(s, at, order),
        green: f32_at(s, at + 4, order),
        blue: f32_at(s, at + 8, order),
        alpha: Float32 { bits: ONE_F32 },
    }
}

/// Reads a single-precision color in the channel order red, green, blue, with alpha 1.0.
pub fn read_rgb_f(cur: &mut Cursor, order: ByteOrder) -> (r: Result<ColorF, DecodeError>)
    ensures
        fixed_read(
            *old(cur),
            *final(cur),
            r,
            12,
            rgb_f_at(old(cur).buf@, old(cur).pos as int, order),
        ),
{
    if !cur.has(12) {
        return Err(DecodeError::UnexpectedEof);
    }
    let r = cur.read_f32(order)?;
    let g = cur.read_f32(order)?;
    let b = cur.read_f32(order)?;
    Ok(Color { red: r, green: g, blue: b, alpha: Float32 { bits: ONE_F32 } })
}

/// The bytes that encode a single-precision color in the channel order red,
/// green, blue, with alpha 1.0.
pub open spec fn rgb_f_bytes(v: ColorF, order: ByteOrder) -> Seq<u8> {
    f32_bytes(v.red, order) + f32_bytes(v.green, order) + f32_bytes(v.blue, order)
}

/// Appends the encoding of a single-precision color in the channel order red,
/// green, blue, with alpha 1.0.
pub fn put_rgb_f(out: &mut Vec<u8>, v: &ColorF, order: ByteOrder)
    requires
        v.alpha.bits == ONE_F32,
    ensures
        final(out)@ == old(out)@ + rgb_f_bytes(*v, order),
{
    put_f32(out, v.red, order);
    put_f32(out, v.green, order);
    put_f32(out, v.blue, order);
    assert(out@ =~= old(out)@ + rgb_f_bytes(*v, order));
}

/// An opaque single-precision color (alpha 1.0), encoded without its alpha channel
/// anywhere in a buffer, decodes to itself.
pub proof fn lemma_rgb_f_round_trip(v: ColorF, order: ByteOrder, pre: Seq<u8>, post: Seq<u8>)
    requires
        v.alpha.bits == ONE_F32,
    ensures
        rgb_f_bytes(v, order).len() == 12,
        rgb_f_at(pre + rgb_f_bytes(v, order) + post, pre.len() as int, order) == v,
{
    let b0 = f32_bytes(v.red, order);
    let b1 = f32_bytes(v.green, order);
    let b2 = f32_bytes(v.blue, order);
    lemma_split3(pre, b0, b1, b2, post);
    lemma_f32_round_trip(v.red, order, pre, b1 + b2 + post);
    lemma_f32_round_trip(v.green, order, pre + b0, b2 + post);
    lemma_f32_round_trip(v.blue, order, pre + b0 + b1, post);
}

/// Reads a byte color stored as red, green, blue, alpha.
pub fn le_rgba_b(cur: &mut Cursor) -> (r: Result<ColorB, DecodeError>)
    ensures
        fixed_read(*old(cur), *final(cur), r, 4, rgba_b_at(old(cur).buf@, old(cur).pos as int)),
{
    read_rgba_b(cur)
}

/// Reads a byte color stored as alpha, red, green, blue.
pub fn le_argb_b(cur: &mut Cursor) -> (r: Result<ColorB, DecodeError>)
    ensures
        fixed_read(*old(cur), *final(cur), r, 4, argb_b_at(old(cur).buf@, old(cur).pos as int)),
{
    read_argb_b(cur)
}

/// Reads a byte color stored as blue, green, red, alpha.
pub fn le_bgra_b(cur: &mut Cursor) -> (r: Result<ColorB, DecodeError>)
    ensures
        fixed_read(*old(cur), *final(cur), r, 4, bgra_b_at(old(cur).buf@, old(cur).pos as int)),
{
    read_bgra_b(cur)
}

/// Reads a single-precision color stored as red, green, blue, alpha in little-endian order.
pub fn le_rgba_f(cur: &mut Cursor) -> (r: Result<ColorF, DecodeError>)
    ensures
        fixed_read(
            *old(cur),
            *final(cur),
            r,
            16,
            rgba_f_at(old(cur).buf@, old(cur).pos as int, ByteOrder::Little),
        ),
{
    read_rgba_f(cur, ByteOrder::Little)
}

/// Reads a single-precision color stored as alpha, red, green, blue in little-endian order.
pub fn le_argb_f(cur: &mut Cursor) -> (r: Result<ColorF, DecodeError>)
    ensures
        fixed_read(
            *old(cur),
            *final(cur),
            r,
            16,
            argb_f_at(old(cur).buf@, old(cur).pos as int, ByteOrder::Little),
        ),
{
    read_argb_f(cur, ByteOrder::Little)
}

/// Reads a single-precision color stored as red, green, blue in little-endian order.
pub fn le_rgb_f(cur: &mut Cursor) -> (r: Result<ColorF, DecodeError>)
    ensures
        fixed_read(
            *old(cur),
            *final(cur),
            r,
            12,
            rgb_f_at(old(cur).buf@, old(cur).pos as int, ByteOrder::Little),
        ),
{
    read_rgb_f(cur, ByteOrder::Little)
}

/// Reads a byte color stored as alpha, red, green, blue.
pub fn be_argb_b(cur: &mut Cursor) -> (r: Result<ColorB, DecodeError>)
    ensures
        fixed_read(*old(cur), *final(cur), r, 4, argb_b_at(old(cur).buf@, old(cur).pos as int)),
{
    read_argb_b(cur)
}

/// Reads a byte color stored as blue, green, red, alpha.
pub fn be_bgra_b(cur: &mut Cursor) -> (r: Result<ColorB, DecodeError>)
    ensures
        fixed_read(*old(cur), *final(cur), r, 4, bgra_b_at(old(cur).buf@, old(cur).pos as int)),
{
    read_bgra_b(cur)
}

/// Reads a single-precision color stored as red, green, blue, alpha in big-endian order.
pub fn be_rgba_f(cur: &mut Cursor) -> (r: Result<ColorF, DecodeError>)
    ensures
        fixed_read(
            *old(cur),
            *final(cur),
            r,
            16,
            rgba_f_at(old(cur).buf@, old(cur).pos as int, ByteOrder::Big),
        ),
{
    read_rgba_f(cur, ByteOrder::Big)
}

/// Reads a single-precision color stored as red, green, blue in big-endian order.
pub fn be_rgb_f(cur: &mut Cursor) -> (r: Result<ColorF, DecodeError>)
    ensures
        fixed_read(
            *old(cur),
            *final(cur),
            r,
            12,
            rgb_f_at(old(cur).buf@, old(cur).pos as int, ByteOrder::Big),
        ),
{
    read_rgb_f(cur, ByteOrder::Big)
}

} // verus!
