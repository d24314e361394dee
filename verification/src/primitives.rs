//! Byte-level readers and writers for fixed-width integers in both byte
//! orders, and the cursor that the decoders share.

use vstd::prelude::*;
use vstd::slice::slice_subrange;
use crate::error::DecodeError;

verus! {

/// The order in which the bytes of a multi-byte integer are laid out.
#[derive(Clone, Copy, Debug, PartialEq, Eq, Structural)]
pub enum ByteOrder {
    Little,
    Big,
}

/// A single-precision number, carried as its IEEE-754 bit pattern.
#[derive(Clone, Copy, Debug, PartialEq, Eq, Structural)]
pub struct Float32 {
    pub bits: u32,
}

/// A double-precision number, carried as its IEEE-754 bit pattern.
#[derive(Clone, Copy, Debug, PartialEq, Eq, Structural)]
pub struct Float64 {
    pub bits: u64,
}

/// The bit pattern of the single-precision number 1.0.
pub const ONE_F32: u32 = 0x3F80_0000;

// ---------------------------------------------------------------------
// What the bytes mean
// ---------------------------------------------------------------------

/// The little-endian value of the two bytes of `s` starting at `at`.
pub open spec fn le_u16_at(s: Seq<u8>, at: int) -> u16 {
    (s[at] as int + 0x100 * (s[at + 1] as int)) as u16
}

/// The big-endian value of the two bytes of `s` starting at `at`.
pub open spec fn be_u16_at(s: Seq<u8>, at: int) -> u16 {
    (0x100 * (s[at] as int) + s[at + 1] as int) as u16
}

/// The little-endian value of the four bytes of `s` starting at `at`.
pub open spec fn le_u32_at(s: Seq<u8>, at: int) -> u32 {
    (s[at] as int + 0x100 * (s[at + 1] as int) + 0x1_0000 * (s[at + 2] as int) + 0x100_0000 * (s[at
        + 3] as int)) as u32
}

/// The big-endian value of the four bytes of `s` starting at `at`.
pub open spec fn be_u32_at(s: Seq<u8>, at: int) -> u32 {
    (0x100_0000 * (s[at] as int) + 0x1_0000 * (s[at + 1] as int) + 0x100 * (s[at + 2] as int)
        + s[at + 3] as int) as u32
}

/// The little-endian value of the eight bytes of `s` starting at `at`.
pub open spec fn le_u64_at(s: Seq<u8>, at: int) -> u64 {
    (le_u32_at(s, at) as int + 0x1_0000_0000 * (le_u32_at(s, at + 4) as int)) as u64
}

/// The big-endian value of the eight bytes of `s` starting at `at`.
pub open spec fn be_u64_at(s: Seq<u8>, at: int) -> u64 {
    (0x1_0000_0000 * (be_u32_at(s, at) as int) + be_u32_at(s, at + 4) as int) as u64
}

/// The value of the two bytes of `s` starting at `at`, in the given order.
pub open spec fn u16_at(s: Seq<u8>, at: int, order: ByteOrder) -> u16 {
    match order {
        ByteOrder::Little => le_u16_at(s, at),
        ByteOrder::Big => be_u16_at(s, at),
    }
}

/// The value of the four bytes of `s` starting at `at`, in the given order.
pub open spec fn u32_at(s: Seq<u8>, at: int, order: ByteOrder) -> u32 {
    match order {
        ByteOrder::Little => le_u32_at(s, at),
        ByteOrder::Big => be_u32_at(s, at),
    }
}

/// The value of the eight bytes of `s` starting at `at`, in the given
/// order.
pub open spec fn u64_at(s: Seq<u8>, at: int, order: ByteOrder) -> u64 {
    match order {
        ByteOrder::Little => le_u64_at(s, at),
        ByteOrder::Big => be_u64_at(s, at),
    }
}

/// The single-precision number whose four bytes start at `at`.
pub open spec fn f32_at(s: Seq<u8>, at: int, order: ByteOrder) -> Float32 {
    Float32 { bits: u32_at(s, at, order) }
}

/// The double-precision number whose eight bytes start at `at`.
pub open spec fn f64_at(s: Seq<u8>, at: int, order: ByteOrder) -> Float64 {
    Float64 { bits: u64_at(s, at, order) }
}

/// The two's-complement reading of a byte.
pub open spec fn signed8(v: u8) -> i8 {
    if v < 0x80 {
        v as i8
    } else {
        (v as int - 0x100) as i8
    }
}

/// The two's-complement reading of a 16-bit word.
pub open spec fn signed16(v: u16) -> i16 {
    if v < 0x8000 {
        v as i16
    } else {
        (v as int - 0x1_0000) as i16
    }
}

/// The two's-complement reading of a 32-bit word.
pub open spec fn signed32(v: u32) -> i32 {
    if v < 0x8000_0000 {
        v as i32
    } else {
        (v as int - 0x1_0000_0000) as i32
    }
}

/// The two's-complement reading of a 64-bit word.
pub open spec fn signed64(v: u64) -> i64 {
    if v < 0x8000_0000_0000_0000 {
        v as i64
    } else {
        (v as int - 0x1_0000_0000_0000_0000) as i64
    }
}

/// Reads a byte as a two's-complement number.
pub fn to_signed8(v: u8) -> (r: i8)
    ensures
        r == signed8(v),
{
    if v < 0x80 {
        v as i8
    } else {
        (v as i16 - 0x100) as i8
    }
}

/// Reads a 16-bit word as a two's-complement number.
pub fn to_signed16(v: u16) -> (r: i16)
    ensures
        r == signed16(v),
{
    if v < 0x8000 {
        v as i16
    } else {
        (v as i32 - 0x1_0000) as i16
    }
}

/// Reads a 32-bit word as a two's-complement number.
pub fn to_signed32(v: u32) -> (r: i32)
    ensures
        r == signed32(v),
{
    if v < 0x8000_0000 {
        v as i32
    } else {
        (v as i64 - 0x1_0000_0000) as i32
    }
}

/// Reads a 64-bit word as a two's-complement number.
pub fn to_signed64(v: u64) -> (r: i64)
    ensures
        r == signed64(v),
{
    if v < 0x8000_0000_0000_0000 {
        v as i64
    } else {
        (v as i128 - 0x1_0000_0000_0000_0000) as i64
    }
}

// ---------------------------------------------------------------------
// The readers of the parser library
// ---------------------------------------------------------------------

/// Calls `nom::number::complete::le_u16`. That function fails on fewer than
/// two bytes and otherwise sums the first two bytes, each shifted left by
/// eight times its position.
#[verifier::external_body]
fn nom_le_u16(input: &[u8]) -> (r: Option<u16>)
    ensures
        input@.len() >= 2 ==> r == Some(le_u16_at(input@, 0)),
        input@.len() < 2 ==> r.is_none(),
{
    match nom::number::complete::le_u16::<&[u8], nom::error::Error<&[u8]>>(input) {
        Ok((_, v)) => Some(v),
        Err(_) => None,
    }
}

/// Calls `nom::number::complete::le_u32`. That function fails on fewer than
/// four bytes and otherwise sums the first four bytes, each shifted left by
/// eight times its position.
#[verifier::external_body]
fn nom_le_u32(input: &[u8]) -> (r: Option<u32>)
    ensures
        input@.len() >= 4 ==> r == Some(le_u32_at(input@, 0)),
        input@.len() < 4 ==> r.is_none(),
{
    match nom::number::complete::le_u32::<&[u8], nom::error::Error<&[u8]>>(input) {
        Ok((_, v)) => Some(v),
        Err(_) => None,
    }
}

/// Calls `nom::number::complete::le_u64`. That function fails on fewer than
/// eight bytes and otherwise sums the first eight bytes, each shifted left
/// by eight times its position.
#[verifier::external_body]
fn nom_le_u64(input: &[u8]) -> (r: Option<u64>)
    ensures
        input@.len() >= 8 ==> r == Some(le_u64_at(input@, 0)),
        input@.len() < 8 ==> r.is_none(),
{
    match nom::number::complete::le_u64::<&[u8], nom::error::Error<&[u8]>>(input) {
        Ok((_, v)) => Some(v),
        Err(_) => None,
    }
}

/// Calls `nom::number::complete::be_u16`. That function fails on fewer than
/// two bytes and otherwise folds the first two bytes, shifting the
/// accumulated value left by eight before adding the next byte.
#[verifier::external_body]
fn nom_be_u16(input: &[u8]) -> (r: Option<u16>)
    ensures
        input@.len() >= 2 ==> r == Some(be_u16_at(input@, 0)),
        input@.len() < 2 ==> r.is_none(),
{
    match nom::number::complete::be_u16::<&[u8], nom::error::Error<&[u8]>>(input) {
        Ok((_, v)) => Some(v),
        Err(_) => None,
    }
}

/// Calls `nom::number::complete::be_u32`. That function fails on fewer than
/// four bytes and otherwise folds the first four bytes, shifting the
/// accumulated value left by eight before adding the next byte.
#[verifier::external_body]
fn nom_be_u32(input: &[u8]) -> (r: Option<u32>)
    ensures
        input@.len() >= 4 ==> r == Some(be_u32_at(input@, 0)),
        input@.len() < 4 ==> r.is_none(),
{
    match nom::number::complete::be_u32::<&[u8], nom::error::Error<&[u8]>>(input) {
        Ok((_, v)) => Some(v),
        Err(_) => None,
    }
}

/// Calls `nom::number::complete::be_u64`. That function fails on fewer than
/// eight bytes and otherwise folds the first eight bytes, shifting the
/// accumulated value left by eight before adding the next byte.
#[verifier::external_body]
fn nom_be_u64(input: &[u8]) -> (r: Option<u64>)
    ensures
        input@.len() >= 8 ==> r == Some(be_u64_at(input@, 0)),
        input@.len() < 8 ==> r.is_none(),
{
    match nom::number::complete::be_u64::<&[u8], nom::error::Error<&[u8]>>(input) {
        Ok((_, v)) => Some(v),
        Err(_) => None,
    }
}

/// Calls the parser that `nom::bytes::complete::tag` builds for `tag`. It
/// succeeds exactly where the input starts with the bytes of `tag`.
#[verifier::external_body]
fn nom_tag(input: &[u8], tag: &[u8]) -> (r: bool)
    ensures
        r == starts_with(input@, tag@),
{
    nom::bytes::complete::tag::<&[u8], &[u8], nom::error::Error<&[u8]>>(tag)(input).is_ok()
}

/// Whether `s` begins with the bytes of `tag`.
pub open spec fn starts_with(s: Seq<u8>, tag: Seq<u8>) -> bool {
    tag.len() <= s.len() && s.subrange(0, tag.len() as int) == tag
}

// ---------------------------------------------------------------------
// The cursor
// ---------------------------------------------------------------------

/// A read position in an immutable buffer. The position may lie beyond the
/// end of the buffer; nothing can be read there.
#[derive(Clone, Copy, Debug)]
pub struct Cursor<'a> {
    pub buf: &'a [u8],
    pub pos: usize,
}

/// How a read of `n` bytes that yields `value` relates the cursor before
/// and after it to the result: with `n` bytes left the value is returned
/// and the cursor moves past them; otherwise the read fails with
/// `UnexpectedEof` and the cursor stays.
pub open spec fn fixed_read<T>(
    before: Cursor,
    after: Cursor,
    r: Result<T, DecodeError>,
    n: nat,
    value: T,
) -> bool {
    if before.can_read(n) {
        r == Ok::<T, DecodeError>(value) && after.buf == before.buf && after.pos == before.pos + n
    } else {
        r == Err::<T, DecodeError>(DecodeError::UnexpectedEof) && after == before
    }
}

impl<'a> Cursor<'a> {
    /// The number of bytes between the position and the end of the buffer.
    pub open spec fn remaining(&self) -> nat {
        if self.pos <= self.buf@.len() {
            (self.buf@.len() - self.pos) as nat
        } else {
            0
        }
    }

    /// Whether `n` more bytes can be read.
    pub open spec fn can_read(&self, n: nat) -> bool {
        self.pos + n <= self.buf@.len()
    }

    /// A cursor at the start of `buf`.
    pub fn new(buf: &'a [u8]) -> (c: Self)
        ensures
            c.buf == buf,
            c.pos == 0,
    {
        Cursor { buf, pos: 0 }
    }

    /// A cursor at `pos` in `buf`.
    pub fn at(buf: &'a [u8], pos: usize) -> (c: Self)
        ensures
            c.buf == buf,
            c.pos == pos,
    {
        Cursor { buf, pos }
    }

    /// The current position.
    pub fn position(&self) -> (p: usize)
        ensures
            p == self.pos,
    {
        self.pos
    }

    /// The number of bytes left to read.
    pub fn left(&self) -> (n: usize)
        ensures
            n == self.remaining(),
    {
        if self.pos <= self.buf.len() {
            self.buf.len() - self.pos
        } else {
            0
        }
    }

    /// Whether `n` more bytes can be read.
    pub fn has(&self, n: usize) -> (r: bool)
        ensures
            r == self.can_read(n as nat),
            self.buf@.len() <= usize::MAX,
    {
        self.pos <= self.buf.len() && n <= self.buf.len() - self.pos
    }

    /// Moves the cursor to `pos`.
    pub fn seek(&mut self, pos: usize)
        ensures
            final(self).buf == old(self).buf,
            final(self).pos == pos,
    {
        self.pos = pos;
    }

    /// Moves the cursor `n` bytes on.
    pub fn skip(&mut self, n: usize) -> (r: Result<(), DecodeError>)
        ensures
            fixed_read(*old(self), *final(self), r, n as nat, ()),
    {
        if self.has(n) {
            self.pos = self.pos + n;
            Ok(())
        } else {
            Err(DecodeError::UnexpectedEof)
        }
    }

    /// The unread part of the buffer; empty when the position lies beyond
    /// the end.
    pub fn rest(&self) -> (r: &'a [u8])
        ensures
            self.pos <= self.buf@.len() ==> r@ == self.buf@.subrange(
                self.pos as int,
                self.buf@.len() as int,
            ),
            self.pos > self.buf@.len() ==> r@.len() == 0,
            self.buf@.len() <= usize::MAX,
    {
        if self.pos <= self.buf.len() {
            slice_subrange(self.buf, self.pos, self.buf.len())
        } else {
            slice_subrange(self.buf, 0, 0)
        }
    }

    /// Reads one byte.
    pub fn read_u8(&mut self) -> (r: Result<u8, DecodeError>)
        ensures
            fixed_read(*old(self), *final(self), r, 1, old(self).buf@[old(self).pos as int]),
    {
        if self.has(1) {
            let v = self.buf[self.pos];
            self.pos = self.pos + 1;
            Ok(v)
        } else {
            Err(DecodeError::UnexpectedEof)
        }
    }

    /// Reads one byte as a signed number.
    pub fn read_i8(&mut self) -> (r: Result<i8, DecodeError>)
        ensures
            fixed_read(
                *old(self),
                *final(self),
                r,
                1,
                signed8(old(self).buf@[old(self).pos as int]),
            ),
    {
        match self.read_u8() {
            Ok(v) => Ok(to_signed8(v)),
            Err(e) => Err(e),
        }
    }

    /// Reads a 16-bit unsigned integer in the given byte order.
    pub fn read_u16(&mut self, order: ByteOrder) -> (r: Result<u16, DecodeError>)
        ensures
            fixed_read(
                *old(self),
                *final(self),
                r,
                2,
                u16_at(old(self).buf@, old(self).pos as int, order),
            ),
    {
        let rest = self.rest();
        let got = match order {
            ByteOrder::Little => nom_le_u16(rest),
            ByteOrder::Big => nom_be_u16(rest),
        };
        match got {
            Some(v) => {
                self.pos = self.pos + 2;
                Ok(v)
            },
            None => Err(DecodeError::UnexpectedEof),
        }
    }

    /// Reads a 32-bit unsigned integer in the given byte order.
    pub fn read_u32(&mut self, order: ByteOrder) -> (r: Result<u32, DecodeError>)
        ensures
            fixed_read(
                *old(self),
                *final(self),
                r,
                4,
                u32_at(old(self).buf@, old(self).pos as int, order),
            ),
    {
        let rest = self.rest();
        let got = match order {
            ByteOrder::Little => nom_le_u32(rest),
            ByteOrder::Big => nom_be_u32(rest),
        };
        match got {
            Some(v) => {
                self.pos = self.pos + 4;
                Ok(v)
            },
            None => Err(DecodeError::UnexpectedEof),
        }
    }

    /// Reads a 64-bit unsigned integer in the given byte order.
    pub fn read_u64(&mut self, order: ByteOrder) -> (r: Result<u64, DecodeError>)
        ensures
            fixed_read(
                *old(self),
                *final(self),
                r,
                8,
                u64_at(old(self).buf@, old(self).pos as int, order),
            ),
    {
        let rest = self.rest();
        let got = match order {
            ByteOrder::Little => nom_le_u64(rest),
            ByteOrder::Big => nom_be_u64(rest),
        };
        match got {
            Some(v) => {
                self.pos = self.pos + 8;
                Ok(v)
            },
            None => Err(DecodeError::UnexpectedEof),
        }
    }

    /// Reads a 16-bit signed integer in the given byte order.
    pub fn read_i16(&mut self, order: ByteOrder) -> (r: Result<i16, DecodeError>)
        ensures
            fixed_read(
                *old(self),
                *final(self),
                r,
                2,
                signed16(u16_at(old(self).buf@, old(self).pos as int, order)),
            ),
    {
        match self.read_u16(order) {
            Ok(v) => Ok(to_signed16(v)),
            Err(e) => Err(e),
        }
    }

    /// Reads a 32-bit signed integer in the given byte order.
    pub fn read_i32(&mut self, order: ByteOrder) -> (r: Result<i32, DecodeError>)
        ensures
            fixed_read(
                *old(self),
                *final(self),
                r,
                4,
                signed32(u32_at(old(self).buf@, old(self).pos as int, order)),
            ),
    {
        match self.read_u32(order) {
            Ok(v) => Ok(to_signed32(v)),
            Err(e) => Err(e),
        }
    }

    /// Reads a 64-bit signed integer in the given byte order.
    pub fn read_i64(&mut self, order: ByteOrder) -> (r: Result<i64, DecodeError>)
        ensures
            fixed_read(
                *old(self),
                *final(self),
                r,
                8,
                signed64(u64_at(old(self).buf@, old(self).pos as int, order)),
            ),
    {
        match self.read_u64(order) {
            Ok(v) => Ok(to_signed64(v)),
            Err(e) => Err(e),
        }
    }

    /// Reads a single-precision number in the given byte order.
    pub fn read_f32(&mut self, order: ByteOrder) -> (r: Result<Float32, DecodeError>)
        ensures
            fixed_read(
                *old(self),
                *final(self),
                r,
                4,
                f32_at(old(self).buf@, old(self).pos as int, order),
            ),
    {
        match self.read_u32(order) {
            Ok(bits) => Ok(Float32 { bits }),
            Err(e) => Err(e),
        }
    }

    /// Reads a double-precision number in the given byte order.
    pub fn read_f64(&mut self, order: ByteOrder) -> (r: Result<Float64, DecodeError>)
        ensures
            fixed_read(
                *old(self),
                *final(self),
                r,
                8,
                f64_at(old(self).buf@, old(self).pos as int, order),
            ),
    {
        match self.read_u64(order) {
            Ok(bits) => Ok(Float64 { bits }),
            Err(e) => Err(e),
        }
    }

    /// Copies the next `n` bytes out of the buffer.
    pub fn read_bytes(&mut self, n: usize) -> (r: Result<Vec<u8>, DecodeError>)
        ensures
            final(self).buf == old(self).buf,
            old(self).can_read(n as nat) ==> r.is_ok() && r.unwrap()@ == old(self).buf@.subrange(
                old(self).pos as int,
                old(self).pos + n,
            ) && final(self).pos == old(self).pos + n,
            !old(self).can_read(n as nat) ==> r == Err::<Vec<u8>, DecodeError>(
                DecodeError::UnexpectedEof,
            ) && final(self).pos == old(self).pos,
    {
        if self.has(n) {
            let part = slice_subrange(self.buf, self.pos, self.pos + n);
            let out = vstd::slice::slice_to_vec(part);
            self.pos = self.pos + n;
            Ok(out)
        } else {
            Err(DecodeError::UnexpectedEof)
        }
    }

    /// Steps over the magic tag `tag`, or fails with `BadMagic`, leaving
    /// the cursor in place, where the unread bytes do not start with it.
    pub fn expect_tag(&mut self, tag: &[u8]) -> (r: Result<(), DecodeError>)
        ensures
            final(self).buf == old(self).buf,
            match r {
                Ok(_) => old(self).can_read(tag@.len()) && old(self).buf@.subrange(
                    old(self).pos as int,
                    old(self).pos + tag@.len(),
                ) == tag@ && final(self).pos == old(self).pos + tag@.len(),
                Err(e) => e == DecodeError::BadMagic && final(self).pos == old(self).pos && !(old(
                    self,
                ).can_read(tag@.len()) && old(self).buf@.subrange(
                    old(self).pos as int,
                    old(self).pos + tag@.len(),
                ) == tag@),
            },
    {
        let rest = self.rest();
        let ghost p = self.pos as int;
        let ghost n = tag@.len() as int;
        if self.pos <= self.buf.len() && nom_tag(rest, tag) {
            assert(self.buf@.subrange(p, p + n) =~= rest@.subrange(0, n));
            self.pos = self.pos + tag.len();
            Ok(())
        } else {
            proof {
                if self.can_read(tag@.len()) {
                    assert(self.buf@.subrange(p, p + n) =~= rest@.subrange(0, n));
                }
            }
            Err(DecodeError::BadMagic)
        }
    }

    /// Reads four bytes as they stand.
    pub fn read_quad(&mut self) -> (r: Result<[u8; 4], DecodeError>)
        ensures
            fixed_read(
                *old(self),
                *final(self),
                r,
                4,
                quad_at(old(self).buf@, old(self).pos as int),
            ),
    {
        if self.has(4) {
            let v = [
                self.buf[self.pos],
                self.buf[self.pos + 1],
                self.buf[self.pos + 2],
                self.buf[self.pos + 3],
            ];
            self.pos = self.pos + 4;
            Ok(v)
        } else {
            Err(DecodeError::UnexpectedEof)
        }
    }
}

// ---------------------------------------------------------------------
// Writers
// ---------------------------------------------------------------------

/// The two bytes that encode `v` in the given order.
pub open spec fn u16_bytes(v: u16, order: ByteOrder) -> Seq<u8> {
    let lo = (v % 0x100) as u8;
    let hi = (v / 0x100) as u8;
    match order {
        ByteOrder::Little => seq![lo, hi],
        ByteOrder::Big => seq![hi, lo],
    }
}

/// The four bytes that encode `v` in the given order.
pub open spec fn u32_bytes(v: u32, order: ByteOrder) -> Seq<u8> {
    let b0 = (v % 0x100) as u8;
    let b1 = ((v / 0x100) % 0x100) as u8;
    let b2 = ((v / 0x1_0000) % 0x100) as u8;
    let b3 = (v / 0x100_0000) as u8;
    match order {
        ByteOrder::Little => seq![b0, b1, b2, b3],
        ByteOrder::Big => seq![b3, b2, b1, b0],
    }
}

/// The eight bytes that encode `v` in the given order.
pub open spec fn u64_bytes(v: u64, order: ByteOrder) -> Seq<u8> {
    let lo = (v % 0x1_0000_0000) as u32;
    let hi = (v / 0x1_0000_0000) as u32;
    match order {
        ByteOrder::Little => u32_bytes(lo, order) + u32_bytes(hi, order),
        ByteOrder::Big => u32_bytes(hi, order) + u32_bytes(lo, order),
    }
}

/// The byte whose two's-complement reading is `v`.
pub open spec fn unsigned8(v: i8) -> u8 {
    if v >= 0 {
        v as u8
    } else {
        (v as int + 0x100) as u8
    }
}

/// The 16-bit word whose two's-complement reading is `v`.
pub open spec fn unsigned16(v: i16) -> u16 {
    if v >= 0 {
        v as u16
    } else {
        (v as int + 0x1_0000) as u16
    }
}

/// The 32-bit word whose two's-complement reading is `v`.
pub open spec fn unsigned32(v: i32) -> u32 {
    if v >= 0 {
        v as u32
    } else {
        (v as int + 0x1_0000_0000) as u32
    }
}

/// The 64-bit word whose two's-complement reading is `v`.
pub open spec fn unsigned64(v: i64) -> u64 {
    if v >= 0 {
        v as u64
    } else {
        (v as int + 0x1_0000_0000_0000_0000) as u64
    }
}

/// The bits of a signed number as a byte.
pub fn to_unsigned8(v: i8) -> (r: u8)
    ensures
        r == unsigned8(v),
{
    if v >= 0 {
        v as u8
    } else {
        (v as i16 + 0x100) as u8
    }
}

/// The bits of a signed number as a 16-bit word.
pub fn to_unsigned16(v: i16) -> (r: u16)
    ensures
        r == unsigned16(v),
{
    if v >= 0 {
        v as u16
    } else {
        (v as i32 + 0x1_0000) as u16
    }
}

/// The bits of a signed number as a 32-bit word.
pub fn to_unsigned32(v: i32) -> (r: u32)
    ensures
        r == unsigned32(v),
{
    if v >= 0 {
        v as u32
    } else {
        (v as i64 + 0x1_0000_0000) as u32
    }
}

/// The bits of a signed number as a 64-bit word.
pub fn to_unsigned64(v: i64) -> (r: u64)
    ensures
        r == unsigned64(v),
{
    if v >= 0 {
        v as u64
    } else {
        (v as i128 + 0x1_0000_0000_0000_0000) as u64
    }
}

/// Appends one byte.
pub fn put_u8(out: &mut Vec<u8>, v: u8)
    ensures
        final(out)@ == old(out)@ + seq![v],
{
    out.push(v);
    assert(out@ =~= old(out)@ + seq![v]);
}

/// Appends the encoding of a 16-bit unsigned integer.
pub fn put_u16(out: &mut Vec<u8>, v: u16, order: ByteOrder)
    ensures
        final(out)@ == old(out)@ + u16_bytes(v, order),
{
    let lo = (v % 0x100) as u8;
    let hi = (v / 0x100) as u8;
    match order {
        ByteOrder::Little => {
            out.push(lo);
            out.push(hi);
        },
        ByteOrder::Big => {
            out.push(hi);
            out.push(lo);
        },
    }
    assert(out@ =~= old(out)@ + u16_bytes(v, order));
}

/// Appends the encoding of a 32-bit unsigned integer.
pub fn put_u32(out: &mut Vec<u8>, v: u32, order: ByteOrder)
    ensures
        final(out)@ == old(out)@ + u32_bytes(v, order),
{
    let b0 = (v % 0x100) as u8;
    let b1 = ((v / 0x100) % 0x100) as u8;
    let b2 = ((v / 0x1_0000) % 0x100) as u8;
    let b3 = (v / 0x100_0000) as u8;
    match order {
        ByteOrder::Little => {
            out.push(b0);
            out.push(b1);
            out.push(b2);
            out.push(b3);
        },
        ByteOrder::Big => {
            out.push(b3);
            out.push(b2);
            out.push(b1);
            out.push(b0);
        },
    }
    assert(out@ =~= old(out)@ + u32_bytes(v, order));
}

/// Appends the encoding of a 64-bit unsigned integer.
pub fn put_u64(out: &mut Vec<u8>, v: u64, order: ByteOrder)
    ensures
        final(out)@ == old(out)@ + u64_bytes(v, order),
{
    let lo = (v % 0x1_0000_0000) as u32;
    let hi = (v / 0x1_0000_0000) as u32;
    match order {
        ByteOrder::Little => {
            put_u32(out, lo, order);
            put_u32(out, hi, order);
        },
        ByteOrder::Big => {
            put_u32(out, hi, order);
            put_u32(out, lo, order);
        },
    }
    assert(out@ =~= old(out)@ + u64_bytes(v, order));
}

/// Appends one byte holding a signed number.
pub fn put_i8(out: &mut Vec<u8>, v: i8)
    ensures
        final(out)@ == old(out)@ + seq![unsigned8(v)],
{
    put_u8(out, to_unsigned8(v));
}

/// Appends the encoding of a 16-bit signed integer.
pub fn put_i16(out: &mut Vec<u8>, v: i16, order: ByteOrder)
    ensures
        final(out)@ == old(out)@ + u16_bytes(unsigned16(v), order),
{
    put_u16(out, to_unsigned16(v), order);
}

/// Appends the encoding of a 32-bit signed integer.
pub fn put_i32(out: &mut Vec<u8>, v: i32, order: ByteOrder)
    ensures
        final(out)@ == old(out)@ + u32_bytes(unsigned32(v), order),
{
    put_u32(out, to_unsigned32(v), order);
}

/// Appends the encoding of a 64-bit signed integer.
pub fn put_i64(out: &mut Vec<u8>, v: i64, order: ByteOrder)
    ensures
        final(out)@ == old(out)@ + u64_bytes(unsigned64(v), order),
{
    put_u64(out, to_unsigned64(v), order);
}

/// The four bytes that encode a single-precision number.
pub open spec fn f32_bytes(v: Float32, order: ByteOrder) -> Seq<u8> {
    u32_bytes(v.bits, order)
}

/// The eight bytes that encode a double-precision number.
pub open spec fn f64_bytes(v: Float64, order: ByteOrder) -> Seq<u8> {
    u64_bytes(v.bits, order)
}

/// Appends the encoding of a single-precision number.
pub fn put_f32(out: &mut Vec<u8>, v: Float32, order: ByteOrder)
    ensures
        final(out)@ == old(out)@ + f32_bytes(v, order),
{
    put_u32(out, v.bits, order);
}

/// Appends the encoding of a double-precision number.
pub fn put_f64(out: &mut Vec<u8>, v: Float64, order: ByteOrder)
    ensures
        final(out)@ == old(out)@ + f64_bytes(v, order),
{
    put_u64(out, v.bits, order);
}

// ---------------------------------------------------------------------
// Reading back what was written
// ---------------------------------------------------------------------

/// Two byte strings between a prefix and a suffix can be bracketed around
/// either of them.
pub proof fn lemma_split2(pre: Seq<u8>, a: Seq<u8>, b: Seq<u8>, post: Seq<u8>)
    ensures
        pre + (a + b) + post == pre + a + (b + post),
        pre + (a + b) + post == (pre + a) + b + post,
{
    assert(pre + (a + b) + post =~= pre + a + (b + post));
    assert(pre + (a + b) + post =~= (pre + a) + b + post);
}

/// Three byte strings between a prefix and a suffix can be bracketed
/// around any one of them.
pub proof fn lemma_split3(pre: Seq<u8>, a: Seq<u8>, b: Seq<u8>, c: Seq<u8>, post: Seq<u8>)
    ensures
        pre + (a + b + c) + post == pre + a + (b + c + post),
        pre + (a + b + c) + post == (pre + a) + b + (c + post),
        pre + (a + b + c) + post == (pre + a + b) + c + post,
{
    assert(pre + (a + b + c) + post =~= pre + a + (b + c + post));
    assert(pre + (a + b + c) + post =~= (pre + a) + b + (c + post));
    assert(pre + (a + b + c) + post =~= (pre + a + b) + c + post);
}

/// Four byte strings between a prefix and a suffix can be bracketed
/// around any one of them.
pub proof fn lemma_split4(
    pre: Seq<u8>,
    a: Seq<u8>,
    b: Seq<u8>,
    c: Seq<u8>,
    d: Seq<u8>,
    post: Seq<u8>,
)
    ensures
        pre + (a + b + c + d) + post == pre + a + (b + c + d + post),
        pre + (a + b + c + d) + post == (pre + a) + b + (c + d + post),
        pre + (a + b + c + d) + post == (pre + a + b) + c + (d + post),
        pre + (a + b + c + d) + post == (pre + a + b + c) + d + post,
{
    assert(pre + (a + b + c + d) + post =~= pre + a + (b + c + d + post));
    assert(pre + (a + b + c + d) + post =~= (pre + a) + b + (c + d + post));
    assert(pre + (a + b + c + d) + post =~= (pre + a + b) + c + (d + post));
    assert(pre + (a + b + c + d) + post =~= (pre + a + b + c) + d + post);
}

/// A byte written anywhere in a buffer is the byte found there.
pub proof fn lemma_u8_round_trip(v: u8, pre: Seq<u8>, post: Seq<u8>)
    ensures
        (pre + seq![v] + post)[pre.len() as int] == v,
{
}

/// A 16-bit integer encoded in either byte order, wherever it stands in a
/// buffer, decodes to itself.
pub proof fn lemma_u16_round_trip(v: u16, order: ByteOrder, pre: Seq<u8>, post: Seq<u8>)
    ensures
        u16_bytes(v, order).len() == 2,
        u16_at(pre + u16_bytes(v, order) + post, pre.len() as int, order) == v,
{
    let b = u16_bytes(v, order);
    let s = pre + b + post;
    assert(s[pre.len() as int] == b[0]);
    assert(s[pre.len() as int + 1] == b[1]);
}

/// A 32-bit integer encoded in either byte order, wherever it stands in a
/// buffer, decodes to itself.
pub proof fn lemma_u32_round_trip(v: u32, order: ByteOrder, pre: Seq<u8>, post: Seq<u8>)
    ensures
        u32_bytes(v, order).len() == 4,
        u32_at(pre + u32_bytes(v, order) + post, pre.len() as int, order) == v,
{
    let b = u32_bytes(v, order);
    let s = pre + b + post;
    assert(s[pre.len() as int] == b[0]);
    assert(s[pre.len() as int + 1] == b[1]);
    assert(s[pre.len() as int + 2] == b[2]);
    assert(s[pre.len() as int + 3] == b[3]);
}

/// A 64-bit integer encoded in either byte order, wherever it stands in a
/// buffer, decodes to itself.
pub proof fn lemma_u64_round_trip(v: u64, order: ByteOrder, pre: Seq<u8>, post: Seq<u8>)
    ensures
        u64_bytes(v, order).len() == 8,
        u64_at(pre + u64_bytes(v, order) + post, pre.len() as int, order) == v,
{
    let lo = (v % 0x1_0000_0000) as u32;
    let hi = (v / 0x1_0000_0000) as u32;
    let s = pre + u64_bytes(v, order) + post;
    match order {
        ByteOrder::Little => {
            lemma_u32_round_trip(lo, order, pre, u32_bytes(hi, order) + post);
            lemma_u32_round_trip(hi, order, pre + u32_bytes(lo, order), post);
            assert(s =~= pre + u32_bytes(lo, order) + (u32_bytes(hi, order) + post));
            assert(s =~= (pre + u32_bytes(lo, order)) + u32_bytes(hi, order) + post);
        },
        ByteOrder::Big => {
            lemma_u32_round_trip(hi, order, pre, u32_bytes(lo, order) + post);
            lemma_u32_round_trip(lo, order, pre + u32_bytes(hi, order), post);
            assert(s =~= pre + u32_bytes(hi, order) + (u32_bytes(lo, order) + post));
            assert(s =~= (pre + u32_bytes(hi, order)) + u32_bytes(lo, order) + post);
        },
    }
}

/// A signed byte, wherever it stands in a buffer, decodes to itself.
pub proof fn lemma_i8_round_trip(v: i8, pre: Seq<u8>, post: Seq<u8>)
    ensures
        signed8((pre + seq![unsigned8(v)] + post)[pre.len() as int]) == v,
{
}

/// A signed 16-bit integer encoded in either byte order, wherever it
/// stands in a buffer, decodes to itself.
pub proof fn lemma_i16_round_trip(v: i16, order: ByteOrder, pre: Seq<u8>, post: Seq<u8>)
    ensures
        signed16(u16_at(pre + u16_bytes(unsigned16(v), order) + post, pre.len() as int, order))
            == v,
{
    lemma_u16_round_trip(unsigned16(v), order, pre, post);
}

/// A signed 32-bit integer encoded in either byte order, wherever it
/// stands in a buffer, decodes to itself.
pub proof fn lemma_i32_round_trip(v: i32, order: ByteOrder, pre: Seq<u8>, post: Seq<u8>)
    ensures
        signed32(u32_at(pre + u32_bytes(unsigned32(v), order) + post, pre.len() as int, order))
            == v,
{
    lemma_u32_round_trip(unsigned32(v), order, pre, post);
}

/// A signed 64-bit integer encoded in either byte order, wherever it
/// stands in a buffer, decodes to itself.
pub proof fn lemma_i64_round_trip(v: i64, order: ByteOrder, pre: Seq<u8>, post: Seq<u8>)
    ensures
        signed64(u64_at(pre + u64_bytes(unsigned64(v), order) + post, pre.len() as int, order))
            == v,
{
    lemma_u64_round_trip(unsigned64(v), order, pre, post);
}

/// A single-precision number encoded in either byte order, wherever it
/// stands in a buffer, decodes to itself.
pub proof fn lemma_f32_round_trip(v: Float32, order: ByteOrder, pre: Seq<u8>, post: Seq<u8>)
    ensures
        f32_bytes(v, order).len() == 4,
        f32_at(pre + f32_bytes(v, order) + post, pre.len() as int, order) == v,
{
    lemma_u32_round_trip(v.bits, order, pre, post);
}

/// A double-precision number encoded in either byte order, wherever it
/// stands in a buffer, decodes to itself.
pub proof fn lemma_f64_round_trip(v: Float64, order: ByteOrder, pre: Seq<u8>, post: Seq<u8>)
    ensures
        f64_bytes(v, order).len() == 8,
        f64_at(pre + f64_bytes(v, order) + post, pre.len() as int, order) == v,
{
    lemma_u64_round_trip(v.bits, order, pre, post);
}

// ---------------------------------------------------------------------
// Reading at a position
// ---------------------------------------------------------------------
//
// These read a field whose bytes are known to be there, as the fields of a
// record are once the size of the record was checked. The cursor is the
// reader that checks.

/// The byte at `at`.
pub fn get_u8(buf: &[u8], at: usize) -> (r: u8)
    requires
        at < buf@.len(),
    ensures
        r == buf@[at as int],
{
    buf[at]
}

/// The 16-bit unsigned integer at `at`.
pub fn get_u16(buf: &[u8], at: usize, order: ByteOrder) -> (r: u16)
    requires
        at + 2 <= buf@.len(),
    ensures
        r == u16_at(buf@, at as int, order),
{
    match Cursor::at(buf, at).read_u16(order) {
        Ok(v) => v,
        Err(_) => unreached(),
    }
}

/// The 16-bit signed integer at `at`.
pub fn get_i16(buf: &[u8], at: usize, order: ByteOrder) -> (r: i16)
    requires
        at + 2 <= buf@.len(),
    ensures
        r == signed16(u16_at(buf@, at as int, order)),
{
    to_signed16(get_u16(buf, at, order))
}

/// The 32-bit unsigned integer at `at`.
pub fn get_u32(buf: &[u8], at: usize, order: ByteOrder) -> (r: u32)
    requires
        at + 4 <= buf@.len(),
    ensures
        r == u32_at(buf@, at as int, order),
{
    match Cursor::at(buf, at).read_u32(order) {
        Ok(v) => v,
        Err(_) => unreached(),
    }
}

/// The 32-bit signed integer at `at`.
pub fn get_i32(buf: &[u8], at: usize, order: ByteOrder) -> (r: i32)
    requires
        at + 4 <= buf@.len(),
    ensures
        r == signed32(u32_at(buf@, at as int, order)),
{
    to_signed32(get_u32(buf, at, order))
}

/// The single-precision number at `at`.
pub fn get_f32(buf: &[u8], at: usize, order: ByteOrder) -> (r: Float32)
    requires
        at + 4 <= buf@.len(),
    ensures
        r == f32_at(buf@, at as int, order),
{
    Float32 { bits: get_u32(buf, at, order) }
}

/// The four bytes at `at`, as they stand.
pub fn get_quad(buf: &[u8], at: usize) -> (r: [u8; 4])
    requires
        at + 4 <= buf@.len(),
    ensures
        r == quad_at(buf@, at as int),
{
    [buf[at], buf[at + 1], buf[at + 2], buf[at + 3]]
}

/// The four bytes of `s` starting at `at`, as an array.
pub open spec fn quad_at(s: Seq<u8>, at: int) -> [u8; 4] {
    [s[at], s[at + 1], s[at + 2], s[at + 3]]
}

} // verus!
