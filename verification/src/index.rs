//! Indices whose width on the wire is chosen per file.
//!
//! A file that holds few elements stores its indices in one byte, a larger
//! one in two or four. The width is read from the file's settings and
//! handed to the reader with every call.

use vstd::prelude::*;
use crate::error::DecodeError;
use crate::primitives::{
    fixed_read, le_u16_at, le_u32_at, signed16, signed32, signed8, ByteOrder, Cursor,
};

verus! {

/// Whether `width` is a width that an index can have.
pub open spec fn valid_width(width: u8) -> bool {
    width == 1 || width == 2 || width == 4
}

/// The index of `width` bytes found in `s` at `at`, in little-endian order.
/// A signed index is sign-extended; an unsigned one of one or two bytes is
/// zero-extended. Four bytes are read as a two's-complement number either
/// way.
pub open spec fn index_at(s: Seq<u8>, at: int, width: u8, signed: bool) -> i32 {
    if width == 1 {
        if signed {
            signed8(s[at]) as i32
        } else {
            s[at] as i32
        }
    } else if width == 2 {
        if signed {
            signed16(le_u16_at(s, at)) as i32
        } else {
            le_u16_at(s, at) as i32
        }
    } else {
        signed32(le_u32_at(s, at))
    }
}

/// Reads an index of `width` bytes. A width other than 1, 2 or 4 is
/// rejected before anything is read.
pub fn read_index(cur: &mut Cursor, width: u8, signed: bool) -> (r: Result<i32, DecodeError>)
    ensures
        !valid_width(width) ==> r == Err::<i32, DecodeError>(
            DecodeError::InvalidWidth,
        ) && *final(cur) == *old(cur),
        valid_width(width) ==> fixed_read(
            *old(cur),
            *final(cur),
            r,
            width as nat,
            index_at(old(cur).buf@, old(cur).pos as int, width, signed),
        ),
{
    if width == 1 {
        if signed {
            let v = cur.read_i8()?;
            Ok(v as i32)
        } else {
            let v = cur.read_u8()?;
            Ok(v as i32)
        }
    } else if width == 2 {
        if signed {
            let v = cur.read_i16(ByteOrder::Little)?;
            Ok(v as i32)
        } else {
            let v = cur.read_u16(ByteOrder::Little)?;
            Ok(v as i32)
        }
    } else if width == 4 {
        cur.read_i32(ByteOrder::Little)
    } else {
        Err(DecodeError::InvalidWidth)
    }
}

/// The narrowest index width for a collection of `count` elements: one byte
/// below 255 elements, two bytes below 65534, four bytes otherwise.
pub open spec fn index_size_for(count: u32) -> u8 {
    if count < 255 {
        1
    } else if count < 65534 {
        2
    } else {
        4
    }
}

/// Chooses the index width for a collection of `count` elements.
pub fn determine_index_size(count: u32) -> (width: u8)
    ensures
        width == index_size_for(count),
        valid_width(width),
{
    if count < 255 {
        return 1;
    }
    if count < 65534 {
        return 2;
    }
    4
}

/// Every position in a collection, read back through a signed index of the
/// width chosen for the collection's size, is that position: the width is
/// wide enough, and the sentinel -1 stays free.
pub proof fn lemma_index_size_fits(count: u32, position: u32)
    requires
        position < count,
        count <= 0x7FFF_FFFF,
    ensures
        index_size_for(count) == 1 ==> position < 0x7F + 0x80 && position != 0xFF,
        index_size_for(count) == 2 ==> position < 0xFFFF,
        index_size_for(count) == 4 ==> position <= 0x7FFF_FFFF,
{
}

/// Whether `indices` are the `count` indices of `width` bytes that lie in
/// `data` one after the other from `start` on.
pub open spec fn is_index_run(
    indices: Seq<i32>,
    data: Seq<u8>,
    start: int,
    count: nat,
    width: u8,
    signed: bool,
) -> bool {
    &&& indices.len() == count
    &&& forall|i: int|
        0 <= i < count ==> #[trigger] indices[i] == index_at(data, start + i * width, width, signed)
}

/// Reads `count` indices of `width` bytes each.
///
/// A run of no indices reads nothing and succeeds whatever the width.
/// Otherwise a width other than 1, 2 or 4 is refused with `InvalidWidth`,
/// and a run that the buffer does not hold in full with `UnexpectedEof`.
/// A refusal leaves the cursor where it was.
pub fn read_indices(cur: &mut Cursor, count: u32, width: u8, signed: bool) -> (r: Result<
    Vec<i32>,
    DecodeError,
>)
    ensures
        final(cur).buf == old(cur).buf,
        match r {
            Ok(indices) => {
                &&& count == 0 || valid_width(width)
                &&& count == 0 || old(cur).can_read(count as nat * width as nat)
                &&& is_index_run(
                    indices@,
                    old(cur).buf@,
                    old(cur).pos as int,
                    count as nat,
                    width,
                    signed,
                )
                &&& if count == 0 {
                    final(cur).pos == old(cur).pos
                } else {
                    final(cur).pos == old(cur).pos + count * width
                }
            },
            Err(e) => {
                &&& count != 0
                &&& final(cur).pos == old(cur).pos
                &&& if !valid_width(width) {
                    e == DecodeError::InvalidWidth
                } else {
                    e == DecodeError::UnexpectedEof && !old(cur).can_read(
                        count as nat * width as nat,
                    )
                }
            },
        },
{
    let mut indices: Vec<i32> = Vec::new();
    if count == 0 {
        return Ok(indices);
    }
    if !(width == 1 || width == 2 || width == 4) {
        return Err(DecodeError::InvalidWidth);
    }
    assert(count * width <= 0xFFFF_FFFF * 4) by (nonlinear_arith)
        requires
            count <= 0xFFFF_FFFF,
            width <= 4,
    ;
    let total: u64 = count as u64 * width as u64;
    if total > cur.left() as u64 {
        return Err(DecodeError::UnexpectedEof);
    }
    let ghost start = cur.pos as int;
    let mut i: u32 = 0;
    while i < count
        invariant
            i <= count,
            valid_width(width),
            cur.buf == old(cur).buf,
            start == old(cur).pos,
            cur.pos == start + i * width,
            start + count * width <= cur.buf@.len(),
            is_index_run(indices@, cur.buf@, start, i as nat, width, signed),
        decreases count - i,
    {
        assert(start + (i + 1) * width <= start + count * width) by (nonlinear_arith)
            requires
                i < count,
                width > 0,
        ;
        assert((i + 1) * width == i * width + width) by (nonlinear_arith);
        let ghost before = indices@;
        let index = match read_index(cur, width, signed) {
            Ok(index) => index,
            Err(e) => {
                return Err(e);
            },
        };
        indices.push(index);
        assert forall|k: int| 0 <= k < i + 1 implies #[trigger] indices@[k] == index_at(
            cur.buf@,
            start + k * width,
            width,
            signed,
        ) by {
            if k < i {
                assert(indices@[k] == before[k]);
            }
        }
        i = i + 1;
    }
    Ok(indices)
}

} // verus!
