//! The polygon-model format whose files start with `Pmd`: its header.

use vstd::prelude::*;
use vstd::slice::slice_subrange;
use crate::error::DecodeError;
use crate::primitives::{f32_at, ByteOrder, Cursor, Float32};
use crate::text::{field_text16, fixed_utf16, Text, TextView};
use crate::wire::{reads, Trail};

verus! {

/// The number of bytes of the name field.
pub const NAME_SIZE: usize = 20;

/// The number of bytes of the comment field.
pub const COMMENT_SIZE: usize = 256;

/// What a file starts with.
#[derive(Clone, Debug, PartialEq, Eq)]
pub struct Header {
    pub version: Float32,
    pub name: Text,
    pub comment: Text,
}

/// What a `Header` stands for.
pub struct HeaderView {
    pub version: Float32,
    pub name: TextView,
    pub comment: TextView,
}

impl View for Header {
    type V = HeaderView;

    open spec fn view(&self) -> HeaderView {
        HeaderView { version: self.version, name: self.name@, comment: self.comment@ }
    }
}

/// The magic tag of the format: `Pmd`.
pub open spec fn magic() -> Seq<u8> {
    seq![0x50u8, 0x6D, 0x64]
}

/// What the header at `at` holds: the magic tag (`BadMagic` without it),
/// the version, and two fields of fixed width for name and comment, each
/// padded with zero units.
pub open spec fn header_layout(data: Seq<u8>, at: int) -> Result<(HeaderView, int), DecodeError> {
    if !(0 <= at && at + 3 <= data.len() && data.subrange(at, at + 3) == magic()) {
        Err(DecodeError::BadMagic)
    } else {
        Trail::start(at + 3).fixed(data, 280).finish(
            HeaderView {
                version: f32_at(data, at + 3, ByteOrder::Little),
                name: field_text16(data.subrange(at + 7, at + 27), (at + 7) as u64),
                comment: field_text16(data.subrange(at + 27, at + 283), (at + 27) as u64),
            },
        )
    }
}

/// Reads the header of a file.
pub fn header(cur: &mut Cursor) -> (r: Result<Header, DecodeError>)
    ensures
        reads(*old(cur), *final(cur), r, header_layout(old(cur).buf@, old(cur).pos as int)),
{
    let tag: [u8; 3] = [0x50, 0x6D, 0x64];
    assert(tag@ =~= magic());
    cur.expect_tag(tag.as_slice())?;
    if !cur.has(280) {
        return Err(DecodeError::UnexpectedEof);
    }
    let version = cur.read_f32(ByteOrder::Little)?;
    let at = cur.position();
    let name = fixed_utf16(slice_subrange(cur.buf, at, at + NAME_SIZE), at as u64);
    let comment = fixed_utf16(
        slice_subrange(cur.buf, at + NAME_SIZE, at + NAME_SIZE + COMMENT_SIZE),
        (at + NAME_SIZE) as u64,
    );
    cur.seek(at + NAME_SIZE + COMMENT_SIZE);
    Ok(Header { version, name, comment })
}

} // verus!
