//! The pose-and-mesh format whose files start with the number 323232.

use vstd::prelude::*;
use crate::error::DecodeError;
use crate::primitives::{le_u16_at, ByteOrder, Cursor};
use crate::text::{decode_text, decoded, Encoding, Text};
use crate::wire::{reads, Trail};

verus! {

/// What a file starts with.
#[derive(Clone, Copy, Debug, PartialEq, Eq, Structural)]
pub struct Header {
    pub version_major: u16,
    pub version_minor: u16,
}

impl View for Header {
    type V = Header;

    open spec fn view(&self) -> Header {
        *self
    }
}

impl Header {
    /// Whether files of this version store tangents.
    pub open spec fn spec_is_tangent(&self) -> bool {
        self.version_major <= 1 && self.version_minor <= 12
    }

    /// Whether files of this version store tangents.
    #[verifier::when_used_as_spec(spec_is_tangent)]
    pub fn is_tangent(&self) -> (r: bool)
        ensures
            r == self.spec_is_tangent(),
    {
        self.version_major <= 1 && self.version_minor <= 12
    }
}

/// The magic tag of the format: the number 323232 in little-endian order.
pub open spec fn magic() -> Seq<u8> {
    seq![160u8, 238, 4, 0]
}

/// What the header at `at` holds: the magic tag (`BadMagic` without it)
/// and the two halves of the version.
pub open spec fn header_layout(data: Seq<u8>, at: int) -> Result<(Header, int), DecodeError> {
    if !(0 <= at && at + 4 <= data.len() && data.subrange(at, at + 4) == magic()) {
        Err(DecodeError::BadMagic)
    } else {
        Trail::start(at + 4).fixed(data, 4).finish(
            Header {
                version_major: le_u16_at(data, at + 4),
                version_minor: le_u16_at(data, at + 6),
            },
        )
    }
}

/// Reads the header of a file.
pub fn header(cur: &mut Cursor) -> (r: Result<Header, DecodeError>)
    ensures
        reads(*old(cur), *final(cur), r, header_layout(old(cur).buf@, old(cur).pos as int)),
{
    let tag: [u8; 4] = [160, 238, 4, 0];
    assert(tag@ =~= magic());
    cur.expect_tag(tag.as_slice())?;
    if !cur.has(4) {
        return Err(DecodeError::UnexpectedEof);
    }
    let version_major = cur.read_u16(ByteOrder::Little)?;
    let version_minor = cur.read_u16(ByteOrder::Little)?;
    Ok(Header { version_major, version_minor })
}

/// The number of bytes of the string whose length prefix starts at `at`:
/// the low seven bits of the first byte, and, where its high bit is set,
/// 128 times the second byte on top.
pub open spec fn string_len(data: Seq<u8>, at: int) -> nat {
    if data[at] >= 128 {
        (data[at] % 128 + data[at + 1] * 128) as nat
    } else {
        data[at] as nat
    }
}

/// The number of bytes of the length prefix that starts at `at`.
pub open spec fn prefix_len(data: Seq<u8>, at: int) -> nat {
    if data[at] >= 128 {
        2
    } else {
        1
    }
}

/// What the string at `at` holds: a length prefix of one or two bytes and
/// that many bytes of UTF-8.
pub open spec fn string_layout(data: Seq<u8>, at: int) -> Result<
    (crate::text::TextView, int),
    DecodeError,
> {
    let t1 = Trail::start(at).fixed(data, 1);
    let t2 = t1.fixed(data, (prefix_len(data, at) - 1) as nat);
    let t3 = t2.fixed(data, string_len(data, at));
    t3.finish(
        decoded(data.subrange(t2.at, t2.at + string_len(data, at)), Encoding::Utf8, at as u64),
    )
}

/// Reads a string with a length prefix of one or two bytes.
pub fn string(cur: &mut Cursor) -> (r: Result<Text, DecodeError>)
    ensures
        reads(*old(cur), *final(cur), r, string_layout(old(cur).buf@, old(cur).pos as int)),
{
    let start = cur.position();
    let len1 = cur.read_u8()?;
    let length: usize = if len1 >= 128 {
        let len2 = cur.read_u8()?;
        (len1 % 128) as usize + len2 as usize * 128
    } else {
        len1 as usize
    };
    if !cur.has(length) {
        return Err(DecodeError::UnexpectedEof);
    }
    let begin = cur.position();
    let bytes = vstd::slice::slice_subrange(cur.buf, begin, begin + length);
    cur.seek(begin + length);
    Ok(decode_text(bytes, Encoding::Utf8, start as u64))
}

} // verus!
