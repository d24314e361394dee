//! Records of variable size: what it means to read field after field, and
//! runs of such records behind a count.
//!
//! A record that holds strings, or fields whose presence or width depends
//! on what was read before, has no fixed size. Its layout is stated as a
//! `Trail`: the position after each field, or the failure of the first
//! field that could not be read. The value of a field is then a function
//! of the bytes and of the position at which the trail reached it.

use vstd::prelude::*;
use crate::error::{DecodeError, VersionRange};
use crate::index::valid_width;
use crate::primitives::{le_u32_at, Cursor};

verus! {

/// How far a decode has come, or why it stopped.
pub struct Trail {
    pub at: int,
    pub failure: Option<DecodeError>,
}

impl Trail {
    /// A decode that starts at `at`.
    pub open spec fn start(at: int) -> Trail {
        Trail { at, failure: None }
    }

    /// Whether every field so far could be read.
    pub open spec fn ok(self) -> bool {
        self.failure.is_none()
    }

    /// The trail that has failed with `e` where it stands.
    pub open spec fn failed(self, e: DecodeError) -> Trail {
        Trail { at: self.at, failure: Some(e) }
    }

    /// Past a field of `n` bytes; `UnexpectedEof` where the buffer ends
    /// before the field does.
    pub open spec fn fixed(self, data: Seq<u8>, n: nat) -> Trail {
        if !self.ok() {
            self
        } else if self.at + n <= data.len() {
            Trail { at: self.at + n, failure: None }
        } else {
            self.failed(DecodeError::UnexpectedEof)
        }
    }

    /// Past an index of `width` bytes; `InvalidWidth` where the width is
    /// none that an index can have.
    pub open spec fn index(self, data: Seq<u8>, width: u8) -> Trail {
        if !self.ok() {
            self
        } else if !valid_width(width) {
            self.failed(DecodeError::InvalidWidth)
        } else {
            self.fixed(data, width as nat)
        }
    }

    /// Past a string with a 32-bit length prefix.
    pub open spec fn string(self, data: Seq<u8>) -> Trail {
        let counted = self.fixed(data, 4);
        counted.fixed(data, le_u32_at(data, self.at) as nat)
    }

    /// Past a discriminant whose value `got` has to lie in the range from
    /// `min` to `max`; `UnsupportedVersion` where it does not. The
    /// discriminant itself has been read already.
    pub open spec fn within(self, got: u32, min: u32, max: u32) -> Trail {
        if !self.ok() || min <= got <= max {
            self
        } else {
            self.failed(
                DecodeError::UnsupportedVersion {
                    got,
                    supported_range: VersionRange { min, max },
                },
            )
        }
    }

    /// Past a part of the record that was decoded by itself.
    pub open spec fn past<V>(self, part: Result<(V, int), DecodeError>) -> Trail {
        if !self.ok() {
            self
        } else {
            match part {
                Ok((_, end)) => Trail { at: end, failure: None },
                Err(e) => self.failed(e),
            }
        }
    }

    /// The outcome of a decode that has come to its end: the value and
    /// the position behind it, or the failure.
    pub open spec fn finish<V>(self, value: V) -> Result<(V, int), DecodeError> {
        match self.failure {
            Some(e) => Err(e),
            None => Ok((value, self.at)),
        }
    }
}

/// A part that is there only where `present` holds: the part as it is
/// decoded at `at`, or nothing and no byte read.
pub open spec fn optional<V>(present: bool, at: int, body: Result<(V, int), DecodeError>) -> Result<
    (Option<V>, int),
    DecodeError,
> {
    if present {
        match body {
            Ok((v, end)) => Ok((Some(v), end)),
            Err(e) => Err(e),
        }
    } else {
        Ok((None, at))
    }
}

/// The value of a part that was decoded by itself.
pub open spec fn part<V>(r: Result<(V, int), DecodeError>) -> V {
    match r {
        Ok((v, _)) => v,
        Err(_) => arbitrary(),
    }
}

/// How a read relates the cursor before and after it to what the layout
/// says: the value that was read stands for the value that the layout
/// gives, and the cursor is behind it; or the read fails as the layout
/// says. The buffer stays the same either way.
pub open spec fn reads<T: View>(
    before: Cursor,
    after: Cursor,
    r: Result<T, DecodeError>,
    layout: Result<(T::V, int), DecodeError>,
) -> bool {
    &&& after.buf == before.buf
    &&& match r {
        Ok(v) => layout == Ok::<(T::V, int), DecodeError>((v@, after.pos as int)),
        Err(e) => layout == Err::<(T::V, int), DecodeError>(e),
    }
}

/// The values that a sequence of exec values stands for.
pub open spec fn seq_views<T: View>(items: Seq<T>) -> Seq<T::V> {
    Seq::new(items.len(), |i: int| items[i]@)
}

} // verus!
