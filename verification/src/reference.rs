//! Records, their versions, and the resolution of references to runs of
//! records.
//!
//! A record type has one layout per supported version. A reference names a
//! run of records elsewhere in the buffer; resolving it decodes the run
//! into an owned vector, so that no offset survives decoding.

use vstd::prelude::*;
use crate::error::{DecodeError, VersionRange};
use crate::primitives::{fixed_read, Cursor};

verus! {

/// No record is wider than this many bytes.
pub const MAX_STRIDE: usize = 0xFFFF;

/// A logical entity that is stored in one of several versioned layouts of
/// fixed size.
pub trait Record: Sized {
    /// Whether the record has a layout for `version`.
    spec fn supports(version: u32) -> bool;

    /// The least and the greatest supported version.
    spec fn supported_range() -> VersionRange;

    /// The size in bytes of one record laid out as `version` says.
    spec fn stride(version: u32) -> nat;

    /// The record found in `data` at `at`, laid out as `version` says.
    spec fn value_at(data: Seq<u8>, at: int, version: u32) -> Self;

    /// The version whose layout the record was decoded from.
    spec fn version_of(&self) -> u32;

    /// Supported versions lie in the supported range, and their layouts
    /// are neither empty nor wider than `MAX_STRIDE`.
    proof fn lemma_layout(version: u32)
        requires
            Self::supports(version),
        ensures
            Self::supported_range().contains(version),
            0 < Self::stride(version) <= MAX_STRIDE,
    ;

    /// A record decoded as `version` is tagged with `version`.
    proof fn lemma_tagged(data: Seq<u8>, at: int, version: u32)
        requires
            Self::supports(version),
        ensures
            Self::value_at(data, at, version).version_of() == version,
    ;

    /// The least and the greatest supported version.
    fn range() -> (r: VersionRange)
        ensures
            r == Self::supported_range(),
    ;

    /// The size of one record of `version`, or `None` for a version
    /// without a layout.
    fn width(version: u32) -> (w: Option<usize>)
        ensures
            Self::supports(version) ==> w == Some(Self::stride(version) as usize),
            !Self::supports(version) ==> w.is_none(),
    ;

    /// Decodes the record that lies at `at`, laid out as `version` says.
    fn get(buf: &[u8], at: usize, version: u32) -> (r: Self)
        requires
            Self::supports(version),
            at + Self::stride(version) <= buf@.len() <= usize::MAX,
        ensures
            r == Self::value_at(buf@, at as int, version),
    ;
}

/// Reads one record of a supported version: the record is decoded where
/// the cursor stands, and the cursor moves past it; where the buffer ends
/// before the record does, nothing is read.
pub(crate) fn read_whole<T: Record>(cur: &mut Cursor, version: u32) -> (r: Result<T, DecodeError>)
    requires
        T::supports(version),
    ensures
        fixed_read(
            *old(cur),
            *final(cur),
            r,
            T::stride(version),
            T::value_at(old(cur).buf@, old(cur).pos as int, version),
        ),
{
    proof {
        T::lemma_layout(version);
    }
    let width = match T::width(version) {
        Some(width) => width,
        None => unreached(),
    };
    if !cur.has(width) {
        return Err(DecodeError::UnexpectedEof);
    }
    let record = T::get(cur.buf, cur.pos, version);
    cur.seek(cur.position() + width);
    Ok(record)
}

/// Decodes one record whose discriminant is `version`.
///
/// A version without a layout is refused with `UnsupportedVersion`; no
/// other layout is tried in its place. With a supported version the record
/// is read whole or, where bytes are missing, not at all.
pub fn decode_record<T: Record>(cur: &mut Cursor, version: u32) -> (r: Result<T, DecodeError>)
    ensures
        !T::supports(version) ==> r == Err::<T, DecodeError>(
            DecodeError::UnsupportedVersion { got: version, supported_range: T::supported_range() },
        ) && *final(cur) == *old(cur),
        T::supports(version) ==> fixed_read(
            *old(cur),
            *final(cur),
            r,
            T::stride(version),
            T::value_at(old(cur).buf@, old(cur).pos as int, version),
        ),
        r.is_ok() ==> r.unwrap().version_of() == version,
{
    match T::width(version) {
        None => Err(
            DecodeError::UnsupportedVersion { got: version, supported_range: T::range() },
        ),
        Some(_) => {
            proof {
                T::lemma_tagged(cur.buf@, cur.pos as int, version);
            }
            read_whole(cur, version)
        },
    }
}

/// A run of records elsewhere in the buffer: `entries` records that start
/// at `index`.
#[derive(Clone, Copy, Debug, PartialEq, Eq, Structural)]
pub struct Reference {
    pub entries: u32,
    pub index: u32,
    pub flags: u32,
}

/// How the `index` of a reference addresses the buffer.
#[derive(Clone, Copy, Debug, PartialEq, Eq, Structural)]
pub enum Addressing {
    /// `index` is a byte offset from `base`.
    ByteOffset { base: u32 },
    /// `index` counts records of the referenced type from `base`.
    RecordIndex { base: u32 },
}

/// The ceiling on the number of records that one decode may resolve, and
/// the number resolved so far.
#[derive(Clone, Copy, Debug, PartialEq, Eq, Structural)]
pub struct Budget {
    pub limit: u64,
    pub used: u64,
}

impl Budget {
    /// A budget of `limit` records, none of them used.
    pub fn new(limit: u64) -> (b: Self)
        ensures
            b.limit == limit,
            b.used == 0,
    {
        Budget { limit, used: 0 }
    }

    /// Whether `count` more records fit under the ceiling.
    pub open spec fn admits(&self, count: nat) -> bool {
        self.used + count <= self.limit
    }

    /// The budget after `count` more records.
    pub open spec fn charged(&self, count: nat) -> Budget {
        Budget { limit: self.limit, used: (self.used + count) as u64 }
    }
}

/// The byte offset at which the run of a reference starts.
pub open spec fn run_start(reference: Reference, addressing: Addressing, stride: nat) -> int {
    match addressing {
        Addressing::ByteOffset { base } => base + reference.index,
        Addressing::RecordIndex { base } => base + reference.index * stride,
    }
}

/// The byte offset at which the run of a reference ends.
pub open spec fn run_end(reference: Reference, addressing: Addressing, stride: nat) -> int {
    run_start(reference, addressing, stride) + reference.entries * stride
}

/// Whether a reference can be resolved: its records have a layout, its
/// run lies inside a buffer of `length` bytes, and its records fit under
/// the ceiling.
pub open spec fn resolvable<T: Record>(
    length: nat,
    reference: Reference,
    addressing: Addressing,
    version: u32,
    budget: Budget,
) -> bool {
    &&& T::supports(version)
    &&& run_end(reference, addressing, T::stride(version)) <= length
    &&& budget.admits(reference.entries as nat)
}

/// Whether `records` are the `count` records of `version` that lie in
/// `data` one after the other from `start` on.
pub open spec fn is_run<T: Record>(
    records: Seq<T>,
    data: Seq<u8>,
    start: int,
    count: nat,
    version: u32,
) -> bool {
    &&& records.len() == count
    &&& forall|i: int|
        0 <= i < count ==> #[trigger] records[i] == T::value_at(
            data,
            start + i * T::stride(version),
            version,
        )
}

/// Resolves a reference into the records it names.
///
/// The checks are made in this order. A version without a layout is
/// refused with `UnsupportedVersion`. A run that ends beyond the buffer is
/// refused with `ReferenceOutOfBounds`, whose `offset` is the start of the
/// run. A run that would take the number of resolved records above the
/// ceiling is refused with `RecordLimitExceeded`. Otherwise exactly
/// `entries` records are decoded, and the budget is charged with them.
/// A refusal leaves the budget as it was.
pub fn resolve<T: Record>(
    buf: &[u8],
    reference: &Reference,
    addressing: Addressing,
    version: u32,
    budget: &mut Budget,
) -> (r: Result<Vec<T>, DecodeError>)
    ensures
        match r {
            Ok(records) => {
                &&& resolvable::<T>(buf@.len(), *reference, addressing, version, *old(budget))
                &&& is_run(
                    records@,
                    buf@,
                    run_start(*reference, addressing, T::stride(version)),
                    reference.entries as nat,
                    version,
                )
                &&& *final(budget) == old(budget).charged(reference.entries as nat)
            },
            Err(e) => {
                &&& *final(budget) == *old(budget)
                &&& e == resolve_refusal::<T>(
                    buf@.len(),
                    *reference,
                    addressing,
                    version,
                    *old(budget),
                )
                &&& !resolvable::<T>(buf@.len(), *reference, addressing, version, *old(budget))
            },
        },
{
    let stride = match T::width(version) {
        None => {
            return Err(
                DecodeError::UnsupportedVersion { got: version, supported_range: T::range() },
            );
        },
        Some(w) => w,
    };
    proof {
        T::lemma_layout(version);
    }
    let entries = reference.entries;
    let start: u64 = match addressing {
        Addressing::ByteOffset { base } => base as u64 + reference.index as u64,
        Addressing::RecordIndex { base } => {
            assert(reference.index * stride <= 0xFFFF_FFFF * 0xFFFF) by (nonlinear_arith)
                requires
                    reference.index <= 0xFFFF_FFFF,
                    stride <= 0xFFFF,
            ;
            base as u64 + reference.index as u64 * stride as u64
        },
    };
    assert(entries * stride <= 0xFFFF_FFFF * 0xFFFF) by (nonlinear_arith)
        requires
            entries <= 0xFFFF_FFFF,
            stride <= 0xFFFF,
    ;
    let end: u64 = start + entries as u64 * stride as u64;
    let length = buf.len();
    if end > length as u64 {
        return Err(DecodeError::ReferenceOutOfBounds { offset: start, length: length as u64 });
    }
    if budget.used > budget.limit || entries as u64 > budget.limit - budget.used {
        return Err(DecodeError::RecordLimitExceeded { limit: budget.limit });
    }
    let mut records: Vec<T> = Vec::new();
    let first = start as usize;
    let mut i: u32 = 0;
    while i < entries
        invariant
            i <= entries,
            T::supports(version),
            stride == T::stride(version),
            0 < stride <= MAX_STRIDE,
            first == start,
            end == start + entries * stride,
            end <= buf@.len() <= usize::MAX,
            is_run(records@, buf@, start as int, i as nat, version),
        decreases entries - i,
    {
        assert(start + (i + 1) * stride <= end) by (nonlinear_arith)
            requires
                i < entries,
                end == start + entries * stride,
                stride > 0,
        ;
        assert((i + 1) * stride == i * stride + stride) by (nonlinear_arith);
        assert(0 <= i * stride) by (nonlinear_arith)
            requires
                0 <= i,
                0 <= stride,
        ;
        let ghost before = records@;
        let record = T::get(buf, first + i as usize * stride, version);
        records.push(record);
        assert forall|k: int| 0 <= k < i + 1 implies #[trigger] records@[k] == T::value_at(
            buf@,
            start + k * T::stride(version),
            version,
        ) by {
            if k < i {
                assert(records@[k] == before[k]);
            }
        }
        i = i + 1;
    }
    budget.used = budget.used + entries as u64;
    Ok(records)
}

/// The error with which a reference that cannot be resolved is refused.
pub open spec fn resolve_refusal<T: Record>(
    length: nat,
    reference: Reference,
    addressing: Addressing,
    version: u32,
    budget: Budget,
) -> DecodeError {
    if !T::supports(version) {
        DecodeError::UnsupportedVersion { got: version, supported_range: T::supported_range() }
    } else if run_end(reference, addressing, T::stride(version)) > length {
        DecodeError::ReferenceOutOfBounds {
            offset: run_start(reference, addressing, T::stride(version)) as u64,
            length: length as u64,
        }
    } else {
        DecodeError::RecordLimitExceeded { limit: budget.limit }
    }
}

} // verus!
