//! Failures and non-fatal anomalies reported by the decoders.

use vstd::prelude::*;

verus! {

/// An inclusive range of record versions.
#[derive(Clone, Copy, Debug, PartialEq, Eq, Structural)]
pub struct VersionRange {
    pub min: u32,
    pub max: u32,
}

impl VersionRange {
    /// Whether `version` lies inside the range.
    pub open spec fn spec_contains(&self, version: u32) -> bool {
        self.min <= version <= self.max
    }

    #[verifier::when_used_as_spec(spec_contains)]
    pub fn contains(&self, version: u32) -> (r: bool)
        ensures
            r == self.spec_contains(version),
    {
        self.min <= version && version <= self.max
    }
}

/// A structural failure: the whole decode is abandoned and no partial
/// result is returned.
#[derive(Clone, Copy, Debug, PartialEq, Eq, Structural)]
pub enum DecodeError {
    /// The buffer does not start with the magic tag of the format.
    BadMagic,
    /// Fewer bytes remain than the value being read occupies.
    UnexpectedEof,
    /// The discriminant selects no layout of the record.
    UnsupportedVersion { got: u32, supported_range: VersionRange },
    /// A reference points outside the buffer; `offset` is the first byte the
    /// reference addresses and `length` the length of the buffer.
    ReferenceOutOfBounds { offset: u64, length: u64 },
    /// An index width other than 1, 2 or 4 bytes.
    InvalidWidth,
    /// Resolving a reference would take the number of resolved records
    /// above the ceiling set for the decode.
    RecordLimitExceeded { limit: u64 },
}

/// The collections of a model that records refer into by index.
#[derive(Clone, Copy, Debug, PartialEq, Eq, Structural)]
pub enum Collection {
    Bones,
    BoneLookup,
    Attachments,
    Objects,
    Regions,
    MaterialReferences,
}

/// A semantic anomaly: decoding went on, and the anomaly is handed to the
/// caller next to the model.
#[derive(Clone, Copy, Debug, PartialEq, Eq, Structural)]
pub enum Warning {
    /// A section whose type the schema does not know was kept as raw bytes.
    UnknownSection { section_type: u32, offset: u64 },
    /// A section whose records have a version outside the supported range
    /// was kept as raw bytes.
    UnsupportedSection { section_type: u32, version: u32 },
    /// Record number `record` of `owner` holds `index`, which is no
    /// position in `target`.
    DanglingIndex { owner: Collection, record: u64, target: Collection, index: i64 },
    /// Malformed text was decoded with replacement characters; `position`
    /// is where the text starts in the buffer.
    TextSubstitution { position: u64 },
    /// A flag word had bits set outside the declared mask.
    ReservedFlags { value: u32, mask: u32 },
}

} // verus!
