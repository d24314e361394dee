//! The records of the model format whose arrays are pairs of a count and
//! a byte offset.
//!
//! An `Array` is this format's reference: `size` elements that start at
//! the byte `offset` of the file. All numbers are little-endian.

use vstd::prelude::*;
use crate::error::VersionRange;
use crate::primitives::{get_u16, get_u32, le_u16_at, le_u32_at, ByteOrder};
use crate::reference::{Addressing, Record, Reference};

verus! {

/// The flags of a model.
#[derive(Clone, Copy, Debug, PartialEq, Eq, Structural)]
pub struct GlobalFlags {
    pub bits: u32,
}

impl GlobalFlags {
    /// The model tilts about the x axis.
    pub const TILT_X: u32 = 0x00000001;

    /// The model tilts about the y axis.
    pub const TILT_Y: u32 = 0x00000002;

    /// Texture combiner combinations are stored.
    pub const USE_TEXTURE_COMBINER_COMBOS: u32 = 0x00000008;

    /// Physics data is loaded.
    pub const LOAD_PHYS_DATA: u32 = 0x00000020;

    /// The model has to do with a camera.
    pub const CAMERA_RELATED: u32 = 0x00000100;

    /// Particles are stored in the newer record.
    pub const NEW_PARTICLE_RECORD: u32 = 0x00000200;

    /// Texture transforms follow the sequences of the bones.
    pub const TEXTURE_TRANSFORMS_USE_BONE_SEQUENCES: u32 = 0x00000800;

    /// Every bit that the format declares.
    pub const MASK: u32 = 0x00000B2B;

    /// The bits that are set outside the declared mask.
    pub open spec fn spec_reserved(&self) -> u32 {
        self.bits & !Self::MASK
    }

    /// Whether no bit is set outside the declared mask.
    pub open spec fn spec_is_valid(&self) -> bool {
        self.spec_reserved() == 0
    }

    /// Whether every bit of `flag` is set.
    pub open spec fn spec_contains(&self, flag: u32) -> bool {
        self.bits & flag == flag
    }

    /// The flag word as it stands, reserved bits included.
    pub fn from_bits_retain(bits: u32) -> (r: Self)
        ensures
            r.bits == bits,
    {
        GlobalFlags { bits }
    }

    /// The flag word, or `None` where a bit outside the declared mask is
    /// set.
    pub fn from_bits(bits: u32) -> (r: Option<Self>)
        ensures
            r == if (GlobalFlags { bits }).spec_is_valid() {
                Some(GlobalFlags { bits })
            } else {
                None
            },
    {
        if bits & !Self::MASK == 0 {
            Some(GlobalFlags { bits })
        } else {
            None
        }
    }

    /// The flag word without the bits outside the declared mask.
    pub fn from_bits_truncate(bits: u32) -> (r: Self)
        ensures
            r.bits == bits & Self::MASK,
            r.spec_is_valid(),
    {
        assert((bits & 0x00000B2Bu32) & !0x00000B2Bu32 == 0) by (bit_vector);
        GlobalFlags { bits: bits & Self::MASK }
    }

    /// The bits that are set outside the declared mask.
    #[verifier::when_used_as_spec(spec_reserved)]
    pub fn reserved(&self) -> (r: u32)
        ensures
            r == self.spec_reserved(),
    {
        self.bits & !Self::MASK
    }

    /// Whether no bit is set outside the declared mask.
    #[verifier::when_used_as_spec(spec_is_valid)]
    pub fn is_valid(&self) -> (r: bool)
        ensures
            r == self.spec_is_valid(),
    {
        self.bits & !Self::MASK == 0
    }

    /// Whether every bit of `flag` is set.
    #[verifier::when_used_as_spec(spec_contains)]
    pub fn contains(&self, flag: u32) -> (r: bool)
        ensures
            r == self.spec_contains(flag),
    {
        self.bits & flag == flag
    }

    /// The model tilts about the x axis.
    pub fn tilt_x(&self) -> (r: bool)
        ensures
            r == self.spec_contains(Self::TILT_X),
    {
        self.contains(Self::TILT_X)
    }

    /// The model tilts about the y axis.
    pub fn tilt_y(&self) -> (r: bool)
        ensures
            r == self.spec_contains(Self::TILT_Y),
    {
        self.contains(Self::TILT_Y)
    }

    /// Texture combiner combinations are stored.
    pub fn use_texture_combiner_combos(&self) -> (r: bool)
        ensures
            r == self.spec_contains(Self::USE_TEXTURE_COMBINER_COMBOS),
    {
        self.contains(Self::USE_TEXTURE_COMBINER_COMBOS)
    }

    /// Physics data is loaded.
    pub fn load_phys_data(&self) -> (r: bool)
        ensures
            r == self.spec_contains(Self::LOAD_PHYS_DATA),
    {
        self.contains(Self::LOAD_PHYS_DATA)
    }

    /// The model has to do with a camera.
    pub fn camera_related(&self) -> (r: bool)
        ensures
            r == self.spec_contains(Self::CAMERA_RELATED),
    {
        self.contains(Self::CAMERA_RELATED)
    }

    /// Particles are stored in the newer record.
    pub fn new_particle_record(&self) -> (r: bool)
        ensures
            r == self.spec_contains(Self::NEW_PARTICLE_RECORD),
    {
        self.contains(Self::NEW_PARTICLE_RECORD)
    }

    /// Texture transforms follow the sequences of the bones.
    pub fn texture_transforms_use_bone_sequences(&self) -> (r: bool)
        ensures
            r == self.spec_contains(Self::TEXTURE_TRANSFORMS_USE_BONE_SEQUENCES),
    {
        self.contains(Self::TEXTURE_TRANSFORMS_USE_BONE_SEQUENCES)
    }
}

/// A run of elements elsewhere in the file.
#[derive(Clone, Copy, Debug, PartialEq, Eq)]
pub struct Array {
    pub size: u32,
    pub offset: u32,
}

impl Record for Array {
    open spec fn supports(version: u32) -> bool {
        version == 0
    }

    open spec fn supported_range() -> VersionRange {
        VersionRange { min: 0, max: 0 }
    }

    open spec fn stride(version: u32) -> nat {
        8
    }

    open spec fn value_at(data: Seq<u8>, at: int, version: u32) -> Self {
        Array {
            size: le_u32_at(data, at),
            offset: le_u32_at(data, at + 4),
        }
    }

    open spec fn version_of(&self) -> u32 {
        0
    }

    proof fn lemma_layout(version: u32) {
    }

    proof fn lemma_tagged(data: Seq<u8>, at: int, version: u32) {
    }

    fn range() -> (r: VersionRange) {
        VersionRange { min: 0, max: 0 }
    }

    fn width(version: u32) -> (w: Option<usize>) {
        if version == 0 {
            Some(8)
        } else {
            None
        }
    }

    fn get(buf: &[u8], at: usize, version: u32) -> (r: Self) {
        Array {
            size: get_u32(buf, at, ByteOrder::Little),
            offset: get_u32(buf, at + 4, ByteOrder::Little),
        }
    }
}

impl Array {
    /// The array as a reference by byte offset.
    pub open spec fn spec_reference(&self) -> Reference {
        Reference { entries: self.size, index: self.offset, flags: 0 }
    }

    /// The array as a reference, to be resolved with `addressing()`.
    #[verifier::when_used_as_spec(spec_reference)]
    pub fn reference(&self) -> (r: Reference)
        ensures
            r == self.spec_reference(),
    {
        Reference { entries: self.size, index: self.offset, flags: 0 }
    }

    /// How the offset of an array addresses the file: in bytes from its
    /// start.
    pub fn addressing() -> (a: Addressing)
        ensures
            a == (Addressing::ByteOffset { base: 0 }),
    {
        Addressing::ByteOffset { base: 0 }
    }
}

/// What an animation track starts with. The first layout pairs the time
/// stamps with interpolation ranges; the second dropped the ranges.
#[derive(Clone, Copy, Debug, PartialEq, Eq)]
pub enum TrackBase {
    V1 {
        interpolation_type: u16,
        global_sequence: u16,
        interpolation_ranges: Array,
        timestamps: Array,
    },
    V2 {
        interpolation_type: u16,
        global_sequence: u16,
        timestamps: Array,
    },
}

impl Record for TrackBase {
    open spec fn supports(version: u32) -> bool {
        1 <= version <= 2
    }

    open spec fn supported_range() -> VersionRange {
        VersionRange { min: 1, max: 2 }
    }

    open spec fn stride(version: u32) -> nat {
        if version == 1 {
            20
        } else {
            12
        }
    }

    open spec fn value_at(data: Seq<u8>, at: int, version: u32) -> Self {
        if version == 1 {
            TrackBase::V1 {
                interpolation_type: le_u16_at(data, at),
                global_sequence: le_u16_at(data, at + 2),
                interpolation_ranges: Array::value_at(data, at + 4, 0),
                timestamps: Array::value_at(data, at + 12, 0),
            }
        } else {
            TrackBase::V2 {
                interpolation_type: le_u16_at(data, at),
                global_sequence: le_u16_at(data, at + 2),
                timestamps: Array::value_at(data, at + 4, 0),
            }
        }
    }

    open spec fn version_of(&self) -> u32 {
        match self {
            TrackBase::V1 { .. } => 1,
            TrackBase::V2 { .. } => 2,
        }
    }

    proof fn lemma_layout(version: u32) {
    }

    proof fn lemma_tagged(data: Seq<u8>, at: int, version: u32) {
    }

    fn range() -> (r: VersionRange) {
        VersionRange { min: 1, max: 2 }
    }

    fn width(version: u32) -> (w: Option<usize>) {
        if version == 1 {
            Some(20)
        } else if version == 2 {
            Some(12)
        } else {
            None
        }
    }

    fn get(buf: &[u8], at: usize, version: u32) -> (r: Self) {
        if version == 1 {
            TrackBase::V1 {
                interpolation_type: get_u16(buf, at, ByteOrder::Little),
                global_sequence: get_u16(buf, at + 2, ByteOrder::Little),
                interpolation_ranges: Array::get(buf, at + 4, 0),
                timestamps: Array::get(buf, at + 12, 0),
            }
        } else {
            TrackBase::V2 {
                interpolation_type: get_u16(buf, at, ByteOrder::Little),
                global_sequence: get_u16(buf, at + 2, ByteOrder::Little),
                timestamps: Array::get(buf, at + 4, 0),
            }
        }
    }
}

/// A track of a particle: times and values.
#[derive(Clone, Copy, Debug, PartialEq, Eq)]
pub struct PartTrack {
    pub times: Array,
    pub values: Array,
}

impl Record for PartTrack {
    open spec fn supports(version: u32) -> bool {
        version == 0
    }

    open spec fn supported_range() -> VersionRange {
        VersionRange { min: 0, max: 0 }
    }

    open spec fn stride(version: u32) -> nat {
        16
    }

    open spec fn value_at(data: Seq<u8>, at: int, version: u32) -> Self {
        PartTrack {
            times: Array::value_at(data, at, 0),
            values: Array::value_at(data, at + 8, 0),
        }
    }

    open spec fn version_of(&self) -> u32 {
        0
    }

    proof fn lemma_layout(version: u32) {
    }

    proof fn lemma_tagged(data: Seq<u8>, at: int, version: u32) {
    }

    fn range() -> (r: VersionRange) {
        VersionRange { min: 0, max: 0 }
    }

    fn width(version: u32) -> (w: Option<usize>) {
        if version == 0 {
            Some(16)
        } else {
            None
        }
    }

    fn get(buf: &[u8], at: usize, version: u32) -> (r: Self) {
        PartTrack {
            times: Array::get(buf, at, 0),
            values: Array::get(buf, at + 8, 0),
        }
    }
}

/// A range of numbers.
#[derive(Clone, Copy, Debug, PartialEq, Eq)]
pub struct Range {
    pub minimum: u32,
    pub maximum: u32,
}

impl Record for Range {
    open spec fn supports(version: u32) -> bool {
        version == 0
    }

    open spec fn supported_range() -> VersionRange {
        VersionRange { min: 0, max: 0 }
    }

    open spec fn stride(version: u32) -> nat {
        8
    }

    open spec fn value_at(data: Seq<u8>, at: int, version: u32) -> Self {
        Range {
            minimum: le_u32_at(data, at),
            maximum: le_u32_at(data, at + 4),
        }
    }

    open spec fn version_of(&self) -> u32 {
        0
    }

    proof fn lemma_layout(version: u32) {
    }

    proof fn lemma_tagged(data: Seq<u8>, at: int, version: u32) {
    }

    fn range() -> (r: VersionRange) {
        VersionRange { min: 0, max: 0 }
    }

    fn width(version: u32) -> (w: Option<usize>) {
        if version == 0 {
            Some(8)
        } else {
            None
        }
    }

    fn get(buf: &[u8], at: usize, version: u32) -> (r: Self) {
        Range {
            minimum: get_u32(buf, at, ByteOrder::Little),
            maximum: get_u32(buf, at + 4, ByteOrder::Little),
        }
    }
}

/// The file that holds an animation.
#[derive(Clone, Copy, Debug, PartialEq, Eq)]
pub struct AnimFileId {
    pub anim_id: u16,
    pub sub_anim_id: u16,
    pub file_id: u32,
}

impl Record for AnimFileId {
    open spec fn supports(version: u32) -> bool {
        version == 0
    }

    open spec fn supported_range() -> VersionRange {
        VersionRange { min: 0, max: 0 }
    }

    open spec fn stride(version: u32) -> nat {
        8
    }

    open spec fn value_at(data: Seq<u8>, at: int, version: u32) -> Self {
        AnimFileId {
            anim_id: le_u16_at(data, at),
            sub_anim_id: le_u16_at(data, at + 2),
            file_id: le_u32_at(data, at + 4),
        }
    }

    open spec fn version_of(&self) -> u32 {
        0
    }

    proof fn lemma_layout(version: u32) {
    }

    proof fn lemma_tagged(data: Seq<u8>, at: int, version: u32) {
    }

    fn range() -> (r: VersionRange) {
        VersionRange { min: 0, max: 0 }
    }

    fn width(version: u32) -> (w: Option<usize>) {
        if version == 0 {
            Some(8)
        } else {
            None
        }
    }

    fn get(buf: &[u8], at: usize, version: u32) -> (r: Self) {
        AnimFileId {
            anim_id: get_u16(buf, at, ByteOrder::Little),
            sub_anim_id: get_u16(buf, at + 2, ByteOrder::Little),
            file_id: get_u32(buf, at + 4, ByteOrder::Little),
        }
    }
}

/// An extension record of particles.
#[derive(Clone, Copy, Debug, PartialEq, Eq)]
pub struct Exp2 {
    pub source: u32,
    pub unk1: u32,
    pub unk2: u32,
    pub unk3: u32,
    pub unk4: u32,
    pub unk5: u32,
    pub unk6: u32,
}

impl Record for Exp2 {
    open spec fn supports(version: u32) -> bool {
        version == 0
    }

    open spec fn supported_range() -> VersionRange {
        VersionRange { min: 0, max: 0 }
    }

    open spec fn stride(version: u32) -> nat {
        28
    }

    open spec fn value_at(data: Seq<u8>, at: int, version: u32) -> Self {
        Exp2 {
            source: le_u32_at(data, at),
            unk1: le_u32_at(data, at + 4),
            unk2: le_u32_at(data, at + 8),
            unk3: le_u32_at(data, at + 12),
            unk4: le_u32_at(data, at + 16),
            unk5: le_u32_at(data, at + 20),
            unk6: le_u32_at(data, at + 24),
        }
    }

    open spec fn version_of(&self) -> u32 {
        0
    }

    proof fn lemma_layout(version: u32) {
    }

    proof fn lemma_tagged(data: Seq<u8>, at: int, version: u32) {
    }

    fn range() -> (r: VersionRange) {
        VersionRange { min: 0, max: 0 }
    }

    fn width(version: u32) -> (w: Option<usize>) {
        if version == 0 {
            Some(28)
        } else {
            None
        }
    }

    fn get(buf: &[u8], at: usize, version: u32) -> (r: Self) {
        Exp2 {
            source: get_u32(buf, at, ByteOrder::Little),
            unk1: get_u32(buf, at + 4, ByteOrder::Little),
            unk2: get_u32(buf, at + 8, ByteOrder::Little),
            unk3: get_u32(buf, at + 12, ByteOrder::Little),
            unk4: get_u32(buf, at + 16, ByteOrder::Little),
            unk5: get_u32(buf, at + 20, ByteOrder::Little),
            unk6: get_u32(buf, at + 24, ByteOrder::Little),
        }
    }
}

/// The data of one level of detail.
#[derive(Clone, Copy, Debug, PartialEq, Eq)]
pub struct LodData {
    pub unk0: u16,
    pub count: u16,
    pub unk2: u32,
    pub unk3: u32,
    pub unk4: u32,
}

impl Record for LodData {
    open spec fn supports(version: u32) -> bool {
        version == 0
    }

    open spec fn supported_range() -> VersionRange {
        VersionRange { min: 0, max: 0 }
    }

    open spec fn stride(version: u32) -> nat {
        16
    }

    open spec fn value_at(data: Seq<u8>, at: int, version: u32) -> Self {
        LodData {
            unk0: le_u16_at(data, at),
            count: le_u16_at(data, at + 2),
            unk2: le_u32_at(data, at + 4),
            unk3: le_u32_at(data, at + 8),
            unk4: le_u32_at(data, at + 12),
        }
    }

    open spec fn version_of(&self) -> u32 {
        0
    }

    proof fn lemma_layout(version: u32) {
    }

    proof fn lemma_tagged(data: Seq<u8>, at: int, version: u32) {
    }

    fn range() -> (r: VersionRange) {
        VersionRange { min: 0, max: 0 }
    }

    fn width(version: u32) -> (w: Option<usize>) {
        if version == 0 {
            Some(16)
        } else {
            None
        }
    }

    fn get(buf: &[u8], at: usize, version: u32) -> (r: Self) {
        LodData {
            unk0: get_u16(buf, at, ByteOrder::Little),
            count: get_u16(buf, at + 2, ByteOrder::Little),
            unk2: get_u32(buf, at + 4, ByteOrder::Little),
            unk3: get_u32(buf, at + 8, ByteOrder::Little),
            unk4: get_u32(buf, at + 12, ByteOrder::Little),
        }
    }
}

} // verus!
