//! The records of the chunked model format that lists its sections in a
//! tag index.
//!
//! Every section of such a file is a run of records of one type and one
//! version. A record refers to other sections by `Reference`, whose
//! `index` is a position in the tag index. All numbers are little-endian.
//! Fields whose meaning is not known keep the names they have in the
//! format's community documentation and are carried through unchanged.
//!
//! The format has no published description. The layouts here follow what
//! its users have worked out; where that is incomplete, the order of the
//! fields is provisional until it has been held against files.

use vstd::prelude::*;
use crate::error::VersionRange;
use crate::flags::BoneFlags;
use crate::primitives::{
    f32_at, get_f32, get_i16, get_i32, get_quad, get_u16, get_u32, get_u8, le_u16_at, le_u32_at,
    quad_at, signed16, signed32, ByteOrder, Float32,
};
use crate::reference::{Record, Reference};

verus! {

// ---------------------------------------------------------------------
// Runs of plain numbers
// ---------------------------------------------------------------------

impl Record for u8 {
    open spec fn supports(version: u32) -> bool {
        version == 0
    }

    open spec fn supported_range() -> VersionRange {
        VersionRange { min: 0, max: 0 }
    }

    open spec fn stride(version: u32) -> nat {
        1
    }

    open spec fn value_at(data: Seq<u8>, at: int, version: u32) -> Self {
        data[at]
    }

    open spec fn version_of(&self) -> u32 {
        0
    }

    proof fn lemma_layout(version: u32) {
    }

    proof fn lemma_tagged(data: Seq<u8>, at: int, version: u32) {
    }

    fn range() -> (r: VersionRange) {
        VersionRange { min: 0, max: 0 }
    }

    fn width(version: u32) -> (w: Option<usize>) {
        if version == 0 {
            Some(1)
        } else {
            None
        }
    }

    fn get(buf: &[u8], at: usize, version: u32) -> (r: Self) {
        get_u8(buf, at)
    }
}

impl Record for u16 {
    open spec fn supports(version: u32) -> bool {
        version == 0
    }

    open spec fn supported_range() -> VersionRange {
        VersionRange { min: 0, max: 0 }
    }

    open spec fn stride(version: u32) -> nat {
        2
    }

    open spec fn value_at(data: Seq<u8>, at: int, version: u32) -> Self {
        le_u16_at(data, at)
    }

    open spec fn version_of(&self) -> u32 {
        0
    }

    proof fn lemma_layout(version: u32) {
    }

    proof fn lemma_tagged(data: Seq<u8>, at: int, version: u32) {
    }

    fn range() -> (r: VersionRange) {
        VersionRange { min: 0, max: 0 }
    }

    fn width(version: u32) -> (w: Option<usize>) {
        if version == 0 {
            Some(2)
        } else {
            None
        }
    }

    fn get(buf: &[u8], at: usize, version: u32) -> (r: Self) {
        get_u16(buf, at, ByteOrder::Little)
    }
}

impl Record for u32 {
    open spec fn supports(version: u32) -> bool {
        version == 0
    }

    open spec fn supported_range() -> VersionRange {
        VersionRange { min: 0, max: 0 }
    }

    open spec fn stride(version: u32) -> nat {
        4
    }

    open spec fn value_at(data: Seq<u8>, at: int, version: u32) -> Self {
        le_u32_at(data, at)
    }

    open spec fn version_of(&self) -> u32 {
        0
    }

    proof fn lemma_layout(version: u32) {
    }

    proof fn lemma_tagged(data: Seq<u8>, at: int, version: u32) {
    }

    fn range() -> (r: VersionRange) {
        VersionRange { min: 0, max: 0 }
    }

    fn width(version: u32) -> (w: Option<usize>) {
        if version == 0 {
            Some(4)
        } else {
            None
        }
    }

    fn get(buf: &[u8], at: usize, version: u32) -> (r: Self) {
        get_u32(buf, at, ByteOrder::Little)
    }
}

impl Record for i16 {
    open spec fn supports(version: u32) -> bool {
        version == 0
    }

    open spec fn supported_range() -> VersionRange {
        VersionRange { min: 0, max: 0 }
    }

    open spec fn stride(version: u32) -> nat {
        2
    }

    open spec fn value_at(data: Seq<u8>, at: int, version: u32) -> Self {
        signed16(le_u16_at(data, at))
    }

    open spec fn version_of(&self) -> u32 {
        0
    }

    proof fn lemma_layout(version: u32) {
    }

    proof fn lemma_tagged(data: Seq<u8>, at: int, version: u32) {
    }

    fn range() -> (r: VersionRange) {
        VersionRange { min: 0, max: 0 }
    }

    fn width(version: u32) -> (w: Option<usize>) {
        if version == 0 {
            Some(2)
        } else {
            None
        }
    }

    fn get(buf: &[u8], at: usize, version: u32) -> (r: Self) {
        get_i16(buf, at, ByteOrder::Little)
    }
}

impl Record for i32 {
    open spec fn supports(version: u32) -> bool {
        version == 0
    }

    open spec fn supported_range() -> VersionRange {
        VersionRange { min: 0, max: 0 }
    }

    open spec fn stride(version: u32) -> nat {
        4
    }

    open spec fn value_at(data: Seq<u8>, at: int, version: u32) -> Self {
        signed32(le_u32_at(data, at))
    }

    open spec fn version_of(&self) -> u32 {
        0
    }

    proof fn lemma_layout(version: u32) {
    }

    proof fn lemma_tagged(data: Seq<u8>, at: int, version: u32) {
    }

    fn range() -> (r: VersionRange) {
        VersionRange { min: 0, max: 0 }
    }

    fn width(version: u32) -> (w: Option<usize>) {
        if version == 0 {
            Some(4)
        } else {
            None
        }
    }

    fn get(buf: &[u8], at: usize, version: u32) -> (r: Self) {
        get_i32(buf, at, ByteOrder::Little)
    }
}

impl Record for Float32 {
    open spec fn supports(version: u32) -> bool {
        version == 0
    }

    open spec fn supported_range() -> VersionRange {
        VersionRange { min: 0, max: 0 }
    }

    open spec fn stride(version: u32) -> nat {
        4
    }

    open spec fn value_at(data: Seq<u8>, at: int, version: u32) -> Self {
        f32_at(data, at, ByteOrder::Little)
    }

    open spec fn version_of(&self) -> u32 {
        0
    }

    proof fn lemma_layout(version: u32) {
    }

    proof fn lemma_tagged(data: Seq<u8>, at: int, version: u32) {
    }

    fn range() -> (r: VersionRange) {
        VersionRange { min: 0, max: 0 }
    }

    fn width(version: u32) -> (w: Option<usize>) {
        if version == 0 {
            Some(4)
        } else {
            None
        }
    }

    fn get(buf: &[u8], at: usize, version: u32) -> (r: Self) {
        get_f32(buf, at, ByteOrder::Little)
    }
}

// ---------------------------------------------------------------------
// Small fixed records
// ---------------------------------------------------------------------

impl Record for Reference {
    open spec fn supports(version: u32) -> bool {
        version == 0
    }

    open spec fn supported_range() -> VersionRange {
        VersionRange { min: 0, max: 0 }
    }

    open spec fn stride(version: u32) -> nat {
        12
    }

    open spec fn value_at(data: Seq<u8>, at: int, version: u32) -> Self {
        Reference {
            entries: le_u32_at(data, at),
            index: le_u32_at(data, at + 4),
            flags: le_u32_at(data, at + 8),
        }
    }

    open spec fn version_of(&self) -> u32 {
        0
    }

    proof fn lemma_layout(version: u32) {
    }

    proof fn lemma_tagged(data: Seq<u8>, at: int, version: u32) {
    }

    fn range() -> (r: VersionRange) {
        VersionRange { min: 0, max: 0 }
    }

    fn width(version: u32) -> (w: Option<usize>) {
        if version == 0 {
            Some(12)
        } else {
            None
        }
    }

    fn get(buf: &[u8], at: usize, version: u32) -> (r: Self) {
        Reference {
            entries: get_u32(buf, at, ByteOrder::Little),
            index: get_u32(buf, at + 4, ByteOrder::Little),
            flags: get_u32(buf, at + 8, ByteOrder::Little),
        }
    }
}

/// Two single-precision numbers.
#[derive(Clone, Copy, Debug, PartialEq, Eq)]
pub struct Vec2 {
    pub x: Float32,
    pub y: Float32,
}

impl Record for Vec2 {
    open spec fn supports(version: u32) -> bool {
        version == 0
    }

    open spec fn supported_range() -> VersionRange {
        VersionRange { min: 0, max: 0 }
    }

    open spec fn stride(version: u32) -> nat {
        8
    }

    open spec fn value_at(data: Seq<u8>, at: int, version: u32) -> Self {
        Vec2 {
            x: f32_at(data, at, ByteOrder::Little),
            y: f32_at(data, at + 4, ByteOrder::Little),
        }
    }

    open spec fn version_of(&self) -> u32 {
        0
    }

    proof fn lemma_layout(version: u32) {
    }

    proof fn lemma_tagged(data: Seq<u8>, at: int, version: u32) {
    }

    fn range() -> (r: VersionRange) {
        VersionRange { min: 0, max: 0 }
    }

    fn width(version: u32) -> (w: Option<usize>) {
        if version == 0 {
            Some(8)
        } else {
            None
        }
    }

    fn get(buf: &[u8], at: usize, version: u32) -> (r: Self) {
        Vec2 {
            x: get_f32(buf, at, ByteOrder::Little),
            y: get_f32(buf, at + 4, ByteOrder::Little),
        }
    }
}

/// Three single-precision numbers.
#[derive(Clone, Copy, Debug, PartialEq, Eq)]
pub struct Vec3 {
    pub x: Float32,
    pub y: Float32,
    pub z: Float32,
}

impl Record for Vec3 {
    open spec fn supports(version: u32) -> bool {
        version == 0
    }

    open spec fn supported_range() -> VersionRange {
        VersionRange { min: 0, max: 0 }
    }

    open spec fn stride(version: u32) -> nat {
        12
    }

    open spec fn value_at(data: Seq<u8>, at: int, version: u32) -> Self {
        Vec3 {
            x: f32_at(data, at, ByteOrder::Little),
            y: f32_at(data, at + 4, ByteOrder::Little),
            z: f32_at(data, at + 8, ByteOrder::Little),
        }
    }

    open spec fn version_of(&self) -> u32 {
        0
    }

    proof fn lemma_layout(version: u32) {
    }

    proof fn lemma_tagged(data: Seq<u8>, at: int, version: u32) {
    }

    fn range() -> (r: VersionRange) {
        VersionRange { min: 0, max: 0 }
    }

    fn width(version: u32) -> (w: Option<usize>) {
        if version == 0 {
            Some(12)
        } else {
            None
        }
    }

    fn get(buf: &[u8], at: usize, version: u32) -> (r: Self) {
        Vec3 {
            x: get_f32(buf, at, ByteOrder::Little),
            y: get_f32(buf, at + 4, ByteOrder::Little),
            z: get_f32(buf, at + 8, ByteOrder::Little),
        }
    }
}

/// Four single-precision numbers.
#[derive(Clone, Copy, Debug, PartialEq, Eq)]
pub struct Vec4 {
    pub x: Float32,
    pub y: Float32,
    pub z: Float32,
    pub w: Float32,
}

impl Record for Vec4 {
    open spec fn supports(version: u32) -> bool {
        version == 0
    }

    open spec fn supported_range() -> VersionRange {
        VersionRange { min: 0, max: 0 }
    }

    open spec fn stride(version: u32) -> nat {
        16
    }

    open spec fn value_at(data: Seq<u8>, at: int, version: u32) -> Self {
        Vec4 {
            x: f32_at(data, at, ByteOrder::Little),
            y: f32_at(data, at + 4, ByteOrder::Little),
            z: f32_at(data, at + 8, ByteOrder::Little),
            w: f32_at(data, at + 12, ByteOrder::Little),
        }
    }

    open spec fn version_of(&self) -> u32 {
        0
    }

    proof fn lemma_layout(version: u32) {
    }

    proof fn lemma_tagged(data: Seq<u8>, at: int, version: u32) {
    }

    fn range() -> (r: VersionRange) {
        VersionRange { min: 0, max: 0 }
    }

    fn width(version: u32) -> (w: Option<usize>) {
        if version == 0 {
            Some(16)
        } else {
            None
        }
    }

    fn get(buf: &[u8], at: usize, version: u32) -> (r: Self) {
        Vec4 {
            x: get_f32(buf, at, ByteOrder::Little),
            y: get_f32(buf, at + 4, ByteOrder::Little),
            z: get_f32(buf, at + 8, ByteOrder::Little),
            w: get_f32(buf, at + 12, ByteOrder::Little),
        }
    }
}

/// A rotation, stored as the four numbers of a quaternion.
pub type Quat = Vec4;

/// A matrix of four columns.
#[derive(Clone, Copy, Debug, PartialEq, Eq)]
pub struct Matrix44 {
    pub x: Vec4,
    pub y: Vec4,
    pub z: Vec4,
    pub w: Vec4,
}

impl Record for Matrix44 {
    open spec fn supports(version: u32) -> bool {
        version == 0
    }

    open spec fn supported_range() -> VersionRange {
        VersionRange { min: 0, max: 0 }
    }

    open spec fn stride(version: u32) -> nat {
        64
    }

    open spec fn value_at(data: Seq<u8>, at: int, version: u32) -> Self {
        Matrix44 {
            x: Vec4::value_at(data, at, 0),
            y: Vec4::value_at(data, at + 16, 0),
            z: Vec4::value_at(data, at + 32, 0),
            w: Vec4::value_at(data, at + 48, 0),
        }
    }

    open spec fn version_of(&self) -> u32 {
        0
    }

    proof fn lemma_layout(version: u32) {
    }

    proof fn lemma_tagged(data: Seq<u8>, at: int, version: u32) {
    }

    fn range() -> (r: VersionRange) {
        VersionRange { min: 0, max: 0 }
    }

    fn width(version: u32) -> (w: Option<usize>) {
        if version == 0 {
            Some(64)
        } else {
            None
        }
    }

    fn get(buf: &[u8], at: usize, version: u32) -> (r: Self) {
        Matrix44 {
            x: Vec4::get(buf, at, 0),
            y: Vec4::get(buf, at + 16, 0),
            z: Vec4::get(buf, at + 32, 0),
            w: Vec4::get(buf, at + 48, 0),
        }
    }
}

/// A direction whose three components are stored as one byte each.
#[derive(Clone, Copy, Debug, PartialEq, Eq)]
pub struct Vector3AsFixed8 {
    pub x: u8,
    pub y: u8,
    pub z: u8,
}

impl Record for Vector3AsFixed8 {
    open spec fn supports(version: u32) -> bool {
        version == 0
    }

    open spec fn supported_range() -> VersionRange {
        VersionRange { min: 0, max: 0 }
    }

    open spec fn stride(version: u32) -> nat {
        3
    }

    open spec fn value_at(data: Seq<u8>, at: int, version: u32) -> Self {
        Vector3AsFixed8 {
            x: data[at],
            y: data[at + 1],
            z: data[at + 2],
        }
    }

    open spec fn version_of(&self) -> u32 {
        0
    }

    proof fn lemma_layout(version: u32) {
    }

    proof fn lemma_tagged(data: Seq<u8>, at: int, version: u32) {
    }

    fn range() -> (r: VersionRange) {
        VersionRange { min: 0, max: 0 }
    }

    fn width(version: u32) -> (w: Option<usize>) {
        if version == 0 {
            Some(3)
        } else {
            None
        }
    }

    fn get(buf: &[u8], at: usize, version: u32) -> (r: Self) {
        Vector3AsFixed8 {
            x: get_u8(buf, at),
            y: get_u8(buf, at + 1),
            z: get_u8(buf, at + 2),
        }
    }
}

/// A texture coordinate whose two components are stored as 16-bit integers.
#[derive(Clone, Copy, Debug, PartialEq, Eq)]
pub struct Vector2AsInt16 {
    pub x: i16,
    pub y: i16,
}

impl Record for Vector2AsInt16 {
    open spec fn supports(version: u32) -> bool {
        version == 0
    }

    open spec fn supported_range() -> VersionRange {
        VersionRange { min: 0, max: 0 }
    }

    open spec fn stride(version: u32) -> nat {
        4
    }

    open spec fn value_at(data: Seq<u8>, at: int, version: u32) -> Self {
        Vector2AsInt16 {
            x: signed16(le_u16_at(data, at)),
            y: signed16(le_u16_at(data, at + 2)),
        }
    }

    open spec fn version_of(&self) -> u32 {
        0
    }

    proof fn lemma_layout(version: u32) {
    }

    proof fn lemma_tagged(data: Seq<u8>, at: int, version: u32) {
    }

    fn range() -> (r: VersionRange) {
        VersionRange { min: 0, max: 0 }
    }

    fn width(version: u32) -> (w: Option<usize>) {
        if version == 0 {
            Some(4)
        } else {
            None
        }
    }

    fn get(buf: &[u8], at: usize, version: u32) -> (r: Self) {
        Vector2AsInt16 {
            x: get_i16(buf, at, ByteOrder::Little),
            y: get_i16(buf, at + 2, ByteOrder::Little),
        }
    }
}

/// A color stored as blue, green, red, alpha.
#[derive(Clone, Copy, Debug, PartialEq, Eq)]
pub struct Col {
    pub blue: u8,
    pub green: u8,
    pub red: u8,
    pub alpha: u8,
}

impl Record for Col {
    open spec fn supports(version: u32) -> bool {
        version == 0
    }

    open spec fn supported_range() -> VersionRange {
        VersionRange { min: 0, max: 0 }
    }

    open spec fn stride(version: u32) -> nat {
        4
    }

    open spec fn value_at(data: Seq<u8>, at: int, version: u32) -> Self {
        Col {
            blue: data[at],
            green: data[at + 1],
            red: data[at + 2],
            alpha: data[at + 3],
        }
    }

    open spec fn version_of(&self) -> u32 {
        0
    }

    proof fn lemma_layout(version: u32) {
    }

    proof fn lemma_tagged(data: Seq<u8>, at: int, version: u32) {
    }

    fn range() -> (r: VersionRange) {
        VersionRange { min: 0, max: 0 }
    }

    fn width(version: u32) -> (w: Option<usize>) {
        if version == 0 {
            Some(4)
        } else {
            None
        }
    }

    fn get(buf: &[u8], at: usize, version: u32) -> (r: Self) {
        Col {
            blue: get_u8(buf, at),
            green: get_u8(buf, at + 1),
            red: get_u8(buf, at + 2),
            alpha: get_u8(buf, at + 3),
        }
    }
}

/// A bounding box with the radius of its enclosing sphere.
#[derive(Clone, Copy, Debug, PartialEq, Eq)]
pub struct Bnds {
    pub min: Vec3,
    pub max: Vec3,
    pub radius: Float32,
}

impl Record for Bnds {
    open spec fn supports(version: u32) -> bool {
        version == 0
    }

    open spec fn supported_range() -> VersionRange {
        VersionRange { min: 0, max: 0 }
    }

    open spec fn stride(version: u32) -> nat {
        28
    }

    open spec fn value_at(data: Seq<u8>, at: int, version: u32) -> Self {
        Bnds {
            min: Vec3::value_at(data, at, 0),
            max: Vec3::value_at(data, at + 12, 0),
            radius: f32_at(data, at + 24, ByteOrder::Little),
        }
    }

    open spec fn version_of(&self) -> u32 {
        0
    }

    proof fn lemma_layout(version: u32) {
    }

    proof fn lemma_tagged(data: Seq<u8>, at: int, version: u32) {
    }

    fn range() -> (r: VersionRange) {
        VersionRange { min: 0, max: 0 }
    }

    fn width(version: u32) -> (w: Option<usize>) {
        if version == 0 {
            Some(28)
        } else {
            None
        }
    }

    fn get(buf: &[u8], at: usize, version: u32) -> (r: Self) {
        Bnds {
            min: Vec3::get(buf, at, 0),
            max: Vec3::get(buf, at + 12, 0),
            radius: get_f32(buf, at + 24, ByteOrder::Little),
        }
    }
}

/// What every animation reference starts with.
#[derive(Clone, Copy, Debug, PartialEq, Eq)]
pub struct AnimationReferenceHeader {
    pub interpolation_type: u16,
    pub anim_flags: u16,
    pub anim_id: u32,
}

impl Record for AnimationReferenceHeader {
    open spec fn supports(version: u32) -> bool {
        version == 0
    }

    open spec fn supported_range() -> VersionRange {
        VersionRange { min: 0, max: 0 }
    }

    open spec fn stride(version: u32) -> nat {
        8
    }

    open spec fn value_at(data: Seq<u8>, at: int, version: u32) -> Self {
        AnimationReferenceHeader {
            interpolation_type: le_u16_at(data, at),
            anim_flags: le_u16_at(data, at + 2),
            anim_id: le_u32_at(data, at + 4),
        }
    }

    open spec fn version_of(&self) -> u32 {
        0
    }

    proof fn lemma_layout(version: u32) {
    }

    proof fn lemma_tagged(data: Seq<u8>, at: int, version: u32) {
    }

    fn range() -> (r: VersionRange) {
        VersionRange { min: 0, max: 0 }
    }

    fn width(version: u32) -> (w: Option<usize>) {
        if version == 0 {
            Some(8)
        } else {
            None
        }
    }

    fn get(buf: &[u8], at: usize, version: u32) -> (r: Self) {
        AnimationReferenceHeader {
            interpolation_type: get_u16(buf, at, ByteOrder::Little),
            anim_flags: get_u16(buf, at + 2, ByteOrder::Little),
            anim_id: get_u32(buf, at + 4, ByteOrder::Little),
        }
    }
}

/// One line of the tag index: a section of `repetitions` records of the type
/// `tag` and the version `version`, starting at byte `offset`.
#[derive(Clone, Copy, Debug, PartialEq, Eq)]
pub struct IndexEntry {
    pub tag: [u8; 4],
    pub offset: u32,
    pub repetitions: u32,
    pub version: u32,
}

impl Record for IndexEntry {
    open spec fn supports(version: u32) -> bool {
        version == 0
    }

    open spec fn supported_range() -> VersionRange {
        VersionRange { min: 0, max: 0 }
    }

    open spec fn stride(version: u32) -> nat {
        16
    }

    open spec fn value_at(data: Seq<u8>, at: int, version: u32) -> Self {
        IndexEntry {
            tag: quad_at(data, at),
            offset: le_u32_at(data, at + 4),
            repetitions: le_u32_at(data, at + 8),
            version: le_u32_at(data, at + 12),
        }
    }

    open spec fn version_of(&self) -> u32 {
        0
    }

    proof fn lemma_layout(version: u32) {
    }

    proof fn lemma_tagged(data: Seq<u8>, at: int, version: u32) {
    }

    fn range() -> (r: VersionRange) {
        VersionRange { min: 0, max: 0 }
    }

    fn width(version: u32) -> (w: Option<usize>) {
        if version == 0 {
            Some(16)
        } else {
            None
        }
    }

    fn get(buf: &[u8], at: usize, version: u32) -> (r: Self) {
        IndexEntry {
            tag: get_quad(buf, at),
            offset: get_u32(buf, at + 4, ByteOrder::Little),
            repetitions: get_u32(buf, at + 8, ByteOrder::Little),
            version: get_u32(buf, at + 12, ByteOrder::Little),
        }
    }
}

/// The key frames of one animated value: the times of the frames and the
/// values at those times, each in a section of its own.
#[derive(Clone, Copy, Debug, PartialEq, Eq)]
pub struct AnimationBlock {
    pub frames: Reference,
    pub flags: u32,
    pub fend: u32,
    pub keys: Reference,
}

impl Record for AnimationBlock {
    open spec fn supports(version: u32) -> bool {
        version == 0
    }

    open spec fn supported_range() -> VersionRange {
        VersionRange { min: 0, max: 0 }
    }

    open spec fn stride(version: u32) -> nat {
        32
    }

    open spec fn value_at(data: Seq<u8>, at: int, version: u32) -> Self {
        AnimationBlock {
            frames: Reference::value_at(data, at, 0),
            flags: le_u32_at(data, at + 12),
            fend: le_u32_at(data, at + 16),
            keys: Reference::value_at(data, at + 20, 0),
        }
    }

    open spec fn version_of(&self) -> u32 {
        0
    }

    proof fn lemma_layout(version: u32) {
    }

    proof fn lemma_tagged(data: Seq<u8>, at: int, version: u32) {
    }

    fn range() -> (r: VersionRange) {
        VersionRange { min: 0, max: 0 }
    }

    fn width(version: u32) -> (w: Option<usize>) {
        if version == 0 {
            Some(32)
        } else {
            None
        }
    }

    fn get(buf: &[u8], at: usize, version: u32) -> (r: Self) {
        AnimationBlock {
            frames: Reference::get(buf, at, 0),
            flags: get_u32(buf, at + 12, ByteOrder::Little),
            fend: get_u32(buf, at + 16, ByteOrder::Little),
            keys: Reference::get(buf, at + 20, 0),
        }
    }
}

/// The key frames of events.
pub type Sdev = AnimationBlock;

/// The key frames of vectors of two numbers.
pub type Sd2v = AnimationBlock;

/// The key frames of vectors of three numbers.
pub type Sd3v = AnimationBlock;

/// The key frames of single numbers.
pub type Sdr3 = AnimationBlock;

/// The key frames of colors.
pub type Sdcc = AnimationBlock;

/// The key frames of signed 16-bit numbers.
pub type Sds6 = AnimationBlock;

/// The key frames of unsigned 16-bit numbers.
pub type Sdu6 = AnimationBlock;

/// The key frames of unsigned 32-bit numbers.
pub type Sdu3 = AnimationBlock;

/// The key frames of rotations.
pub type Sd4q = AnimationBlock;

/// The key frames of flags.
pub type Sdfg = AnimationBlock;

/// The key frames of bounds.
pub type Sdmb = AnimationBlock;

// ---------------------------------------------------------------------
// Animation references
// ---------------------------------------------------------------------

/// A value that an animation may drive: its value at rest, its value where
/// no animation applies, and the animation that drives it. The type of the
/// value is the discriminant; it is known from the field that holds the
/// reference, and numbered here in the order of the variants.
#[derive(Clone, Copy, Debug, PartialEq, Eq)]
#[allow(inconsistent_fields)]
pub enum AnimationReference {
    Vector3 {
        header: AnimationReferenceHeader,
        init: Vec3,
        null: Vec3,
        unknown: i32,
    },
    Vector2 {
        header: AnimationReferenceHeader,
        init: Vec2,
        null: Vec2,
        unknown: i32,
    },
    Quaternion {
        header: AnimationReferenceHeader,
        init: Vec4,
        null: Vec4,
        unknown: i32,
    },
    UInt32 {
        header: AnimationReferenceHeader,
        init: u32,
        null: u32,
        unknown: i32,
    },
    UInt16 {
        header: AnimationReferenceHeader,
        init: u16,
        null: u16,
        unknown: i32,
    },
    Int16 {
        header: AnimationReferenceHeader,
        init: i16,
        null: i16,
        unknown: i32,
    },
    UInt8 {
        header: AnimationReferenceHeader,
        init: u8,
        null: u8,
        unknown: i32,
    },
    Float {
        header: AnimationReferenceHeader,
        init: Float32,
        null: Float32,
        unknown: i32,
    },
    Unknown4Byte {
        header: AnimationReferenceHeader,
        init: [u8; 4],
        null: [u8; 4],
        unknown: i32,
    },
    Color {
        header: AnimationReferenceHeader,
        init: Col,
        null: Col,
        unknown: i32,
    },
    Bnds {
        header: AnimationReferenceHeader,
        init: Bnds,
        null: Bnds,
        unknown: i32,
    },
}

impl AnimationReference {
    pub const VECTOR3: u32 = 0;

    pub const VECTOR2: u32 = 1;

    pub const QUATERNION: u32 = 2;

    pub const UINT32: u32 = 3;

    pub const UINT16: u32 = 4;

    pub const INT16: u32 = 5;

    pub const UINT8: u32 = 6;

    pub const FLOAT: u32 = 7;

    pub const UNKNOWN_4_BYTE: u32 = 8;

    pub const COLOR: u32 = 9;

    pub const BNDS: u32 = 10;
}

impl AnimationReference {
    /// Decodes the layout `Vector3` at `at`.
    fn get_vector3(buf: &[u8], at: usize) -> (r: Self)
        requires
            at + 36 <= buf@.len() <= usize::MAX,
        ensures
            r == Self::value_at(buf@, at as int, 0),
    {
        AnimationReference::Vector3 {
            header: AnimationReferenceHeader::get(buf, at, 0),
            init: Vec3::get(buf, at + 8, 0),
            null: Vec3::get(buf, at + 20, 0),
            unknown: get_i32(buf, at + 32, ByteOrder::Little),
        }
    }

    /// Decodes the layout `Vector2` at `at`.
    fn get_vector2(buf: &[u8], at: usize) -> (r: Self)
        requires
            at + 28 <= buf@.len() <= usize::MAX,
        ensures
            r == Self::value_at(buf@, at as int, 1),
    {
        AnimationReference::Vector2 {
            header: AnimationReferenceHeader::get(buf, at, 0),
            init: Vec2::get(buf, at + 8, 0),
            null: Vec2::get(buf, at + 16, 0),
            unknown: get_i32(buf, at + 24, ByteOrder::Little),
        }
    }

    /// Decodes the layout `Quaternion` at `at`.
    fn get_quaternion(buf: &[u8], at: usize) -> (r: Self)
        requires
            at + 44 <= buf@.len() <= usize::MAX,
        ensures
            r == Self::value_at(buf@, at as int, 2),
    {
        AnimationReference::Quaternion {
            header: AnimationReferenceHeader::get(buf, at, 0),
            init: Vec4::get(buf, at + 8, 0),
            null: Vec4::get(buf, at + 24, 0),
            unknown: get_i32(buf, at + 40, ByteOrder::Little),
        }
    }

    /// Decodes the layout `UInt32` at `at`.
    fn get_uint32(buf: &[u8], at: usize) -> (r: Self)
        requires
            at + 20 <= buf@.len() <= usize::MAX,
        ensures
            r == Self::value_at(buf@, at as int, 3),
    {
        AnimationReference::UInt32 {
            header: AnimationReferenceHeader::get(buf, at, 0),
            init: get_u32(buf, at + 8, ByteOrder::Little),
            null: get_u32(buf, at + 12, ByteOrder::Little),
            unknown: get_i32(buf, at + 16, ByteOrder::Little),
        }
    }

    /// Decodes the layout `UInt16` at `at`.
    fn get_uint16(buf: &[u8], at: usize) -> (r: Self)
        requires
            at + 16 <= buf@.len() <= usize::MAX,
        ensures
            r == Self::value_at(buf@, at as int, 4),
    {
        AnimationReference::UInt16 {
            header: AnimationReferenceHeader::get(buf, at, 0),
            init: get_u16(buf, at + 8, ByteOrder::Little),
            null: get_u16(buf, at + 10, ByteOrder::Little),
            unknown: get_i32(buf, at + 12, ByteOrder::Little),
        }
    }

    /// Decodes the layout `Int16` at `at`.
    fn get_int16(buf: &[u8], at: usize) -> (r: Self)
        requires
            at + 16 <= buf@.len() <= usize::MAX,
        ensures
            r == Self::value_at(buf@, at as int, 5),
    {
        AnimationReference::Int16 {
            header: AnimationReferenceHeader::get(buf, at, 0),
            init: get_i16(buf, at + 8, ByteOrder::Little),
            null: get_i16(buf, at + 10, ByteOrder::Little),
            unknown: get_i32(buf, at + 12, ByteOrder::Little),
        }
    }

    /// Decodes the layout `UInt8` at `at`.
    fn get_uint8(buf: &[u8], at: usize) -> (r: Self)
        requires
            at + 14 <= buf@.len() <= usize::MAX,
        ensures
            r == Self::value_at(buf@, at as int, 6),
    {
        AnimationReference::UInt8 {
            header: AnimationReferenceHeader::get(buf, at, 0),
            init: get_u8(buf, at + 8),
            null: get_u8(buf, at + 9),
            unknown: get_i32(buf, at + 10, ByteOrder::Little),
        }
    }

    /// Decodes the layout `Float` at `at`.
    fn get_float(buf: &[u8], at: usize) -> (r: Self)
        requires
            at + 20 <= buf@.len() <= usize::MAX,
        ensures
            r == Self::value_at(buf@, at as int, 7),
    {
        AnimationReference::Float {
            header: AnimationReferenceHeader::get(buf, at, 0),
            init: get_f32(buf, at + 8, ByteOrder::Little),
            null: get_f32(buf, at + 12, ByteOrder::Little),
            unknown: get_i32(buf, at + 16, ByteOrder::Little),
        }
    }

    /// Decodes the layout `Unknown4Byte` at `at`.
    fn get_unknown4_byte(buf: &[u8], at: usize) -> (r: Self)
        requires
            at + 20 <= buf@.len() <= usize::MAX,
        ensures
            r == Self::value_at(buf@, at as int, 8),
    {
        AnimationReference::Unknown4Byte {
            header: AnimationReferenceHeader::get(buf, at, 0),
            init: get_quad(buf, at + 8),
            null: get_quad(buf, at + 12),
            unknown: get_i32(buf, at + 16, ByteOrder::Little),
        }
    }

    /// Decodes the layout `Color` at `at`.
    fn get_color(buf: &[u8], at: usize) -> (r: Self)
        requires
            at + 20 <= buf@.len() <= usize::MAX,
        ensures
            r == Self::value_at(buf@, at as int, 9),
    {
        AnimationReference::Color {
            header: AnimationReferenceHeader::get(buf, at, 0),
            init: Col::get(buf, at + 8, 0),
            null: Col::get(buf, at + 12, 0),
            unknown: get_i32(buf, at + 16, ByteOrder::Little),
        }
    }

    /// Decodes the layout `Bnds` at `at`.
    fn get_bnds(buf: &[u8], at: usize) -> (r: Self)
        requires
            at + 68 <= buf@.len() <= usize::MAX,
        ensures
            r == Self::value_at(buf@, at as int, 10),
    {
        AnimationReference::Bnds {
            header: AnimationReferenceHeader::get(buf, at, 0),
            init: Bnds::get(buf, at + 8, 0),
            null: Bnds::get(buf, at + 36, 0),
            unknown: get_i32(buf, at + 64, ByteOrder::Little),
        }
    }
}

impl Record for AnimationReference {
    open spec fn supports(version: u32) -> bool {
        version <= 10
    }

    open spec fn supported_range() -> VersionRange {
        VersionRange { min: 0, max: 10 }
    }

    open spec fn stride(version: u32) -> nat {
        if version == 0 {
            36
        } else if version == 1 {
            28
        } else if version == 2 {
            44
        } else if version == 3 || version == 7 || version == 8 || version == 9 {
            20
        } else if version == 4 || version == 5 {
            16
        } else if version == 6 {
            14
        } else {
            68
        }
    }

    open spec fn value_at(data: Seq<u8>, at: int, version: u32) -> Self {
        if version == 0 {
            AnimationReference::Vector3 {
                header: AnimationReferenceHeader::value_at(data, at, 0),
                init: Vec3::value_at(data, at + 8, 0),
                null: Vec3::value_at(data, at + 20, 0),
                unknown: signed32(le_u32_at(data, at + 32)),
            }
        } else if version == 1 {
            AnimationReference::Vector2 {
                header: AnimationReferenceHeader::value_at(data, at, 0),
                init: Vec2::value_at(data, at + 8, 0),
                null: Vec2::value_at(data, at + 16, 0),
                unknown: signed32(le_u32_at(data, at + 24)),
            }
        } else if version == 2 {
            AnimationReference::Quaternion {
                header: AnimationReferenceHeader::value_at(data, at, 0),
                init: Vec4::value_at(data, at + 8, 0),
                null: Vec4::value_at(data, at + 24, 0),
                unknown: signed32(le_u32_at(data, at + 40)),
            }
        } else if version == 3 {
            AnimationReference::UInt32 {
                header: AnimationReferenceHeader::value_at(data, at, 0),
                init: le_u32_at(data, at + 8),
                null: le_u32_at(data, at + 12),
                unknown: signed32(le_u32_at(data, at + 16)),
            }
        } else if version == 4 {
            AnimationReference::UInt16 {
                header: AnimationReferenceHeader::value_at(data, at, 0),
                init: le_u16_at(data, at + 8),
                null: le_u16_at(data, at + 10),
                unknown: signed32(le_u32_at(data, at + 12)),
            }
        } else if version == 5 {
            AnimationReference::Int16 {
                header: AnimationReferenceHeader::value_at(data, at, 0),
                init: signed16(le_u16_at(data, at + 8)),
                null: signed16(le_u16_at(data, at + 10)),
                unknown: signed32(le_u32_at(data, at + 12)),
            }
        } else if version == 6 {
            AnimationReference::UInt8 {
                header: AnimationReferenceHeader::value_at(data, at, 0),
                init: data[at + 8],
                null: data[at + 9],
                unknown: signed32(le_u32_at(data, at + 10)),
            }
        } else if version == 7 {
            AnimationReference::Float {
                header: AnimationReferenceHeader::value_at(data, at, 0),
                init: f32_at(data, at + 8, ByteOrder::Little),
                null: f32_at(data, at + 12, ByteOrder::Little),
                unknown: signed32(le_u32_at(data, at + 16)),
            }
        } else if version == 8 {
            AnimationReference::Unknown4Byte {
                header: AnimationReferenceHeader::value_at(data, at, 0),
                init: quad_at(data, at + 8),
                null: quad_at(data, at + 12),
                unknown: signed32(le_u32_at(data, at + 16)),
            }
        } else if version == 9 {
            AnimationReference::Color {
                header: AnimationReferenceHeader::value_at(data, at, 0),
                init: Col::value_at(data, at + 8, 0),
                null: Col::value_at(data, at + 12, 0),
                unknown: signed32(le_u32_at(data, at + 16)),
            }
        } else {
            AnimationReference::Bnds {
                header: AnimationReferenceHeader::value_at(data, at, 0),
                init: Bnds::value_at(data, at + 8, 0),
                null: Bnds::value_at(data, at + 36, 0),
                unknown: signed32(le_u32_at(data, at + 64)),
            }
        }
    }

    open spec fn version_of(&self) -> u32 {
        match self {
            AnimationReference::Vector3 { .. } => 0,
            AnimationReference::Vector2 { .. } => 1,
            AnimationReference::Quaternion { .. } => 2,
            AnimationReference::UInt32 { .. } => 3,
            AnimationReference::UInt16 { .. } => 4,
            AnimationReference::Int16 { .. } => 5,
            AnimationReference::UInt8 { .. } => 6,
            AnimationReference::Float { .. } => 7,
            AnimationReference::Unknown4Byte { .. } => 8,
            AnimationReference::Color { .. } => 9,
            AnimationReference::Bnds { .. } => 10,
        }
    }

    proof fn lemma_layout(version: u32) {
    }

    proof fn lemma_tagged(data: Seq<u8>, at: int, version: u32) {
    }

    fn range() -> (r: VersionRange) {
        VersionRange { min: 0, max: 10 }
    }

    fn width(version: u32) -> (w: Option<usize>) {
        if version == 0 {
            Some(36)
        } else if version == 1 {
            Some(28)
        } else if version == 2 {
            Some(44)
        } else if version == 3 {
            Some(20)
        } else if version == 4 {
            Some(16)
        } else if version == 5 {
            Some(16)
        } else if version == 6 {
            Some(14)
        } else if version == 7 {
            Some(20)
        } else if version == 8 {
            Some(20)
        } else if version == 9 {
            Some(20)
        } else if version == 10 {
            Some(68)
        } else {
            None
        }
    }

    fn get(buf: &[u8], at: usize, version: u32) -> (r: Self) {
        if version == 0 {
            Self::get_vector3(buf, at)
        } else if version == 1 {
            Self::get_vector2(buf, at)
        } else if version == 2 {
            Self::get_quaternion(buf, at)
        } else if version == 3 {
            Self::get_uint32(buf, at)
        } else if version == 4 {
            Self::get_uint16(buf, at)
        } else if version == 5 {
            Self::get_int16(buf, at)
        } else if version == 6 {
            Self::get_uint8(buf, at)
        } else if version == 7 {
            Self::get_float(buf, at)
        } else if version == 8 {
            Self::get_unknown4_byte(buf, at)
        } else if version == 9 {
            Self::get_color(buf, at)
        } else {
            Self::get_bnds(buf, at)
        }
    }
}

// ---------------------------------------------------------------------
// Vertices
// ---------------------------------------------------------------------

/// A vertex in one of the layouts that the vertex flags of a model select.
/// The flags word is the discriminant: it says whether a color is stored
/// and how many texture coordinates follow.
#[derive(Clone, Copy, Debug, PartialEq, Eq)]
#[allow(inconsistent_fields)]
pub enum Vertex {
    Format182007D {
        position: Vec3,
        bone_weights: [u8; 4],
        bone_lookup_indices: [u8; 4],
        normal: Vector3AsFixed8,
        sign: u8,
        uv: Vector2AsInt16,
        tangent: Vector3AsFixed8,
        unused: u8,
    },
    Format1820261 {
        position: Vec3,
        bone_weights: [u8; 4],
        bone_lookup_indices: [u8; 4],
        normal: Vector3AsFixed8,
        sign: u8,
        color: Col,
        uv: Vector2AsInt16,
        tangent: Vector3AsFixed8,
        unused: u8,
    },
    Format182027D {
        position: Vec3,
        bone_weights: [u8; 4],
        bone_lookup_indices: [u8; 4],
        normal: Vector3AsFixed8,
        sign: u8,
        color: Col,
        uv: Vector2AsInt16,
        tangent: Vector3AsFixed8,
        unused: u8,
    },
    Format1860061 {
        position: Vec3,
        bone_weights: [u8; 4],
        bone_lookup_indices: [u8; 4],
        normal: Vector3AsFixed8,
        sign: u8,
        uvs: [Vector2AsInt16; 2],
        tangent: Vector3AsFixed8,
        unused: u8,
    },
    Format186007D {
        position: Vec3,
        bone_weights: [u8; 4],
        bone_lookup_indices: [u8; 4],
        normal: Vector3AsFixed8,
        sign: u8,
        uvs: [Vector2AsInt16; 2],
        tangent: Vector3AsFixed8,
        unused: u8,
    },
    Format1860261 {
        position: Vec3,
        bone_weights: [u8; 4],
        bone_lookup_indices: [u8; 4],
        normal: Vector3AsFixed8,
        sign: u8,
        color: Col,
        uvs: [Vector2AsInt16; 2],
        tangent: Vector3AsFixed8,
        unused: u8,
    },
    Format186027D {
        position: Vec3,
        bone_weights: [u8; 4],
        bone_lookup_indices: [u8; 4],
        normal: Vector3AsFixed8,
        sign: u8,
        color: Col,
        uvs: [Vector2AsInt16; 2],
        tangent: Vector3AsFixed8,
        unused: u8,
    },
    Format18E0061 {
        position: Vec3,
        bone_weights: [u8; 4],
        bone_lookup_indices: [u8; 4],
        normal: Vector3AsFixed8,
        sign: u8,
        uvs: [Vector2AsInt16; 3],
        tangent: Vector3AsFixed8,
        unused: u8,
    },
    Format18E007D {
        position: Vec3,
        bone_weights: [u8; 4],
        bone_lookup_indices: [u8; 4],
        normal: Vector3AsFixed8,
        sign: u8,
        uvs: [Vector2AsInt16; 3],
        tangent: Vector3AsFixed8,
        unused: u8,
    },
    Format18E0261 {
        position: Vec3,
        bone_weights: [u8; 4],
        bone_lookup_indices: [u8; 4],
        normal: Vector3AsFixed8,
        sign: u8,
        color: Col,
        uvs: [Vector2AsInt16; 3],
        tangent: Vector3AsFixed8,
        unused: u8,
    },
    Format18E027D {
        position: Vec3,
        bone_weights: [u8; 4],
        bone_lookup_indices: [u8; 4],
        normal: Vector3AsFixed8,
        sign: u8,
        color: Col,
        uvs: [Vector2AsInt16; 3],
        tangent: Vector3AsFixed8,
        unused: u8,
    },
    Format19E0061 {
        position: Vec3,
        bone_weights: [u8; 4],
        bone_lookup_indices: [u8; 4],
        normal: Vector3AsFixed8,
        sign: u8,
        uvs: [Vector2AsInt16; 4],
        tangent: Vector3AsFixed8,
        unused: u8,
    },
    Format19E007D {
        position: Vec3,
        bone_weights: [u8; 4],
        bone_lookup_indices: [u8; 4],
        normal: Vector3AsFixed8,
        sign: u8,
        uvs: [Vector2AsInt16; 4],
        tangent: Vector3AsFixed8,
        unused: u8,
    },
    Format19E0261 {
        position: Vec3,
        bone_weights: [u8; 4],
        bone_lookup_indices: [u8; 4],
        normal: Vector3AsFixed8,
        sign: u8,
        color: Col,
        uvs: [Vector2AsInt16; 4],
        tangent: Vector3AsFixed8,
        unused: u8,
    },
    Format19E027D {
        position: Vec3,
        bone_weights: [u8; 4],
        bone_lookup_indices: [u8; 4],
        normal: Vector3AsFixed8,
        sign: u8,
        color: Col,
        uvs: [Vector2AsInt16; 4],
        tangent: Vector3AsFixed8,
        unused: u8,
    },
    Format4182007D {
        position: Vec3,
        bone_weights: [u8; 4],
        bone_lookup_indices: [u8; 4],
        normal: Vector3AsFixed8,
        sign: u8,
        uvs: [Vector2AsInt16; 2],
        tangent: Vector3AsFixed8,
        unused: u8,
    },
}

impl Vertex {
    /// Decodes the layout `Format182007D` at `at`.
    fn get_format182007_d(buf: &[u8], at: usize) -> (r: Self)
        requires
            at + 32 <= buf@.len() <= usize::MAX,
        ensures
            r == Self::value_at(buf@, at as int, 0x182007D),
    {
        Vertex::Format182007D {
            position: Vec3::get(buf, at, 0),
            bone_weights: get_quad(buf, at + 12),
            bone_lookup_indices: get_quad(buf, at + 16),
            normal: Vector3AsFixed8::get(buf, at + 20, 0),
            sign: get_u8(buf, at + 23),
            uv: Vector2AsInt16::get(buf, at + 24, 0),
            tangent: Vector3AsFixed8::get(buf, at + 28, 0),
            unused: get_u8(buf, at + 31),
        }
    }

    /// Decodes the layout `Format1820261` at `at`.
    fn get_format1820261(buf: &[u8], at: usize) -> (r: Self)
        requires
            at + 36 <= buf@.len() <= usize::MAX,
        ensures
            r == Self::value_at(buf@, at as int, 0x1820261),
    {
        Vertex::Format1820261 {
            position: Vec3::get(buf, at, 0),
            bone_weights: get_quad(buf, at + 12),
            bone_lookup_indices: get_quad(buf, at + 16),
            normal: Vector3AsFixed8::get(buf, at + 20, 0),
            sign: get_u8(buf, at + 23),
            color: Col::get(buf, at + 24, 0),
            uv: Vector2AsInt16::get(buf, at + 28, 0),
            tangent: Vector3AsFixed8::get(buf, at + 32, 0),
            unused: get_u8(buf, at + 35),
        }
    }

    /// Decodes the layout `Format182027D` at `at`.
    fn get_format182027_d(buf: &[u8], at: usize) -> (r: Self)
        requires
            at + 36 <= buf@.len() <= usize::MAX,
        ensures
            r == Self::value_at(buf@, at as int, 0x182027D),
    {
        Vertex::Format182027D {
            position: Vec3::get(buf, at, 0),
            bone_weights: get_quad(buf, at + 12),
            bone_lookup_indices: get_quad(buf, at + 16),
            normal: Vector3AsFixed8::get(buf, at + 20, 0),
            sign: get_u8(buf, at + 23),
            color: Col::get(buf, at + 24, 0),
            uv: Vector2AsInt16::get(buf, at + 28, 0),
            tangent: Vector3AsFixed8::get(buf, at + 32, 0),
            unused: get_u8(buf, at + 35),
        }
    }

    /// Decodes the layout `Format1860061` at `at`.
    fn get_format1860061(buf: &[u8], at: usize) -> (r: Self)
        requires
            at + 36 <= buf@.len() <= usize::MAX,
        ensures
            r == Self::value_at(buf@, at as int, 0x1860061),
    {
        Vertex::Format1860061 {
            position: Vec3::get(buf, at, 0),
            bone_weights: get_quad(buf, at + 12),
            bone_lookup_indices: get_quad(buf, at + 16),
            normal: Vector3AsFixed8::get(buf, at + 20, 0),
            sign: get_u8(buf, at + 23),
            uvs: [Vector2AsInt16::get(buf, at + 24, 0), Vector2AsInt16::get(buf, at + 28, 0)],
            tangent: Vector3AsFixed8::get(buf, at + 32, 0),
            unused: get_u8(buf, at + 35),
        }
    }

    /// Decodes the layout `Format186007D` at `at`.
    fn get_format186007_d(buf: &[u8], at: usize) -> (r: Self)
        requires
            at + 36 <= buf@.len() <= usize::MAX,
        ensures
            r == Self::value_at(buf@, at as int, 0x186007D),
    {
        Vertex::Format186007D {
            position: Vec3::get(buf, at, 0),
            bone_weights: get_quad(buf, at + 12),
            bone_lookup_indices: get_quad(buf, at + 16),
            normal: Vector3AsFixed8::get(buf, at + 20, 0),
            sign: get_u8(buf, at + 23),
            uvs: [Vector2AsInt16::get(buf, at + 24, 0), Vector2AsInt16::get(buf, at + 28, 0)],
            tangent: Vector3AsFixed8::get(buf, at + 32, 0),
            unused: get_u8(buf, at + 35),
        }
    }

    /// Decodes the layout `Format1860261` at `at`.
    fn get_format1860261(buf: &[u8], at: usize) -> (r: Self)
        requires
            at + 40 <= buf@.len() <= usize::MAX,
        ensures
            r == Self::value_at(buf@, at as int, 0x1860261),
    {
        Vertex::Format1860261 {
            position: Vec3::get(buf, at, 0),
            bone_weights: get_quad(buf, at + 12),
            bone_lookup_indices: get_quad(buf, at + 16),
            normal: Vector3AsFixed8::get(buf, at + 20, 0),
            sign: get_u8(buf, at + 23),
            color: Col::get(buf, at + 24, 0),
            uvs: [Vector2AsInt16::get(buf, at + 28, 0), Vector2AsInt16::get(buf, at + 32, 0)],
            tangent: Vector3AsFixed8::get(buf, at + 36, 0),
            unused: get_u8(buf, at + 39),
        }
    }

    /// Decodes the layout `Format186027D` at `at`.
    fn get_format186027_d(buf: &[u8], at: usize) -> (r: Self)
        requires
            at + 40 <= buf@.len() <= usize::MAX,
        ensures
            r == Self::value_at(buf@, at as int, 0x186027D),
    {
        Vertex::Format186027D {
            position: Vec3::get(buf, at, 0),
            bone_weights: get_quad(buf, at + 12),
            bone_lookup_indices: get_quad(buf, at + 16),
            normal: Vector3AsFixed8::get(buf, at + 20, 0),
            sign: get_u8(buf, at + 23),
            color: Col::get(buf, at + 24, 0),
            uvs: [Vector2AsInt16::get(buf, at + 28, 0), Vector2AsInt16::get(buf, at + 32, 0)],
            tangent: Vector3AsFixed8::get(buf, at + 36, 0),
            unused: get_u8(buf, at + 39),
        }
    }

    /// Decodes the layout `Format18E0061` at `at`.
    fn get_format18_e0061(buf: &[u8], at: usize) -> (r: Self)
        requires
            at + 40 <= buf@.len() <= usize::MAX,
        ensures
            r == Self::value_at(buf@, at as int, 0x18E0061),
    {
        Vertex::Format18E0061 {
            position: Vec3::get(buf, at, 0),
            bone_weights: get_quad(buf, at + 12),
            bone_lookup_indices: get_quad(buf, at + 16),
            normal: Vector3AsFixed8::get(buf, at + 20, 0),
            sign: get_u8(buf, at + 23),
            uvs: [
                Vector2AsInt16::get(buf, at + 24, 0),
                Vector2AsInt16::get(buf, at + 28, 0),
                Vector2AsInt16::get(buf, at + 32, 0),
            ],
            tangent: Vector3AsFixed8::get(buf, at + 36, 0),
            unused: get_u8(buf, at + 39),
        }
    }

    /// Decodes the layout `Format18E007D` at `at`.
    fn get_format18_e007_d(buf: &[u8], at: usize) -> (r: Self)
        requires
            at + 40 <= buf@.len() <= usize::MAX,
        ensures
            r == Self::value_at(buf@, at as int, 0x18E007D),
    {
        Vertex::Format18E007D {
            position: Vec3::get(buf, at, 0),
            bone_weights: get_quad(buf, at + 12),
            bone_lookup_indices: get_quad(buf, at + 16),
            normal: Vector3AsFixed8::get(buf, at + 20, 0),
            sign: get_u8(buf, at + 23),
            uvs: [
                Vector2AsInt16::get(buf, at + 24, 0),
                Vector2AsInt16::get(buf, at + 28, 0),
                Vector2AsInt16::get(buf, at + 32, 0),
            ],
            tangent: Vector3AsFixed8::get(buf, at + 36, 0),
            unused: get_u8(buf, at + 39),
        }
    }

    /// Decodes the layout `Format18E0261` at `at`.
    fn get_format18_e0261(buf: &[u8], at: usize) -> (r: Self)
        requires
            at + 44 <= buf@.len() <= usize::MAX,
        ensures
            r == Self::value_at(buf@, at as int, 0x18E0261),
    {
        Vertex::Format18E0261 {
            position: Vec3::get(buf, at, 0),
            bone_weights: get_quad(buf, at + 12),
            bone_lookup_indices: get_quad(buf, at + 16),
            normal: Vector3AsFixed8::get(buf, at + 20, 0),
            sign: get_u8(buf, at + 23),
            color: Col::get(buf, at + 24, 0),
            uvs: [
                Vector2AsInt16::get(buf, at + 28, 0),
                Vector2AsInt16::get(buf, at + 32, 0),
                Vector2AsInt16::get(buf, at + 36, 0),
            ],
            tangent: Vector3AsFixed8::get(buf, at + 40, 0),
            unused: get_u8(buf, at + 43),
        }
    }

    /// Decodes the layout `Format18E027D` at `at`.
    fn get_format18_e027_d(buf: &[u8], at: usize) -> (r: Self)
        requires
            at + 44 <= buf@.len() <= usize::MAX,
        ensures
            r == Self::value_at(buf@, at as int, 0x18E027D),
    {
        Vertex::Format18E027D {
            position: Vec3::get(buf, at, 0),
            bone_weights: get_quad(buf, at + 12),
            bone_lookup_indices: get_quad(buf, at + 16),
            normal: Vector3AsFixed8::get(buf, at + 20, 0),
            sign: get_u8(buf, at + 23),
            color: Col::get(buf, at + 24, 0),
            uvs: [
                Vector2AsInt16::get(buf, at + 28, 0),
                Vector2AsInt16::get(buf, at + 32, 0),
                Vector2AsInt16::get(buf, at + 36, 0),
            ],
            tangent: Vector3AsFixed8::get(buf, at + 40, 0),
            unused: get_u8(buf, at + 43),
        }
    }

    /// Decodes the layout `Format19E0061` at `at`.
    fn get_format19_e0061(buf: &[u8], at: usize) -> (r: Self)
        requires
            at + 44 <= buf@.len() <= usize::MAX,
        ensures
            r == Self::value_at(buf@, at as int, 0x19E0061),
    {
        Vertex::Format19E0061 {
            position: Vec3::get(buf, at, 0),
            bone_weights: get_quad(buf, at + 12),
            bone_lookup_indices: get_quad(buf, at + 16),
            normal: Vector3AsFixed8::get(buf, at + 20, 0),
            sign: get_u8(buf, at + 23),
            uvs: [
                Vector2AsInt16::get(buf, at + 24, 0),
                Vector2AsInt16::get(buf, at + 28, 0),
                Vector2AsInt16::get(buf, at + 32, 0),
                Vector2AsInt16::get(buf, at + 36, 0),
            ],
            tangent: Vector3AsFixed8::get(buf, at + 40, 0),
            unused: get_u8(buf, at + 43),
        }
    }

    /// Decodes the layout `Format19E007D` at `at`.
    fn get_format19_e007_d(buf: &[u8], at: usize) -> (r: Self)
        requires
            at + 44 <= buf@.len() <= usize::MAX,
        ensures
            r == Self::value_at(buf@, at as int, 0x19E007D),
    {
        Vertex::Format19E007D {
            position: Vec3::get(buf, at, 0),
            bone_weights: get_quad(buf, at + 12),
            bone_lookup_indices: get_quad(buf, at + 16),
            normal: Vector3AsFixed8::get(buf, at + 20, 0),
            sign: get_u8(buf, at + 23),
            uvs: [
                Vector2AsInt16::get(buf, at + 24, 0),
                Vector2AsInt16::get(buf, at + 28, 0),
                Vector2AsInt16::get(buf, at + 32, 0),
                Vector2AsInt16::get(buf, at + 36, 0),
            ],
            tangent: Vector3AsFixed8::get(buf, at + 40, 0),
            unused: get_u8(buf, at + 43),
        }
    }

    /// Decodes the layout `Format19E0261` at `at`.
    fn get_format19_e0261(buf: &[u8], at: usize) -> (r: Self)
        requires
            at + 48 <= buf@.len() <= usize::MAX,
        ensures
            r == Self::value_at(buf@, at as int, 0x19E0261),
    {
        Vertex::Format19E0261 {
            position: Vec3::get(buf, at, 0),
            bone_weights: get_quad(buf, at + 12),
            bone_lookup_indices: get_quad(buf, at + 16),
            normal: Vector3AsFixed8::get(buf, at + 20, 0),
            sign: get_u8(buf, at + 23),
            color: Col::get(buf, at + 24, 0),
            uvs: [
                Vector2AsInt16::get(buf, at + 28, 0),
                Vector2AsInt16::get(buf, at + 32, 0),
                Vector2AsInt16::get(buf, at + 36, 0),
                Vector2AsInt16::get(buf, at + 40, 0),
            ],
            tangent: Vector3AsFixed8::get(buf, at + 44, 0),
            unused: get_u8(buf, at + 47),
        }
    }

    /// Decodes the layout `Format19E027D` at `at`.
    fn get_format19_e027_d(buf: &[u8], at: usize) -> (r: Self)
        requires
            at + 48 <= buf@.len() <= usize::MAX,
        ensures
            r == Self::value_at(buf@, at as int, 0x19E027D),
    {
        Vertex::Format19E027D {
            position: Vec3::get(buf, at, 0),
            bone_weights: get_quad(buf, at + 12),
            bone_lookup_indices: get_quad(buf, at + 16),
            normal: Vector3AsFixed8::get(buf, at + 20, 0),
            sign: get_u8(buf, at + 23),
            color: Col::get(buf, at + 24, 0),
            uvs: [
                Vector2AsInt16::get(buf, at + 28, 0),
                Vector2AsInt16::get(buf, at + 32, 0),
                Vector2AsInt16::get(buf, at + 36, 0),
                Vector2AsInt16::get(buf, at + 40, 0),
            ],
            tangent: Vector3AsFixed8::get(buf, at + 44, 0),
            unused: get_u8(buf, at + 47),
        }
    }

    /// Decodes the layout `Format4182007D` at `at`.
    fn get_format4182007_d(buf: &[u8], at: usize) -> (r: Self)
        requires
            at + 36 <= buf@.len() <= usize::MAX,
        ensures
            r == Self::value_at(buf@, at as int, 0x4182007D),
    {
        Vertex::Format4182007D {
            position: Vec3::get(buf, at, 0),
            bone_weights: get_quad(buf, at + 12),
            bone_lookup_indices: get_quad(buf, at + 16),
            normal: Vector3AsFixed8::get(buf, at + 20, 0),
            sign: get_u8(buf, at + 23),
            uvs: [Vector2AsInt16::get(buf, at + 24, 0), Vector2AsInt16::get(buf, at + 28, 0)],
            tangent: Vector3AsFixed8::get(buf, at + 32, 0),
            unused: get_u8(buf, at + 35),
        }
    }
}

impl Record for Vertex {
    open spec fn supports(version: u32) -> bool {
        version == 0x182007D || version == 0x1820261 || version == 0x182027D || version == 0x1860061
            || version == 0x186007D || version == 0x1860261 || version == 0x186027D
            || version == 0x18E0061 || version == 0x18E007D || version == 0x18E0261
            || version == 0x18E027D || version == 0x19E0061 || version == 0x19E007D
            || version == 0x19E0261 || version == 0x19E027D || version == 0x4182007D
    }

    open spec fn supported_range() -> VersionRange {
        VersionRange { min: 0x182007D, max: 0x4182007D }
    }

    open spec fn stride(version: u32) -> nat {
        if version == 0x182007D {
            32
        } else if version == 0x1820261 || version == 0x182027D || version == 0x1860061
            || version == 0x186007D || version == 0x4182007D {
            36
        } else if version == 0x1860261 || version == 0x186027D || version == 0x18E0061
            || version == 0x18E007D {
            40
        } else if version == 0x18E0261 || version == 0x18E027D || version == 0x19E0061
            || version == 0x19E007D {
            44
        } else {
            48
        }
    }

    open spec fn value_at(data: Seq<u8>, at: int, version: u32) -> Self {
        if version == 0x182007D {
            Vertex::Format182007D {
                position: Vec3::value_at(data, at, 0),
                bone_weights: quad_at(data, at + 12),
                bone_lookup_indices: quad_at(data, at + 16),
                normal: Vector3AsFixed8::value_at(data, at + 20, 0),
                sign: data[at + 23],
                uv: Vector2AsInt16::value_at(data, at + 24, 0),
                tangent: Vector3AsFixed8::value_at(data, at + 28, 0),
                unused: data[at + 31],
            }
        } else if version == 0x1820261 {
            Vertex::Format1820261 {
                position: Vec3::value_at(data, at, 0),
                bone_weights: quad_at(data, at + 12),
                bone_lookup_indices: quad_at(data, at + 16),
                normal: Vector3AsFixed8::value_at(data, at + 20, 0),
                sign: data[at + 23],
                color: Col::value_at(data, at + 24, 0),
                uv: Vector2AsInt16::value_at(data, at + 28, 0),
                tangent: Vector3AsFixed8::value_at(data, at + 32, 0),
                unused: data[at + 35],
            }
        } else if version == 0x182027D {
            Vertex::Format182027D {
                position: Vec3::value_at(data, at, 0),
                bone_weights: quad_at(data, at + 12),
                bone_lookup_indices: quad_at(data, at + 16),
                normal: Vector3AsFixed8::value_at(data, at + 20, 0),
                sign: data[at + 23],
                color: Col::value_at(data, at + 24, 0),
                uv: Vector2AsInt16::value_at(data, at + 28, 0),
                tangent: Vector3AsFixed8::value_at(data, at + 32, 0),
                unused: data[at + 35],
            }
        } else if version == 0x1860061 {
            Vertex::Format1860061 {
                position: Vec3::value_at(data, at, 0),
                bone_weights: quad_at(data, at + 12),
                bone_lookup_indices: quad_at(data, at + 16),
                normal: Vector3AsFixed8::value_at(data, at + 20, 0),
                sign: data[at + 23],
                uvs: [
                    Vector2AsInt16::value_at(data, at + 24, 0),
                    Vector2AsInt16::value_at(data, at + 28, 0),
                ],
                tangent: Vector3AsFixed8::value_at(data, at + 32, 0),
                unused: data[at + 35],
            }
        } else if version == 0x186007D {
            Vertex::Format186007D {
                position: Vec3::value_at(data, at, 0),
                bone_weights: quad_at(data, at + 12),
                bone_lookup_indices: quad_at(data, at + 16),
                normal: Vector3AsFixed8::value_at(data, at + 20, 0),
                sign: data[at + 23],
                uvs: [
                    Vector2AsInt16::value_at(data, at + 24, 0),
                    Vector2AsInt16::value_at(data, at + 28, 0),
                ],
                tangent: Vector3AsFixed8::value_at(data, at + 32, 0),
                unused: data[at + 35],
            }
        } else if version == 0x1860261 {
            Vertex::Format1860261 {
                position: Vec3::value_at(data, at, 0),
                bone_weights: quad_at(data, at + 12),
                bone_lookup_indices: quad_at(data, at + 16),
                normal: Vector3AsFixed8::value_at(data, at + 20, 0),
                sign: data[at + 23],
                color: Col::value_at(data, at + 24, 0),
                uvs: [
                    Vector2AsInt16::value_at(data, at + 28, 0),
                    Vector2AsInt16::value_at(data, at + 32, 0),
                ],
                tangent: Vector3AsFixed8::value_at(data, at + 36, 0),
                unused: data[at + 39],
            }
        } else if version == 0x186027D {
            Vertex::Format186027D {
                position: Vec3::value_at(data, at, 0),
                bone_weights: quad_at(data, at + 12),
                bone_lookup_indices: quad_at(data, at + 16),
                normal: Vector3AsFixed8::value_at(data, at + 20, 0),
                sign: data[at + 23],
                color: Col::value_at(data, at + 24, 0),
                uvs: [
                    Vector2AsInt16::value_at(data, at + 28, 0),
                    Vector2AsInt16::value_at(data, at + 32, 0),
                ],
                tangent: Vector3AsFixed8::value_at(data, at + 36, 0),
                unused: data[at + 39],
            }
        } else if version == 0x18E0061 {
            Vertex::Format18E0061 {
                position: Vec3::value_at(data, at, 0),
                bone_weights: quad_at(data, at + 12),
                bone_lookup_indices: quad_at(data, at + 16),
                normal: Vector3AsFixed8::value_at(data, at + 20, 0),
                sign: data[at + 23],
                uvs: [
                    Vector2AsInt16::value_at(data, at + 24, 0),
                    Vector2AsInt16::value_at(data, at + 28, 0),
                    Vector2AsInt16::value_at(data, at + 32, 0),
                ],
                tangent: Vector3AsFixed8::value_at(data, at + 36, 0),
                unused: data[at + 39],
            }
        } else if version == 0x18E007D {
            Vertex::Format18E007D {
                position: Vec3::value_at(data, at, 0),
                bone_weights: quad_at(data, at + 12),
                bone_lookup_indices: quad_at(data, at + 16),
                normal: Vector3AsFixed8::value_at(data, at + 20, 0),
                sign: data[at + 23],
                uvs: [
                    Vector2AsInt16::value_at(data, at + 24, 0),
                    Vector2AsInt16::value_at(data, at + 28, 0),
                    Vector2AsInt16::value_at(data, at + 32, 0),
                ],
                tangent: Vector3AsFixed8::value_at(data, at + 36, 0),
                unused: data[at + 39],
            }
        } else if version == 0x18E0261 {
            Vertex::Format18E0261 {
                position: Vec3::value_at(data, at, 0),
                bone_weights: quad_at(data, at + 12),
                bone_lookup_indices: quad_at(data, at + 16),
                normal: Vector3AsFixed8::value_at(data, at + 20, 0),
                sign: data[at + 23],
                color: Col::value_at(data, at + 24, 0),
                uvs: [
                    Vector2AsInt16::value_at(data, at + 28, 0),
                    Vector2AsInt16::value_at(data, at + 32, 0),
                    Vector2AsInt16::value_at(data, at + 36, 0),
                ],
                tangent: Vector3AsFixed8::value_at(data, at + 40, 0),
                unused: data[at + 43],
            }
        } else if version == 0x18E027D {
            Vertex::Format18E027D {
                position: Vec3::value_at(data, at, 0),
                bone_weights: quad_at(data, at + 12),
                bone_lookup_indices: quad_at(data, at + 16),
                normal: Vector3AsFixed8::value_at(data, at + 20, 0),
                sign: data[at + 23],
                color: Col::value_at(data, at + 24, 0),
                uvs: [
                    Vector2AsInt16::value_at(data, at + 28, 0),
                    Vector2AsInt16::value_at(data, at + 32, 0),
                    Vector2AsInt16::value_at(data, at + 36, 0),
                ],
                tangent: Vector3AsFixed8::value_at(data, at + 40, 0),
                unused: data[at + 43],
            }
        } else if version == 0x19E0061 {
            Vertex::Format19E0061 {
                position: Vec3::value_at(data, at, 0),
                bone_weights: quad_at(data, at + 12),
                bone_lookup_indices: quad_at(data, at + 16),
                normal: Vector3AsFixed8::value_at(data, at + 20, 0),
                sign: data[at + 23],
                uvs: [
                    Vector2AsInt16::value_at(data, at + 24, 0),
                    Vector2AsInt16::value_at(data, at + 28, 0),
                    Vector2AsInt16::value_at(data, at + 32, 0),
                    Vector2AsInt16::value_at(data, at + 36, 0),
                ],
                tangent: Vector3AsFixed8::value_at(data, at + 40, 0),
                unused: data[at + 43],
            }
        } else if version == 0x19E007D {
            Vertex::Format19E007D {
                position: Vec3::value_at(data, at, 0),
                bone_weights: quad_at(data, at + 12),
                bone_lookup_indices: quad_at(data, at + 16),
                normal: Vector3AsFixed8::value_at(data, at + 20, 0),
                sign: data[at + 23],
                uvs: [
                    Vector2AsInt16::value_at(data, at + 24, 0),
                    Vector2AsInt16::value_at(data, at + 28, 0),
                    Vector2AsInt16::value_at(data, at + 32, 0),
                    Vector2AsInt16::value_at(data, at + 36, 0),
                ],
                tangent: Vector3AsFixed8::value_at(data, at + 40, 0),
                unused: data[at + 43],
            }
        } else if version == 0x19E0261 {
            Vertex::Format19E0261 {
                position: Vec3::value_at(data, at, 0),
                bone_weights: quad_at(data, at + 12),
                bone_lookup_indices: quad_at(data, at + 16),
                normal: Vector3AsFixed8::value_at(data, at + 20, 0),
                sign: data[at + 23],
                color: Col::value_at(data, at + 24, 0),
                uvs: [
                    Vector2AsInt16::value_at(data, at + 28, 0),
                    Vector2AsInt16::value_at(data, at + 32, 0),
                    Vector2AsInt16::value_at(data, at + 36, 0),
                    Vector2AsInt16::value_at(data, at + 40, 0),
                ],
                tangent: Vector3AsFixed8::value_at(data, at + 44, 0),
                unused: data[at + 47],
            }
        } else if version == 0x19E027D {
            Vertex::Format19E027D {
                position: Vec3::value_at(data, at, 0),
                bone_weights: quad_at(data, at + 12),
                bone_lookup_indices: quad_at(data, at + 16),
                normal: Vector3AsFixed8::value_at(data, at + 20, 0),
                sign: data[at + 23],
                color: Col::value_at(data, at + 24, 0),
                uvs: [
                    Vector2AsInt16::value_at(data, at + 28, 0),
                    Vector2AsInt16::value_at(data, at + 32, 0),
                    Vector2AsInt16::value_at(data, at + 36, 0),
                    Vector2AsInt16::value_at(data, at + 40, 0),
                ],
                tangent: Vector3AsFixed8::value_at(data, at + 44, 0),
                unused: data[at + 47],
            }
        } else {
            Vertex::Format4182007D {
                position: Vec3::value_at(data, at, 0),
                bone_weights: quad_at(data, at + 12),
                bone_lookup_indices: quad_at(data, at + 16),
                normal: Vector3AsFixed8::value_at(data, at + 20, 0),
                sign: data[at + 23],
                uvs: [
                    Vector2AsInt16::value_at(data, at + 24, 0),
                    Vector2AsInt16::value_at(data, at + 28, 0),
                ],
                tangent: Vector3AsFixed8::value_at(data, at + 32, 0),
                unused: data[at + 35],
            }
        }
    }

    open spec fn version_of(&self) -> u32 {
        match self {
            Vertex::Format182007D { .. } => 0x182007D,
            Vertex::Format1820261 { .. } => 0x1820261,
            Vertex::Format182027D { .. } => 0x182027D,
            Vertex::Format1860061 { .. } => 0x1860061,
            Vertex::Format186007D { .. } => 0x186007D,
            Vertex::Format1860261 { .. } => 0x1860261,
            Vertex::Format186027D { .. } => 0x186027D,
            Vertex::Format18E0061 { .. } => 0x18E0061,
            Vertex::Format18E007D { .. } => 0x18E007D,
            Vertex::Format18E0261 { .. } => 0x18E0261,
            Vertex::Format18E027D { .. } => 0x18E027D,
            Vertex::Format19E0061 { .. } => 0x19E0061,
            Vertex::Format19E007D { .. } => 0x19E007D,
            Vertex::Format19E0261 { .. } => 0x19E0261,
            Vertex::Format19E027D { .. } => 0x19E027D,
            Vertex::Format4182007D { .. } => 0x4182007D,
        }
    }

    proof fn lemma_layout(version: u32) {
    }

    proof fn lemma_tagged(data: Seq<u8>, at: int, version: u32) {
    }

    fn range() -> (r: VersionRange) {
        VersionRange { min: 0x182007D, max: 0x4182007D }
    }

    fn width(version: u32) -> (w: Option<usize>) {
        if version == 0x182007D {
            Some(32)
        } else if version == 0x1820261 {
            Some(36)
        } else if version == 0x182027D {
            Some(36)
        } else if version == 0x1860061 {
            Some(36)
        } else if version == 0x186007D {
            Some(36)
        } else if version == 0x1860261 {
            Some(40)
        } else if version == 0x186027D {
            Some(40)
        } else if version == 0x18E0061 {
            Some(40)
        } else if version == 0x18E007D {
            Some(40)
        } else if version == 0x18E0261 {
            Some(44)
        } else if version == 0x18E027D {
            Some(44)
        } else if version == 0x19E0061 {
            Some(44)
        } else if version == 0x19E007D {
            Some(44)
        } else if version == 0x19E0261 {
            Some(48)
        } else if version == 0x19E027D {
            Some(48)
        } else if version == 0x4182007D {
            Some(36)
        } else {
            None
        }
    }

    fn get(buf: &[u8], at: usize, version: u32) -> (r: Self) {
        if version == 0x182007D {
            Self::get_format182007_d(buf, at)
        } else if version == 0x1820261 {
            Self::get_format1820261(buf, at)
        } else if version == 0x182027D {
            Self::get_format182027_d(buf, at)
        } else if version == 0x1860061 {
            Self::get_format1860061(buf, at)
        } else if version == 0x186007D {
            Self::get_format186007_d(buf, at)
        } else if version == 0x1860261 {
            Self::get_format1860261(buf, at)
        } else if version == 0x186027D {
            Self::get_format186027_d(buf, at)
        } else if version == 0x18E0061 {
            Self::get_format18_e0061(buf, at)
        } else if version == 0x18E007D {
            Self::get_format18_e007_d(buf, at)
        } else if version == 0x18E0261 {
            Self::get_format18_e0261(buf, at)
        } else if version == 0x18E027D {
            Self::get_format18_e027_d(buf, at)
        } else if version == 0x19E0061 {
            Self::get_format19_e0061(buf, at)
        } else if version == 0x19E007D {
            Self::get_format19_e007_d(buf, at)
        } else if version == 0x19E0261 {
            Self::get_format19_e0261(buf, at)
        } else if version == 0x19E027D {
            Self::get_format19_e027_d(buf, at)
        } else {
            Self::get_format4182007_d(buf, at)
        }
    }
}

// ---------------------------------------------------------------------
// Events
// ---------------------------------------------------------------------

/// An animation event, in the layout of one of its three versions.
#[derive(Clone, Copy, Debug, PartialEq, Eq)]
pub enum Evnt {
    V0 {
        name: Reference,
        unknown_76ff2940: i32,
        unknown_97b2ea12: i16,
        unknown_294cc515: u16,
        matrix: Matrix44,
        unknown_7275bfa0: u32,
        unknown_a20de85: u32,
        unknown_76cf1db0: u32,
    },
    V1 {
        name: Reference,
        unknown_76ff2940: i32,
        unknown_97b2ea12: i16,
        unknown_294cc515: u16,
        matrix: Matrix44,
        unknown_7275bfa0: u32,
        unknown_2a403b40: Reference,
        unknown_76cf1db0: u32,
    },
    V2 {
        name: Reference,
        unknown_76ff2940: i32,
        unknown_97b2ea12: i16,
        unknown_294cc515: u16,
        matrix: Matrix44,
        unknown_7275bfa0: u32,
        unknown_2a403b40: Reference,
        unknown_76cf1db0: u32,
        unknown_e5f1b2a7: u32,
    },
}

impl Record for Evnt {
    open spec fn supports(version: u32) -> bool {
        version <= 2
    }

    open spec fn supported_range() -> VersionRange {
        VersionRange { min: 0, max: 2 }
    }

    open spec fn stride(version: u32) -> nat {
        if version == 0 {
            96
        } else if version == 1 {
            104
        } else {
            108
        }
    }

    open spec fn value_at(data: Seq<u8>, at: int, version: u32) -> Self {
        if version == 0 {
            Evnt::V0 {
                name: Reference::value_at(data, at, 0),
                unknown_76ff2940: signed32(le_u32_at(data, at + 12)),
                unknown_97b2ea12: signed16(le_u16_at(data, at + 16)),
                unknown_294cc515: le_u16_at(data, at + 18),
                matrix: Matrix44::value_at(data, at + 20, 0),
                unknown_7275bfa0: le_u32_at(data, at + 84),
                unknown_a20de85: le_u32_at(data, at + 88),
                unknown_76cf1db0: le_u32_at(data, at + 92),
            }
        } else if version == 1 {
            Evnt::V1 {
                name: Reference::value_at(data, at, 0),
                unknown_76ff2940: signed32(le_u32_at(data, at + 12)),
                unknown_97b2ea12: signed16(le_u16_at(data, at + 16)),
                unknown_294cc515: le_u16_at(data, at + 18),
                matrix: Matrix44::value_at(data, at + 20, 0),
                unknown_7275bfa0: le_u32_at(data, at + 84),
                unknown_2a403b40: Reference::value_at(data, at + 88, 0),
                unknown_76cf1db0: le_u32_at(data, at + 100),
            }
        } else {
            Evnt::V2 {
                name: Reference::value_at(data, at, 0),
                unknown_76ff2940: signed32(le_u32_at(data, at + 12)),
                unknown_97b2ea12: signed16(le_u16_at(data, at + 16)),
                unknown_294cc515: le_u16_at(data, at + 18),
                matrix: Matrix44::value_at(data, at + 20, 0),
                unknown_7275bfa0: le_u32_at(data, at + 84),
                unknown_2a403b40: Reference::value_at(data, at + 88, 0),
                unknown_76cf1db0: le_u32_at(data, at + 100),
                unknown_e5f1b2a7: le_u32_at(data, at + 104),
            }
        }
    }

    open spec fn version_of(&self) -> u32 {
        match self {
            Evnt::V0 { .. } => 0,
            Evnt::V1 { .. } => 1,
            Evnt::V2 { .. } => 2,
        }
    }

    proof fn lemma_layout(version: u32) {
    }

    proof fn lemma_tagged(data: Seq<u8>, at: int, version: u32) {
    }

    fn range() -> (r: VersionRange) {
        VersionRange { min: 0, max: 2 }
    }

    fn width(version: u32) -> (w: Option<usize>) {
        if version == 0 {
            Some(96)
        } else if version == 1 {
            Some(104)
        } else if version == 2 {
            Some(108)
        } else {
            None
        }
    }

    fn get(buf: &[u8], at: usize, version: u32) -> (r: Self) {
        if version == 0 {
            Evnt::V0 {
                name: Reference::get(buf, at, 0),
                unknown_76ff2940: get_i32(buf, at + 12, ByteOrder::Little),
                unknown_97b2ea12: get_i16(buf, at + 16, ByteOrder::Little),
                unknown_294cc515: get_u16(buf, at + 18, ByteOrder::Little),
                matrix: Matrix44::get(buf, at + 20, 0),
                unknown_7275bfa0: get_u32(buf, at + 84, ByteOrder::Little),
                unknown_a20de85: get_u32(buf, at + 88, ByteOrder::Little),
                unknown_76cf1db0: get_u32(buf, at + 92, ByteOrder::Little),
            }
        } else if version == 1 {
            Evnt::V1 {
                name: Reference::get(buf, at, 0),
                unknown_76ff2940: get_i32(buf, at + 12, ByteOrder::Little),
                unknown_97b2ea12: get_i16(buf, at + 16, ByteOrder::Little),
                unknown_294cc515: get_u16(buf, at + 18, ByteOrder::Little),
                matrix: Matrix44::get(buf, at + 20, 0),
                unknown_7275bfa0: get_u32(buf, at + 84, ByteOrder::Little),
                unknown_2a403b40: Reference::get(buf, at + 88, 0),
                unknown_76cf1db0: get_u32(buf, at + 100, ByteOrder::Little),
            }
        } else {
            Evnt::V2 {
                name: Reference::get(buf, at, 0),
                unknown_76ff2940: get_i32(buf, at + 12, ByteOrder::Little),
                unknown_97b2ea12: get_i16(buf, at + 16, ByteOrder::Little),
                unknown_294cc515: get_u16(buf, at + 18, ByteOrder::Little),
                matrix: Matrix44::get(buf, at + 20, 0),
                unknown_7275bfa0: get_u32(buf, at + 84, ByteOrder::Little),
                unknown_2a403b40: Reference::get(buf, at + 88, 0),
                unknown_76cf1db0: get_u32(buf, at + 100, ByteOrder::Little),
                unknown_e5f1b2a7: get_u32(buf, at + 104, ByteOrder::Little),
            }
        }
    }
}

// ---------------------------------------------------------------------
// Bones and sequence collections
// ---------------------------------------------------------------------

/// A bone. `parent` is the position of the parent bone among the bones of
/// the model, or -1 for a root.
#[derive(Clone, Copy, Debug, PartialEq, Eq)]
pub struct Bone {
    pub d: i32,
    pub name: Reference,
    pub flags: BoneFlags,
    pub parent: i16,
    pub s: u16,
    pub location: AnimationReference,
    pub rotation: AnimationReference,
    pub scale: AnimationReference,
    pub ar: AnimationReference,
}

impl Record for Bone {
    open spec fn supports(version: u32) -> bool {
        version == 1
    }

    open spec fn supported_range() -> VersionRange {
        VersionRange { min: 1, max: 1 }
    }

    open spec fn stride(version: u32) -> nat {
        160
    }

    open spec fn value_at(data: Seq<u8>, at: int, version: u32) -> Self {
        Bone {
            d: signed32(le_u32_at(data, at)),
            name: Reference::value_at(data, at + 4, 0),
            flags: BoneFlags { bits: le_u32_at(data, at + 16) },
            parent: signed16(le_u16_at(data, at + 20)),
            s: le_u16_at(data, at + 22),
            location: AnimationReference::value_at(data, at + 24, 0),
            rotation: AnimationReference::value_at(data, at + 60, 2),
            scale: AnimationReference::value_at(data, at + 104, 0),
            ar: AnimationReference::value_at(data, at + 140, 3),
        }
    }

    open spec fn version_of(&self) -> u32 {
        1
    }

    proof fn lemma_layout(version: u32) {
    }

    proof fn lemma_tagged(data: Seq<u8>, at: int, version: u32) {
    }

    fn range() -> (r: VersionRange) {
        VersionRange { min: 1, max: 1 }
    }

    fn width(version: u32) -> (w: Option<usize>) {
        if version == 1 {
            Some(160)
        } else {
            None
        }
    }

    fn get(buf: &[u8], at: usize, version: u32) -> (r: Self) {
        Bone {
            d: get_i32(buf, at, ByteOrder::Little),
            name: Reference::get(buf, at + 4, 0),
            flags: BoneFlags { bits: get_u32(buf, at + 16, ByteOrder::Little) },
            parent: get_i16(buf, at + 20, ByteOrder::Little),
            s: get_u16(buf, at + 22, ByteOrder::Little),
            location: AnimationReference::get(buf, at + 24, 0),
            rotation: AnimationReference::get(buf, at + 60, 2),
            scale: AnimationReference::get(buf, at + 104, 0),
            ar: AnimationReference::get(buf, at + 140, 3),
        }
    }
}

/// What a file starts with: its magic tag, where the tag index lies and how
/// many lines it has, and the reference to the model record.
#[derive(Clone, Copy, Debug, PartialEq, Eq)]
pub struct Header {
    pub tag: [u8; 4],
    pub index_offset: u32,
    pub index_size: u32,
    pub model: Reference,
}

impl Record for Header {
    open spec fn supports(version: u32) -> bool {
        version == 0
    }

    open spec fn supported_range() -> VersionRange {
        VersionRange { min: 0, max: 0 }
    }

    open spec fn stride(version: u32) -> nat {
        24
    }

    open spec fn value_at(data: Seq<u8>, at: int, version: u32) -> Self {
        Header {
            tag: quad_at(data, at),
            index_offset: le_u32_at(data, at + 4),
            index_size: le_u32_at(data, at + 8),
            model: Reference::value_at(data, at + 12, 0),
        }
    }

    open spec fn version_of(&self) -> u32 {
        0
    }

    proof fn lemma_layout(version: u32) {
    }

    proof fn lemma_tagged(data: Seq<u8>, at: int, version: u32) {
    }

    fn range() -> (r: VersionRange) {
        VersionRange { min: 0, max: 0 }
    }

    fn width(version: u32) -> (w: Option<usize>) {
        if version == 0 {
            Some(24)
        } else {
            None
        }
    }

    fn get(buf: &[u8], at: usize, version: u32) -> (r: Self) {
        Header {
            tag: get_quad(buf, at),
            index_offset: get_u32(buf, at + 4, ByteOrder::Little),
            index_size: get_u32(buf, at + 8, ByteOrder::Little),
            model: Reference::get(buf, at + 12, 0),
        }
    }
}

/// A sequence transformation collection: the animation blocks of one
/// sequence, one reference per type of animated value.
#[derive(Clone, Copy, Debug, PartialEq, Eq)]
pub struct Stc {
    pub name: Reference,
    pub runs_concurrent: u16,
    pub priority: u16,
    pub sts_index: u16,
    pub sts_index_copy: u16,
    pub anim_ids: Reference,
    pub anim_refs: Reference,
    pub unknown44: u32,
    pub sdev: Reference,
    pub sd2v: Reference,
    pub sd3v: Reference,
    pub sd4q: Reference,
    pub sdcc: Reference,
    pub sdr3: Reference,
    pub unknown_ref8: Reference,
    pub sds6: Reference,
    pub sdu6: Reference,
    pub unknown_ref11: Reference,
    pub sdu3: Reference,
    pub sdfg: Reference,
    pub sdmb: Reference,
}

impl Record for Stc {
    open spec fn supports(version: u32) -> bool {
        version == 4
    }

    open spec fn supported_range() -> VersionRange {
        VersionRange { min: 4, max: 4 }
    }

    open spec fn stride(version: u32) -> nat {
        204
    }

    open spec fn value_at(data: Seq<u8>, at: int, version: u32) -> Self {
        Stc {
            name: Reference::value_at(data, at, 0),
            runs_concurrent: le_u16_at(data, at + 12),
            priority: le_u16_at(data, at + 14),
            sts_index: le_u16_at(data, at + 16),
            sts_index_copy: le_u16_at(data, at + 18),
            anim_ids: Reference::value_at(data, at + 20, 0),
            anim_refs: Reference::value_at(data, at + 32, 0),
            unknown44: le_u32_at(data, at + 44),
            sdev: Reference::value_at(data, at + 48, 0),
            sd2v: Reference::value_at(data, at + 60, 0),
            sd3v: Reference::value_at(data, at + 72, 0),
            sd4q: Reference::value_at(data, at + 84, 0),
            sdcc: Reference::value_at(data, at + 96, 0),
            sdr3: Reference::value_at(data, at + 108, 0),
            unknown_ref8: Reference::value_at(data, at + 120, 0),
            sds6: Reference::value_at(data, at + 132, 0),
            sdu6: Reference::value_at(data, at + 144, 0),
            unknown_ref11: Reference::value_at(data, at + 156, 0),
            sdu3: Reference::value_at(data, at + 168, 0),
            sdfg: Reference::value_at(data, at + 180, 0),
            sdmb: Reference::value_at(data, at + 192, 0),
        }
    }

    open spec fn version_of(&self) -> u32 {
        4
    }

    proof fn lemma_layout(version: u32) {
    }

    proof fn lemma_tagged(data: Seq<u8>, at: int, version: u32) {
    }

    fn range() -> (r: VersionRange) {
        VersionRange { min: 4, max: 4 }
    }

    fn width(version: u32) -> (w: Option<usize>) {
        if version == 4 {
            Some(204)
        } else {
            None
        }
    }

    fn get(buf: &[u8], at: usize, version: u32) -> (r: Self) {
        Stc {
            name: Reference::get(buf, at, 0),
            runs_concurrent: get_u16(buf, at + 12, ByteOrder::Little),
            priority: get_u16(buf, at + 14, ByteOrder::Little),
            sts_index: get_u16(buf, at + 16, ByteOrder::Little),
            sts_index_copy: get_u16(buf, at + 18, ByteOrder::Little),
            anim_ids: Reference::get(buf, at + 20, 0),
            anim_refs: Reference::get(buf, at + 32, 0),
            unknown44: get_u32(buf, at + 44, ByteOrder::Little),
            sdev: Reference::get(buf, at + 48, 0),
            sd2v: Reference::get(buf, at + 60, 0),
            sd3v: Reference::get(buf, at + 72, 0),
            sd4q: Reference::get(buf, at + 84, 0),
            sdcc: Reference::get(buf, at + 96, 0),
            sdr3: Reference::get(buf, at + 108, 0),
            unknown_ref8: Reference::get(buf, at + 120, 0),
            sds6: Reference::get(buf, at + 132, 0),
            sdu6: Reference::get(buf, at + 144, 0),
            unknown_ref11: Reference::get(buf, at + 156, 0),
            sdu3: Reference::get(buf, at + 168, 0),
            sdfg: Reference::get(buf, at + 180, 0),
            sdmb: Reference::get(buf, at + 192, 0),
        }
    }
}

/// The flags of a sequence.
#[derive(Clone, Copy, Debug, PartialEq, Eq, Structural)]
pub struct SequenceFlags {
    pub bits: u32,
}

impl SequenceFlags {
    /// The sequence plays once.
    pub const NOT_LOOPING: u32 = 0x00000001;

    /// The sequence always plays.
    pub const ALWAYS_GLOBAL: u32 = 0x00000002;

    /// The sequence always plays in the previewer.
    pub const GLOBAL_IN_PREVIEWER: u32 = 0x00000008;

    /// Every bit that the format declares.
    pub const MASK: u32 = 0x0000000B;

    /// The bits that are set outside the declared mask.
    pub open spec fn spec_reserved(&self) -> u32 {
        self.bits & !Self::MASK
    }

    /// Whether no bit is set outside the declared mask.
    pub open spec fn spec_is_valid(&self) -> bool {
        self.spec_reserved() == 0
    }

    /// Whether every bit of `flag` is set.
    pub open spec fn spec_contains(&self, flag: u32) -> bool {
        self.bits & flag == flag
    }

    /// The flag word as it stands, reserved bits included.
    pub fn from_bits_retain(bits: u32) -> (r: Self)
        ensures
            r.bits == bits,
    {
        SequenceFlags { bits }
    }

    /// The flag word, or `None` where a bit outside the declared mask is
    /// set.
    pub fn from_bits(bits: u32) -> (r: Option<Self>)
        ensures
            r == if (SequenceFlags { bits }).spec_is_valid() {
                Some(SequenceFlags { bits })
            } else {
                None
            },
    {
        if bits & !Self::MASK == 0 {
            Some(SequenceFlags { bits })
        } else {
            None
        }
    }

    /// The flag word without the bits outside the declared mask.
    pub fn from_bits_truncate(bits: u32) -> (r: Self)
        ensures
            r.bits == bits & Self::MASK,
            r.spec_is_valid(),
    {
        assert((bits & 0x0000000Bu32) & !0x0000000Bu32 == 0) by (bit_vector);
        SequenceFlags { bits: bits & Self::MASK }
    }

    /// The bits that are set outside the declared mask.
    #[verifier::when_used_as_spec(spec_reserved)]
    pub fn reserved(&self) -> (r: u32)
        ensures
            r == self.spec_reserved(),
    {
        self.bits & !Self::MASK
    }

    /// Whether no bit is set outside the declared mask.
    #[verifier::when_used_as_spec(spec_is_valid)]
    pub fn is_valid(&self) -> (r: bool)
        ensures
            r == self.spec_is_valid(),
    {
        self.bits & !Self::MASK == 0
    }

    /// Whether every bit of `flag` is set.
    #[verifier::when_used_as_spec(spec_contains)]
    pub fn contains(&self, flag: u32) -> (r: bool)
        ensures
            r == self.spec_contains(flag),
    {
        self.bits & flag == flag
    }

    /// The sequence plays once.
    pub fn not_looping(&self) -> (r: bool)
        ensures
            r == self.spec_contains(Self::NOT_LOOPING),
    {
        self.contains(Self::NOT_LOOPING)
    }

    /// The sequence always plays.
    pub fn always_global(&self) -> (r: bool)
        ensures
            r == self.spec_contains(Self::ALWAYS_GLOBAL),
    {
        self.contains(Self::ALWAYS_GLOBAL)
    }

    /// The sequence always plays in the previewer.
    pub fn global_in_previewer(&self) -> (r: bool)
        ensures
            r == self.spec_contains(Self::GLOBAL_IN_PREVIEWER),
    {
        self.contains(Self::GLOBAL_IN_PREVIEWER)
    }
}

// ---------------------------------------------------------------------
// Sequences
// ---------------------------------------------------------------------

/// An animation sequence, in the layout of one of its two versions. The
/// second version dropped one unknown field.
#[derive(Clone, Copy, Debug, PartialEq, Eq)]
pub enum SequenceData {
    V1 {
        unknown0: i32,
        unknown1: i32,
        name: Reference,
        anim_start_in_ms: u32,
        anim_end_in_ms: u32,
        movement_speed: Float32,
        flags: SequenceFlags,
        frequency: u32,
        unknown2: u32,
        unknown3: u32,
        unknown4: u32,
        unknown5: u32,
        bounding_sphere: Bnds,
        unknown6: u32,
        unknown7: u32,
        unknown8: u32,
    },
    V2 {
        unknown0: i32,
        unknown1: i32,
        name: Reference,
        anim_start_in_ms: u32,
        anim_end_in_ms: u32,
        movement_speed: Float32,
        flags: SequenceFlags,
        frequency: u32,
        unknown2: u32,
        unknown3: u32,
        unknown4: u32,
        bounding_sphere: Bnds,
        unknown6: u32,
        unknown7: u32,
        unknown8: u32,
    },
}

impl Record for SequenceData {
    open spec fn supports(version: u32) -> bool {
        1 <= version <= 2
    }

    open spec fn supported_range() -> VersionRange {
        VersionRange { min: 1, max: 2 }
    }

    open spec fn stride(version: u32) -> nat {
        if version == 1 {
            96
        } else {
            92
        }
    }

    open spec fn value_at(data: Seq<u8>, at: int, version: u32) -> Self {
        if version == 1 {
            SequenceData::V1 {
                unknown0: signed32(le_u32_at(data, at)),
                unknown1: signed32(le_u32_at(data, at + 4)),
                name: Reference::value_at(data, at + 8, 0),
                anim_start_in_ms: le_u32_at(data, at + 20),
                anim_end_in_ms: le_u32_at(data, at + 24),
                movement_speed: f32_at(data, at + 28, ByteOrder::Little),
                flags: SequenceFlags { bits: le_u32_at(data, at + 32) },
                frequency: le_u32_at(data, at + 36),
                unknown2: le_u32_at(data, at + 40),
                unknown3: le_u32_at(data, at + 44),
                unknown4: le_u32_at(data, at + 48),
                unknown5: le_u32_at(data, at + 52),
                bounding_sphere: Bnds::value_at(data, at + 56, 0),
                unknown6: le_u32_at(data, at + 84),
                unknown7: le_u32_at(data, at + 88),
                unknown8: le_u32_at(data, at + 92),
            }
        } else {
            SequenceData::V2 {
                unknown0: signed32(le_u32_at(data, at)),
                unknown1: signed32(le_u32_at(data, at + 4)),
                name: Reference::value_at(data, at + 8, 0),
                anim_start_in_ms: le_u32_at(data, at + 20),
                anim_end_in_ms: le_u32_at(data, at + 24),
                movement_speed: f32_at(data, at + 28, ByteOrder::Little),
                flags: SequenceFlags { bits: le_u32_at(data, at + 32) },
                frequency: le_u32_at(data, at + 36),
                unknown2: le_u32_at(data, at + 40),
                unknown3: le_u32_at(data, at + 44),
                unknown4: le_u32_at(data, at + 48),
                bounding_sphere: Bnds::value_at(data, at + 52, 0),
                unknown6: le_u32_at(data, at + 80),
                unknown7: le_u32_at(data, at + 84),
                unknown8: le_u32_at(data, at + 88),
            }
        }
    }

    open spec fn version_of(&self) -> u32 {
        match self {
            SequenceData::V1 { .. } => 1,
            SequenceData::V2 { .. } => 2,
        }
    }

    proof fn lemma_layout(version: u32) {
    }

    proof fn lemma_tagged(data: Seq<u8>, at: int, version: u32) {
    }

    fn range() -> (r: VersionRange) {
        VersionRange { min: 1, max: 2 }
    }

    fn width(version: u32) -> (w: Option<usize>) {
        if version == 1 {
            Some(96)
        } else if version == 2 {
            Some(92)
        } else {
            None
        }
    }

    fn get(buf: &[u8], at: usize, version: u32) -> (r: Self) {
        if version == 1 {
            SequenceData::V1 {
                unknown0: get_i32(buf, at, ByteOrder::Little),
                unknown1: get_i32(buf, at + 4, ByteOrder::Little),
                name: Reference::get(buf, at + 8, 0),
                anim_start_in_ms: get_u32(buf, at + 20, ByteOrder::Little),
                anim_end_in_ms: get_u32(buf, at + 24, ByteOrder::Little),
                movement_speed: get_f32(buf, at + 28, ByteOrder::Little),
                flags: SequenceFlags { bits: get_u32(buf, at + 32, ByteOrder::Little) },
                frequency: get_u32(buf, at + 36, ByteOrder::Little),
                unknown2: get_u32(buf, at + 40, ByteOrder::Little),
                unknown3: get_u32(buf, at + 44, ByteOrder::Little),
                unknown4: get_u32(buf, at + 48, ByteOrder::Little),
                unknown5: get_u32(buf, at + 52, ByteOrder::Little),
                bounding_sphere: Bnds::get(buf, at + 56, 0),
                unknown6: get_u32(buf, at + 84, ByteOrder::Little),
                unknown7: get_u32(buf, at + 88, ByteOrder::Little),
                unknown8: get_u32(buf, at + 92, ByteOrder::Little),
            }
        } else {
            SequenceData::V2 {
                unknown0: get_i32(buf, at, ByteOrder::Little),
                unknown1: get_i32(buf, at + 4, ByteOrder::Little),
                name: Reference::get(buf, at + 8, 0),
                anim_start_in_ms: get_u32(buf, at + 20, ByteOrder::Little),
                anim_end_in_ms: get_u32(buf, at + 24, ByteOrder::Little),
                movement_speed: get_f32(buf, at + 28, ByteOrder::Little),
                flags: SequenceFlags { bits: get_u32(buf, at + 32, ByteOrder::Little) },
                frequency: get_u32(buf, at + 36, ByteOrder::Little),
                unknown2: get_u32(buf, at + 40, ByteOrder::Little),
                unknown3: get_u32(buf, at + 44, ByteOrder::Little),
                unknown4: get_u32(buf, at + 48, ByteOrder::Little),
                bounding_sphere: Bnds::get(buf, at + 52, 0),
                unknown6: get_u32(buf, at + 80, ByteOrder::Little),
                unknown7: get_u32(buf, at + 84, ByteOrder::Little),
                unknown8: get_u32(buf, at + 88, ByteOrder::Little),
            }
        }
    }
}

/// A group of sequence transformation collections that play together.
#[derive(Clone, Copy, Debug, PartialEq, Eq)]
pub struct SequenceTransformGroupData {
    pub name: Reference,
    pub stc_indices: Reference,
}

impl Record for SequenceTransformGroupData {
    open spec fn supports(version: u32) -> bool {
        version == 0
    }

    open spec fn supported_range() -> VersionRange {
        VersionRange { min: 0, max: 0 }
    }

    open spec fn stride(version: u32) -> nat {
        24
    }

    open spec fn value_at(data: Seq<u8>, at: int, version: u32) -> Self {
        SequenceTransformGroupData {
            name: Reference::value_at(data, at, 0),
            stc_indices: Reference::value_at(data, at + 12, 0),
        }
    }

    open spec fn version_of(&self) -> u32 {
        0
    }

    proof fn lemma_layout(version: u32) {
    }

    proof fn lemma_tagged(data: Seq<u8>, at: int, version: u32) {
    }

    fn range() -> (r: VersionRange) {
        VersionRange { min: 0, max: 0 }
    }

    fn width(version: u32) -> (w: Option<usize>) {
        if version == 0 {
            Some(24)
        } else {
            None
        }
    }

    fn get(buf: &[u8], at: usize, version: u32) -> (r: Self) {
        SequenceTransformGroupData {
            name: Reference::get(buf, at, 0),
            stc_indices: Reference::get(buf, at + 12, 0),
        }
    }
}

/// The animation ids that a sequence may touch.
#[derive(Clone, Copy, Debug, PartialEq, Eq)]
pub struct Sts {
    pub anim_ids: Reference,
    pub unknown0: i32,
    pub unknown1: i32,
    pub unknown2: i32,
    pub s1: i16,
    pub s2: u16,
}

impl Record for Sts {
    open spec fn supports(version: u32) -> bool {
        version == 0
    }

    open spec fn supported_range() -> VersionRange {
        VersionRange { min: 0, max: 0 }
    }

    open spec fn stride(version: u32) -> nat {
        28
    }

    open spec fn value_at(data: Seq<u8>, at: int, version: u32) -> Self {
        Sts {
            anim_ids: Reference::value_at(data, at, 0),
            unknown0: signed32(le_u32_at(data, at + 12)),
            unknown1: signed32(le_u32_at(data, at + 16)),
            unknown2: signed32(le_u32_at(data, at + 20)),
            s1: signed16(le_u16_at(data, at + 24)),
            s2: le_u16_at(data, at + 26),
        }
    }

    open spec fn version_of(&self) -> u32 {
        0
    }

    proof fn lemma_layout(version: u32) {
    }

    proof fn lemma_tagged(data: Seq<u8>, at: int, version: u32) {
    }

    fn range() -> (r: VersionRange) {
        VersionRange { min: 0, max: 0 }
    }

    fn width(version: u32) -> (w: Option<usize>) {
        if version == 0 {
            Some(28)
        } else {
            None
        }
    }

    fn get(buf: &[u8], at: usize, version: u32) -> (r: Self) {
        Sts {
            anim_ids: Reference::get(buf, at, 0),
            unknown0: get_i32(buf, at + 12, ByteOrder::Little),
            unknown1: get_i32(buf, at + 16, ByteOrder::Little),
            unknown2: get_i32(buf, at + 20, ByteOrder::Little),
            s1: get_i16(buf, at + 24, ByteOrder::Little),
            s2: get_u16(buf, at + 26, ByteOrder::Little),
        }
    }
}

// ---------------------------------------------------------------------
// The mesh
// ---------------------------------------------------------------------

/// A part of the mesh: a range of vertices, a range of face indices and a
/// range of the bone lookup table. Later versions appended fields.
#[derive(Clone, Copy, Debug, PartialEq, Eq)]
pub enum Region {
    V3 {
        unknown0: u32,
        unknown1: u32,
        first_vertex_index: u32,
        vertices: u32,
        first_face_vertex_index_index: u32,
        face_vertex_indices: u32,
        bones: u16,
        first_bone_lookup_index: u16,
        bone_lookup_indices: u16,
        unknown2: u16,
        bone_weight_pairs_per_vertex: u8,
        unknown4: u8,
        root_bone_index: u16,
    },
    V4 {
        unknown0: u32,
        unknown1: u32,
        first_vertex_index: u32,
        vertices: u32,
        first_face_vertex_index_index: u32,
        face_vertex_indices: u32,
        bones: u16,
        first_bone_lookup_index: u16,
        bone_lookup_indices: u16,
        unknown2: u16,
        bone_weight_pairs_per_vertex: u8,
        unknown4: u8,
        root_bone_index: u16,
        unknown5: u32,
    },
    V5 {
        unknown0: u32,
        unknown1: u32,
        first_vertex_index: u32,
        vertices: u32,
        first_face_vertex_index_index: u32,
        face_vertex_indices: u32,
        bones: u16,
        first_bone_lookup_index: u16,
        bone_lookup_indices: u16,
        unknown2: u16,
        bone_weight_pairs_per_vertex: u8,
        unknown4: u8,
        root_bone_index: u16,
        unknown5: u32,
        unknown_4d066bda: [u8; 8],
    },
}

impl Record for Region {
    open spec fn supports(version: u32) -> bool {
        3 <= version <= 5
    }

    open spec fn supported_range() -> VersionRange {
        VersionRange { min: 3, max: 5 }
    }

    open spec fn stride(version: u32) -> nat {
        if version == 3 {
            36
        } else if version == 4 {
            40
        } else {
            48
        }
    }

    open spec fn value_at(data: Seq<u8>, at: int, version: u32) -> Self {
        if version == 3 {
            Region::V3 {
                unknown0: le_u32_at(data, at),
                unknown1: le_u32_at(data, at + 4),
                first_vertex_index: le_u32_at(data, at + 8),
                vertices: le_u32_at(data, at + 12),
                first_face_vertex_index_index: le_u32_at(data, at + 16),
                face_vertex_indices: le_u32_at(data, at + 20),
                bones: le_u16_at(data, at + 24),
                first_bone_lookup_index: le_u16_at(data, at + 26),
                bone_lookup_indices: le_u16_at(data, at + 28),
                unknown2: le_u16_at(data, at + 30),
                bone_weight_pairs_per_vertex: data[at + 32],
                unknown4: data[at + 33],
                root_bone_index: le_u16_at(data, at + 34),
            }
        } else if version == 4 {
            Region::V4 {
                unknown0: le_u32_at(data, at),
                unknown1: le_u32_at(data, at + 4),
                first_vertex_index: le_u32_at(data, at + 8),
                vertices: le_u32_at(data, at + 12),
                first_face_vertex_index_index: le_u32_at(data, at + 16),
                face_vertex_indices: le_u32_at(data, at + 20),
                bones: le_u16_at(data, at + 24),
                first_bone_lookup_index: le_u16_at(data, at + 26),
                bone_lookup_indices: le_u16_at(data, at + 28),
                unknown2: le_u16_at(data, at + 30),
                bone_weight_pairs_per_vertex: data[at + 32],
                unknown4: data[at + 33],
                root_bone_index: le_u16_at(data, at + 34),
                unknown5: le_u32_at(data, at + 36),
            }
        } else {
            Region::V5 {
                unknown0: le_u32_at(data, at),
                unknown1: le_u32_at(data, at + 4),
                first_vertex_index: le_u32_at(data, at + 8),
                vertices: le_u32_at(data, at + 12),
                first_face_vertex_index_index: le_u32_at(data, at + 16),
                face_vertex_indices: le_u32_at(data, at + 20),
                bones: le_u16_at(data, at + 24),
                first_bone_lookup_index: le_u16_at(data, at + 26),
                bone_lookup_indices: le_u16_at(data, at + 28),
                unknown2: le_u16_at(data, at + 30),
                bone_weight_pairs_per_vertex: data[at + 32],
                unknown4: data[at + 33],
                root_bone_index: le_u16_at(data, at + 34),
                unknown5: le_u32_at(data, at + 36),
                unknown_4d066bda: [
                    data[at + 40],
                    data[at + 41],
                    data[at + 42],
                    data[at + 43],
                    data[at + 44],
                    data[at + 45],
                    data[at + 46],
                    data[at + 47],
                ],
            }
        }
    }

    open spec fn version_of(&self) -> u32 {
        match self {
            Region::V3 { .. } => 3,
            Region::V4 { .. } => 4,
            Region::V5 { .. } => 5,
        }
    }

    proof fn lemma_layout(version: u32) {
    }

    proof fn lemma_tagged(data: Seq<u8>, at: int, version: u32) {
    }

    fn range() -> (r: VersionRange) {
        VersionRange { min: 3, max: 5 }
    }

    fn width(version: u32) -> (w: Option<usize>) {
        if version == 3 {
            Some(36)
        } else if version == 4 {
            Some(40)
        } else if version == 5 {
            Some(48)
        } else {
            None
        }
    }

    fn get(buf: &[u8], at: usize, version: u32) -> (r: Self) {
        if version == 3 {
            Region::V3 {
                unknown0: get_u32(buf, at, ByteOrder::Little),
                unknown1: get_u32(buf, at + 4, ByteOrder::Little),
                first_vertex_index: get_u32(buf, at + 8, ByteOrder::Little),
                vertices: get_u32(buf, at + 12, ByteOrder::Little),
                first_face_vertex_index_index: get_u32(buf, at + 16, ByteOrder::Little),
                face_vertex_indices: get_u32(buf, at + 20, ByteOrder::Little),
                bones: get_u16(buf, at + 24, ByteOrder::Little),
                first_bone_lookup_index: get_u16(buf, at + 26, ByteOrder::Little),
                bone_lookup_indices: get_u16(buf, at + 28, ByteOrder::Little),
                unknown2: get_u16(buf, at + 30, ByteOrder::Little),
                bone_weight_pairs_per_vertex: get_u8(buf, at + 32),
                unknown4: get_u8(buf, at + 33),
                root_bone_index: get_u16(buf, at + 34, ByteOrder::Little),
            }
        } else if version == 4 {
            Region::V4 {
                unknown0: get_u32(buf, at, ByteOrder::Little),
                unknown1: get_u32(buf, at + 4, ByteOrder::Little),
                first_vertex_index: get_u32(buf, at + 8, ByteOrder::Little),
                vertices: get_u32(buf, at + 12, ByteOrder::Little),
                first_face_vertex_index_index: get_u32(buf, at + 16, ByteOrder::Little),
                face_vertex_indices: get_u32(buf, at + 20, ByteOrder::Little),
                bones: get_u16(buf, at + 24, ByteOrder::Little),
                first_bone_lookup_index: get_u16(buf, at + 26, ByteOrder::Little),
                bone_lookup_indices: get_u16(buf, at + 28, ByteOrder::Little),
                unknown2: get_u16(buf, at + 30, ByteOrder::Little),
                bone_weight_pairs_per_vertex: get_u8(buf, at + 32),
                unknown4: get_u8(buf, at + 33),
                root_bone_index: get_u16(buf, at + 34, ByteOrder::Little),
                unknown5: get_u32(buf, at + 36, ByteOrder::Little),
            }
        } else {
            Region::V5 {
                unknown0: get_u32(buf, at, ByteOrder::Little),
                unknown1: get_u32(buf, at + 4, ByteOrder::Little),
                first_vertex_index: get_u32(buf, at + 8, ByteOrder::Little),
                vertices: get_u32(buf, at + 12, ByteOrder::Little),
                first_face_vertex_index_index: get_u32(buf, at + 16, ByteOrder::Little),
                face_vertex_indices: get_u32(buf, at + 20, ByteOrder::Little),
                bones: get_u16(buf, at + 24, ByteOrder::Little),
                first_bone_lookup_index: get_u16(buf, at + 26, ByteOrder::Little),
                bone_lookup_indices: get_u16(buf, at + 28, ByteOrder::Little),
                unknown2: get_u16(buf, at + 30, ByteOrder::Little),
                bone_weight_pairs_per_vertex: get_u8(buf, at + 32),
                unknown4: get_u8(buf, at + 33),
                root_bone_index: get_u16(buf, at + 34, ByteOrder::Little),
                unknown5: get_u32(buf, at + 36, ByteOrder::Little),
                unknown_4d066bda: [
                    get_u8(buf, at + 40),
                    get_u8(buf, at + 41),
                    get_u8(buf, at + 42),
                    get_u8(buf, at + 43),
                    get_u8(buf, at + 44),
                    get_u8(buf, at + 45),
                    get_u8(buf, at + 46),
                    get_u8(buf, at + 47),
                ],
            }
        }
    }
}

/// An object of a division: a region drawn with a material.
/// `region_index` is a position among the regions of the division and
/// `material_reference_index` one among the material references of the
/// model.
#[derive(Clone, Copy, Debug, PartialEq, Eq)]
pub struct Bat {
    pub unknown0: u32,
    pub region_index: u16,
    pub unknown1: u32,
    pub material_reference_index: u16,
    pub unknown2: i16,
}

impl Record for Bat {
    open spec fn supports(version: u32) -> bool {
        version == 1
    }

    open spec fn supported_range() -> VersionRange {
        VersionRange { min: 1, max: 1 }
    }

    open spec fn stride(version: u32) -> nat {
        14
    }

    open spec fn value_at(data: Seq<u8>, at: int, version: u32) -> Self {
        Bat {
            unknown0: le_u32_at(data, at),
            region_index: le_u16_at(data, at + 4),
            unknown1: le_u32_at(data, at + 6),
            material_reference_index: le_u16_at(data, at + 10),
            unknown2: signed16(le_u16_at(data, at + 12)),
        }
    }

    open spec fn version_of(&self) -> u32 {
        1
    }

    proof fn lemma_layout(version: u32) {
    }

    proof fn lemma_tagged(data: Seq<u8>, at: int, version: u32) {
    }

    fn range() -> (r: VersionRange) {
        VersionRange { min: 1, max: 1 }
    }

    fn width(version: u32) -> (w: Option<usize>) {
        if version == 1 {
            Some(14)
        } else {
            None
        }
    }

    fn get(buf: &[u8], at: usize, version: u32) -> (r: Self) {
        Bat {
            unknown0: get_u32(buf, at, ByteOrder::Little),
            region_index: get_u16(buf, at + 4, ByteOrder::Little),
            unknown1: get_u32(buf, at + 6, ByteOrder::Little),
            material_reference_index: get_u16(buf, at + 10, ByteOrder::Little),
            unknown2: get_i16(buf, at + 12, ByteOrder::Little),
        }
    }
}

/// A division of the mesh: references to its face indices, its regions and
/// its objects.
#[derive(Clone, Copy, Debug, PartialEq, Eq)]
pub struct DivisionData {
    pub faces: Reference,
    pub regions: Reference,
    pub objects: Reference,
    pub msec: Reference,
    pub unknown: u32,
}

impl Record for DivisionData {
    open spec fn supports(version: u32) -> bool {
        version == 2
    }

    open spec fn supported_range() -> VersionRange {
        VersionRange { min: 2, max: 2 }
    }

    open spec fn stride(version: u32) -> nat {
        52
    }

    open spec fn value_at(data: Seq<u8>, at: int, version: u32) -> Self {
        DivisionData {
            faces: Reference::value_at(data, at, 0),
            regions: Reference::value_at(data, at + 12, 0),
            objects: Reference::value_at(data, at + 24, 0),
            msec: Reference::value_at(data, at + 36, 0),
            unknown: le_u32_at(data, at + 48),
        }
    }

    open spec fn version_of(&self) -> u32 {
        2
    }

    proof fn lemma_layout(version: u32) {
    }

    proof fn lemma_tagged(data: Seq<u8>, at: int, version: u32) {
    }

    fn range() -> (r: VersionRange) {
        VersionRange { min: 2, max: 2 }
    }

    fn width(version: u32) -> (w: Option<usize>) {
        if version == 2 {
            Some(52)
        } else {
            None
        }
    }

    fn get(buf: &[u8], at: usize, version: u32) -> (r: Self) {
        DivisionData {
            faces: Reference::get(buf, at, 0),
            regions: Reference::get(buf, at + 12, 0),
            objects: Reference::get(buf, at + 24, 0),
            msec: Reference::get(buf, at + 36, 0),
            unknown: get_u32(buf, at + 48, ByteOrder::Little),
        }
    }
}

/// A point to which other models can be attached. `bone` is a position
/// among the bones of the model.
#[derive(Clone, Copy, Debug, PartialEq, Eq)]
pub struct AttachmentData {
    pub unknown: i32,
    pub name: Reference,
    pub bone: u32,
}

impl Record for AttachmentData {
    open spec fn supports(version: u32) -> bool {
        version == 1
    }

    open spec fn supported_range() -> VersionRange {
        VersionRange { min: 1, max: 1 }
    }

    open spec fn stride(version: u32) -> nat {
        20
    }

    open spec fn value_at(data: Seq<u8>, at: int, version: u32) -> Self {
        AttachmentData {
            unknown: signed32(le_u32_at(data, at)),
            name: Reference::value_at(data, at + 4, 0),
            bone: le_u32_at(data, at + 16),
        }
    }

    open spec fn version_of(&self) -> u32 {
        1
    }

    proof fn lemma_layout(version: u32) {
    }

    proof fn lemma_tagged(data: Seq<u8>, at: int, version: u32) {
    }

    fn range() -> (r: VersionRange) {
        VersionRange { min: 1, max: 1 }
    }

    fn width(version: u32) -> (w: Option<usize>) {
        if version == 1 {
            Some(20)
        } else {
            None
        }
    }

    fn get(buf: &[u8], at: usize, version: u32) -> (r: Self) {
        AttachmentData {
            unknown: get_i32(buf, at, ByteOrder::Little),
            name: Reference::get(buf, at + 4, 0),
            bone: get_u32(buf, at + 16, ByteOrder::Little),
        }
    }
}

/// The material of an object: the kind of material and its position among
/// the materials of that kind.
#[derive(Clone, Copy, Debug, PartialEq, Eq)]
pub struct MaterialReference {
    pub kind: u32,
    pub index: u32,
}

impl Record for MaterialReference {
    open spec fn supports(version: u32) -> bool {
        version == 0
    }

    open spec fn supported_range() -> VersionRange {
        VersionRange { min: 0, max: 0 }
    }

    open spec fn stride(version: u32) -> nat {
        8
    }

    open spec fn value_at(data: Seq<u8>, at: int, version: u32) -> Self {
        MaterialReference {
            kind: le_u32_at(data, at),
            index: le_u32_at(data, at + 4),
        }
    }

    open spec fn version_of(&self) -> u32 {
        0
    }

    proof fn lemma_layout(version: u32) {
    }

    proof fn lemma_tagged(data: Seq<u8>, at: int, version: u32) {
    }

    fn range() -> (r: VersionRange) {
        VersionRange { min: 0, max: 0 }
    }

    fn width(version: u32) -> (w: Option<usize>) {
        if version == 0 {
            Some(8)
        } else {
            None
        }
    }

    fn get(buf: &[u8], at: usize, version: u32) -> (r: Self) {
        MaterialReference {
            kind: get_u32(buf, at, ByteOrder::Little),
            index: get_u32(buf, at + 4, ByteOrder::Little),
        }
    }
}

// ---------------------------------------------------------------------
// Normal forms
// ---------------------------------------------------------------------

/// An event in the one shape that callers work with, whatever version it
/// was stored in. A field that a version does not store is zero.
#[derive(Clone, Copy, Debug, PartialEq, Eq)]
pub struct Event {
    pub version: u32,
    pub name: Reference,
    pub unknown_76ff2940: i32,
    pub unknown_97b2ea12: i16,
    pub unknown_294cc515: u16,
    pub matrix: Matrix44,
    pub unknown_7275bfa0: u32,
    pub unknown_a20de85: u32,
    pub unknown_2a403b40: Reference,
    pub unknown_76cf1db0: u32,
    pub unknown_e5f1b2a7: u32,
}

/// The reference to nothing.
pub open spec fn null_reference() -> Reference {
    Reference { entries: 0, index: 0, flags: 0 }
}

impl Evnt {
    /// The event in its normal form.
    pub open spec fn normalized(&self) -> Event {
        match *self {
            Evnt::V0 {
                name,
                unknown_76ff2940,
                unknown_97b2ea12,
                unknown_294cc515,
                matrix,
                unknown_7275bfa0,
                unknown_a20de85,
                unknown_76cf1db0,
            } => Event {
                version: 0,
                name,
                unknown_76ff2940,
                unknown_97b2ea12,
                unknown_294cc515,
                matrix,
                unknown_7275bfa0,
                unknown_a20de85,
                unknown_2a403b40: null_reference(),
                unknown_76cf1db0,
                unknown_e5f1b2a7: 0,
            },
            Evnt::V1 {
                name,
                unknown_76ff2940,
                unknown_97b2ea12,
                unknown_294cc515,
                matrix,
                unknown_7275bfa0,
                unknown_2a403b40,
                unknown_76cf1db0,
            } => Event {
                version: 1,
                name,
                unknown_76ff2940,
                unknown_97b2ea12,
                unknown_294cc515,
                matrix,
                unknown_7275bfa0,
                unknown_a20de85: 0,
                unknown_2a403b40,
                unknown_76cf1db0,
                unknown_e5f1b2a7: 0,
            },
            Evnt::V2 {
                name,
                unknown_76ff2940,
                unknown_97b2ea12,
                unknown_294cc515,
                matrix,
                unknown_7275bfa0,
                unknown_2a403b40,
                unknown_76cf1db0,
                unknown_e5f1b2a7,
            } => Event {
                version: 2,
                name,
                unknown_76ff2940,
                unknown_97b2ea12,
                unknown_294cc515,
                matrix,
                unknown_7275bfa0,
                unknown_a20de85: 0,
                unknown_2a403b40,
                unknown_76cf1db0,
                unknown_e5f1b2a7,
            },
        }
    }

    /// Brings the event into its normal form.
    pub fn normalize(&self) -> (r: Event)
        ensures
            r == self.normalized(),
    {
        match *self {
            Evnt::V0 {
                name,
                unknown_76ff2940,
                unknown_97b2ea12,
                unknown_294cc515,
                matrix,
                unknown_7275bfa0,
                unknown_a20de85,
                unknown_76cf1db0,
            } => Event {
                version: 0,
                name,
                unknown_76ff2940,
                unknown_97b2ea12,
                unknown_294cc515,
                matrix,
                unknown_7275bfa0,
                unknown_a20de85,
                unknown_2a403b40: Reference { entries: 0, index: 0, flags: 0 },
                unknown_76cf1db0,
                unknown_e5f1b2a7: 0,
            },
            Evnt::V1 {
                name,
                unknown_76ff2940,
                unknown_97b2ea12,
                unknown_294cc515,
                matrix,
                unknown_7275bfa0,
                unknown_2a403b40,
                unknown_76cf1db0,
            } => Event {
                version: 1,
                name,
                unknown_76ff2940,
                unknown_97b2ea12,
                unknown_294cc515,
                matrix,
                unknown_7275bfa0,
                unknown_a20de85: 0,
                unknown_2a403b40,
                unknown_76cf1db0,
                unknown_e5f1b2a7: 0,
            },
            Evnt::V2 {
                name,
                unknown_76ff2940,
                unknown_97b2ea12,
                unknown_294cc515,
                matrix,
                unknown_7275bfa0,
                unknown_2a403b40,
                unknown_76cf1db0,
                unknown_e5f1b2a7,
            } => Event {
                version: 2,
                name,
                unknown_76ff2940,
                unknown_97b2ea12,
                unknown_294cc515,
                matrix,
                unknown_7275bfa0,
                unknown_a20de85: 0,
                unknown_2a403b40,
                unknown_76cf1db0,
                unknown_e5f1b2a7,
            },
        }
    }
}

impl Event {
    /// The event in the layout of its version; of the last version where
    /// the version is none that is known.
    pub open spec fn spec_variant(&self) -> Evnt {
        if self.version == 0 {
            Evnt::V0 {
                name: self.name,
                unknown_76ff2940: self.unknown_76ff2940,
                unknown_97b2ea12: self.unknown_97b2ea12,
                unknown_294cc515: self.unknown_294cc515,
                matrix: self.matrix,
                unknown_7275bfa0: self.unknown_7275bfa0,
                unknown_a20de85: self.unknown_a20de85,
                unknown_76cf1db0: self.unknown_76cf1db0,
            }
        } else if self.version == 1 {
            Evnt::V1 {
                name: self.name,
                unknown_76ff2940: self.unknown_76ff2940,
                unknown_97b2ea12: self.unknown_97b2ea12,
                unknown_294cc515: self.unknown_294cc515,
                matrix: self.matrix,
                unknown_7275bfa0: self.unknown_7275bfa0,
                unknown_2a403b40: self.unknown_2a403b40,
                unknown_76cf1db0: self.unknown_76cf1db0,
            }
        } else {
            Evnt::V2 {
                name: self.name,
                unknown_76ff2940: self.unknown_76ff2940,
                unknown_97b2ea12: self.unknown_97b2ea12,
                unknown_294cc515: self.unknown_294cc515,
                matrix: self.matrix,
                unknown_7275bfa0: self.unknown_7275bfa0,
                unknown_2a403b40: self.unknown_2a403b40,
                unknown_76cf1db0: self.unknown_76cf1db0,
                unknown_e5f1b2a7: self.unknown_e5f1b2a7,
            }
        }
    }

    /// The event in the layout of its version.
    #[verifier::when_used_as_spec(spec_variant)]
    pub fn variant(&self) -> (r: Evnt)
        ensures
            r == self.spec_variant(),
    {
        if self.version == 0 {
            Evnt::V0 {
                name: self.name,
                unknown_76ff2940: self.unknown_76ff2940,
                unknown_97b2ea12: self.unknown_97b2ea12,
                unknown_294cc515: self.unknown_294cc515,
                matrix: self.matrix,
                unknown_7275bfa0: self.unknown_7275bfa0,
                unknown_a20de85: self.unknown_a20de85,
                unknown_76cf1db0: self.unknown_76cf1db0,
            }
        } else if self.version == 1 {
            Evnt::V1 {
                name: self.name,
                unknown_76ff2940: self.unknown_76ff2940,
                unknown_97b2ea12: self.unknown_97b2ea12,
                unknown_294cc515: self.unknown_294cc515,
                matrix: self.matrix,
                unknown_7275bfa0: self.unknown_7275bfa0,
                unknown_2a403b40: self.unknown_2a403b40,
                unknown_76cf1db0: self.unknown_76cf1db0,
            }
        } else {
            Evnt::V2 {
                name: self.name,
                unknown_76ff2940: self.unknown_76ff2940,
                unknown_97b2ea12: self.unknown_97b2ea12,
                unknown_294cc515: self.unknown_294cc515,
                matrix: self.matrix,
                unknown_7275bfa0: self.unknown_7275bfa0,
                unknown_2a403b40: self.unknown_2a403b40,
                unknown_76cf1db0: self.unknown_76cf1db0,
                unknown_e5f1b2a7: self.unknown_e5f1b2a7,
            }
        }
    }
}

/// Normalizing an event loses nothing: the normal form carries the
/// version of the event, and the event can be had back from it.
pub proof fn lemma_event_lossless(event: Evnt)
    ensures
        event.normalized().version == event.version_of(),
        event.normalized().spec_variant() == event,
{
}

/// A vertex in the one shape that callers work with, whatever layout it
/// was stored in. `format` is the flags word that selected the layout.
/// Only the first `uv_count` texture coordinates were stored; the others
/// are zero.
#[derive(Clone, Copy, Debug, PartialEq, Eq)]
pub struct VertexRecord {
    pub format: u32,
    pub position: Vec3,
    pub bone_weights: [u8; 4],
    pub bone_lookup_indices: [u8; 4],
    pub normal: Vector3AsFixed8,
    pub sign: u8,
    pub color: Option<Col>,
    pub uv_count: u8,
    pub uvs: [Vector2AsInt16; 4],
    pub tangent: Vector3AsFixed8,
    pub unused: u8,
}

/// The texture coordinate (0, 0).
pub open spec fn no_uv() -> Vector2AsInt16 {
    Vector2AsInt16 { x: 0, y: 0 }
}

impl Vertex {
    /// The vertex in its normal form.
    pub open spec fn normalized(&self) -> VertexRecord {
        match *self {
            Vertex::Format182007D {
                position,
                bone_weights,
                bone_lookup_indices,
                normal,
                sign,
                uv,
                tangent,
                unused,
            } => VertexRecord {
                format: 0x182007D,
                position,
                bone_weights,
                bone_lookup_indices,
                normal,
                sign,
                color: None,
                uv_count: 1,
                uvs: [uv, no_uv(), no_uv(), no_uv()],
                tangent,
                unused,
            },
            Vertex::Format1820261 {
                position,
                bone_weights,
                bone_lookup_indices,
                normal,
                sign,
                color,
                uv,
                tangent,
                unused,
            } => VertexRecord {
                format: 0x1820261,
                position,
                bone_weights,
                bone_lookup_indices,
                normal,
                sign,
                color: Some(color),
                uv_count: 1,
                uvs: [uv, no_uv(), no_uv(), no_uv()],
                tangent,
                unused,
            },
            Vertex::Format182027D {
                position,
                bone_weights,
                bone_lookup_indices,
                normal,
                sign,
                color,
                uv,
                tangent,
                unused,
            } => VertexRecord {
                format: 0x182027D,
                position,
                bone_weights,
                bone_lookup_indices,
                normal,
                sign,
                color: Some(color),
                uv_count: 1,
                uvs: [uv, no_uv(), no_uv(), no_uv()],
                tangent,
                unused,
            },
            Vertex::Format1860061 {
                position,
                bone_weights,
                bone_lookup_indices,
                normal,
                sign,
                uvs,
                tangent,
                unused,
            } => VertexRecord {
                format: 0x1860061,
                position,
                bone_weights,
                bone_lookup_indices,
                normal,
                sign,
                color: None,
                uv_count: 2,
                uvs: [uvs[0], uvs[1], no_uv(), no_uv()],
                tangent,
                unused,
            },
            Vertex::Format186007D {
                position,
                bone_weights,
                bone_lookup_indices,
                normal,
                sign,
                uvs,
                tangent,
                unused,
            } => VertexRecord {
                format: 0x186007D,
                position,
                bone_weights,
                bone_lookup_indices,
                normal,
                sign,
                color: None,
                uv_count: 2,
                uvs: [uvs[0], uvs[1], no_uv(), no_uv()],
                tangent,
                unused,
            },
            Vertex::Format1860261 {
                position,
                bone_weights,
                bone_lookup_indices,
                normal,
                sign,
                color,
                uvs,
                tangent,
                unused,
            } => VertexRecord {
                format: 0x1860261,
                position,
                bone_weights,
                bone_lookup_indices,
                normal,
                sign,
                color: Some(color),
                uv_count: 2,
                uvs: [uvs[0], uvs[1], no_uv(), no_uv()],
                tangent,
                unused,
            },
            Vertex::Format186027D {
                position,
                bone_weights,
                bone_lookup_indices,
                normal,
                sign,
                color,
                uvs,
                tangent,
                unused,
            } => VertexRecord {
                format: 0x186027D,
                position,
                bone_weights,
                bone_lookup_indices,
                normal,
                sign,
                color: Some(color),
                uv_count: 2,
                uvs: [uvs[0], uvs[1], no_uv(), no_uv()],
                tangent,
                unused,
            },
            Vertex::Format18E0061 {
                position,
                bone_weights,
                bone_lookup_indices,
                normal,
                sign,
                uvs,
                tangent,
                unused,
            } => VertexRecord {
                format: 0x18E0061,
                position,
                bone_weights,
                bone_lookup_indices,
                normal,
                sign,
                color: None,
                uv_count: 3,
                uvs: [uvs[0], uvs[1], uvs[2], no_uv()],
                tangent,
                unused,
            },
            Vertex::Format18E007D {
                position,
                bone_weights,
                bone_lookup_indices,
                normal,
                sign,
                uvs,
                tangent,
                unused,
            } => VertexRecord {
                format: 0x18E007D,
                position,
                bone_weights,
                bone_lookup_indices,
                normal,
                sign,
                color: None,
                uv_count: 3,
                uvs: [uvs[0], uvs[1], uvs[2], no_uv()],
                tangent,
                unused,
            },
            Vertex::Format18E0261 {
                position,
                bone_weights,
                bone_lookup_indices,
                normal,
                sign,
                color,
                uvs,
                tangent,
                unused,
            } => VertexRecord {
                format: 0x18E0261,
                position,
                bone_weights,
                bone_lookup_indices,
                normal,
                sign,
                color: Some(color),
                uv_count: 3,
                uvs: [uvs[0], uvs[1], uvs[2], no_uv()],
                tangent,
                unused,
            },
            Vertex::Format18E027D {
                position,
                bone_weights,
                bone_lookup_indices,
                normal,
                sign,
                color,
                uvs,
                tangent,
                unused,
            } => VertexRecord {
                format: 0x18E027D,
                position,
                bone_weights,
                bone_lookup_indices,
                normal,
                sign,
                color: Some(color),
                uv_count: 3,
                uvs: [uvs[0], uvs[1], uvs[2], no_uv()],
                tangent,
                unused,
            },
            Vertex::Format19E0061 {
                position,
                bone_weights,
                bone_lookup_indices,
                normal,
                sign,
                uvs,
                tangent,
                unused,
            } => VertexRecord {
                format: 0x19E0061,
                position,
                bone_weights,
                bone_lookup_indices,
                normal,
                sign,
                color: None,
                uv_count: 4,
                uvs: [uvs[0], uvs[1], uvs[2], uvs[3]],
                tangent,
                unused,
            },
            Vertex::Format19E007D {
                position,
                bone_weights,
                bone_lookup_indices,
                normal,
                sign,
                uvs,
                tangent,
                unused,
            } => VertexRecord {
                format: 0x19E007D,
                position,
                bone_weights,
                bone_lookup_indices,
                normal,
                sign,
                color: None,
                uv_count: 4,
                uvs: [uvs[0], uvs[1], uvs[2], uvs[3]],
                tangent,
                unused,
            },
            Vertex::Format19E0261 {
                position,
                bone_weights,
                bone_lookup_indices,
                normal,
                sign,
                color,
                uvs,
                tangent,
                unused,
            } => VertexRecord {
                format: 0x19E0261,
                position,
                bone_weights,
                bone_lookup_indices,
                normal,
                sign,
                color: Some(color),
                uv_count: 4,
                uvs: [uvs[0], uvs[1], uvs[2], uvs[3]],
                tangent,
                unused,
            },
            Vertex::Format19E027D {
                position,
                bone_weights,
                bone_lookup_indices,
                normal,
                sign,
                color,
                uvs,
                tangent,
                unused,
            } => VertexRecord {
                format: 0x19E027D,
                position,
                bone_weights,
                bone_lookup_indices,
                normal,
                sign,
                color: Some(color),
                uv_count: 4,
                uvs: [uvs[0], uvs[1], uvs[2], uvs[3]],
                tangent,
                unused,
            },
            Vertex::Format4182007D {
                position,
                bone_weights,
                bone_lookup_indices,
                normal,
                sign,
                uvs,
                tangent,
                unused,
            } => VertexRecord {
                format: 0x4182007D,
                position,
                bone_weights,
                bone_lookup_indices,
                normal,
                sign,
                color: None,
                uv_count: 2,
                uvs: [uvs[0], uvs[1], no_uv(), no_uv()],
                tangent,
                unused,
            },
        }
    }

    /// Brings the vertex into its normal form.
    pub fn normalize(&self) -> (r: VertexRecord)
        ensures
            r == self.normalized(),
    {
        match *self {
            Vertex::Format182007D {
                position,
                bone_weights,
                bone_lookup_indices,
                normal,
                sign,
                uv,
                tangent,
                unused,
            } => VertexRecord {
                format: 0x182007D,
                position,
                bone_weights,
                bone_lookup_indices,
                normal,
                sign,
                color: None,
                uv_count: 1,
                uvs: [
                    uv,
                    Vector2AsInt16 { x: 0, y: 0 },
                    Vector2AsInt16 { x: 0, y: 0 },
                    Vector2AsInt16 { x: 0, y: 0 },
                ],
                tangent,
                unused,
            },
            Vertex::Format1820261 {
                position,
                bone_weights,
                bone_lookup_indices,
                normal,
                sign,
                color,
                uv,
                tangent,
                unused,
            } => VertexRecord {
                format: 0x1820261,
                position,
                bone_weights,
                bone_lookup_indices,
                normal,
                sign,
                color: Some(color),
                uv_count: 1,
                uvs: [
                    uv,
                    Vector2AsInt16 { x: 0, y: 0 },
                    Vector2AsInt16 { x: 0, y: 0 },
                    Vector2AsInt16 { x: 0, y: 0 },
                ],
                tangent,
                unused,
            },
            Vertex::Format182027D {
                position,
                bone_weights,
                bone_lookup_indices,
                normal,
                sign,
                color,
                uv,
                tangent,
                unused,
            } => VertexRecord {
                format: 0x182027D,
                position,
                bone_weights,
                bone_lookup_indices,
                normal,
                sign,
                color: Some(color),
                uv_count: 1,
                uvs: [
                    uv,
                    Vector2AsInt16 { x: 0, y: 0 },
                    Vector2AsInt16 { x: 0, y: 0 },
                    Vector2AsInt16 { x: 0, y: 0 },
                ],
                tangent,
                unused,
            },
            Vertex::Format1860061 {
                position,
                bone_weights,
                bone_lookup_indices,
                normal,
                sign,
                uvs,
                tangent,
                unused,
            } => VertexRecord {
                format: 0x1860061,
                position,
                bone_weights,
                bone_lookup_indices,
                normal,
                sign,
                color: None,
                uv_count: 2,
                uvs: [uvs[0], uvs[1], Vector2AsInt16 { x: 0, y: 0 }, Vector2AsInt16 { x: 0, y: 0 }],
                tangent,
                unused,
            },
            Vertex::Format186007D {
                position,
                bone_weights,
                bone_lookup_indices,
                normal,
                sign,
                uvs,
                tangent,
                unused,
            } => VertexRecord {
                format: 0x186007D,
                position,
                bone_weights,
                bone_lookup_indices,
                normal,
                sign,
                color: None,
                uv_count: 2,
                uvs: [uvs[0], uvs[1], Vector2AsInt16 { x: 0, y: 0 }, Vector2AsInt16 { x: 0, y: 0 }],
                tangent,
                unused,
            },
            Vertex::Format1860261 {
                position,
                bone_weights,
                bone_lookup_indices,
                normal,
                sign,
                color,
                uvs,
                tangent,
                unused,
            } => VertexRecord {
                format: 0x1860261,
                position,
                bone_weights,
                bone_lookup_indices,
                normal,
                sign,
                color: Some(color),
                uv_count: 2,
                uvs: [uvs[0], uvs[1], Vector2AsInt16 { x: 0, y: 0 }, Vector2AsInt16 { x: 0, y: 0 }],
                tangent,
                unused,
            },
            Vertex::Format186027D {
                position,
                bone_weights,
                bone_lookup_indices,
                normal,
                sign,
                color,
                uvs,
                tangent,
                unused,
            } => VertexRecord {
                format: 0x186027D,
                position,
                bone_weights,
                bone_lookup_indices,
                normal,
                sign,
                color: Some(color),
                uv_count: 2,
                uvs: [uvs[0], uvs[1], Vector2AsInt16 { x: 0, y: 0 }, Vector2AsInt16 { x: 0, y: 0 }],
                tangent,
                unused,
            },
            Vertex::Format18E0061 {
                position,
                bone_weights,
                bone_lookup_indices,
                normal,
                sign,
                uvs,
                tangent,
                unused,
            } => VertexRecord {
                format: 0x18E0061,
                position,
                bone_weights,
                bone_lookup_indices,
                normal,
                sign,
                color: None,
                uv_count: 3,
                uvs: [uvs[0], uvs[1], uvs[2], Vector2AsInt16 { x: 0, y: 0 }],
                tangent,
                unused,
            },
            Vertex::Format18E007D {
                position,
                bone_weights,
                bone_lookup_indices,
                normal,
                sign,
                uvs,
                tangent,
                unused,
            } => VertexRecord {
                format: 0x18E007D,
                position,
                bone_weights,
                bone_lookup_indices,
                normal,
                sign,
                color: None,
                uv_count: 3,
                uvs: [uvs[0], uvs[1], uvs[2], Vector2AsInt16 { x: 0, y: 0 }],
                tangent,
                unused,
            },
            Vertex::Format18E0261 {
                position,
                bone_weights,
                bone_lookup_indices,
                normal,
                sign,
                color,
                uvs,
                tangent,
                unused,
            } => VertexRecord {
                format: 0x18E0261,
                position,
                bone_weights,
                bone_lookup_indices,
                normal,
                sign,
                color: Some(color),
                uv_count: 3,
                uvs: [uvs[0], uvs[1], uvs[2], Vector2AsInt16 { x: 0, y: 0 }],
                tangent,
                unused,
            },
            Vertex::Format18E027D {
                position,
                bone_weights,
                bone_lookup_indices,
                normal,
                sign,
                color,
                uvs,
                tangent,
                unused,
            } => VertexRecord {
                format: 0x18E027D,
                position,
                bone_weights,
                bone_lookup_indices,
                normal,
                sign,
                color: Some(color),
                uv_count: 3,
                uvs: [uvs[0], uvs[1], uvs[2], Vector2AsInt16 { x: 0, y: 0 }],
                tangent,
                unused,
            },
            Vertex::Format19E0061 {
                position,
                bone_weights,
                bone_lookup_indices,
                normal,
                sign,
                uvs,
                tangent,
                unused,
            } => VertexRecord {
                format: 0x19E0061,
                position,
                bone_weights,
                bone_lookup_indices,
                normal,
                sign,
                color: None,
                uv_count: 4,
                uvs: [uvs[0], uvs[1], uvs[2], uvs[3]],
                tangent,
                unused,
            },
            Vertex::Format19E007D {
                position,
                bone_weights,
                bone_lookup_indices,
                normal,
                sign,
                uvs,
                tangent,
                unused,
            } => VertexRecord {
                format: 0x19E007D,
                position,
                bone_weights,
                bone_lookup_indices,
                normal,
                sign,
                color: None,
                uv_count: 4,
                uvs: [uvs[0], uvs[1], uvs[2], uvs[3]],
                tangent,
                unused,
            },
            Vertex::Format19E0261 {
                position,
                bone_weights,
                bone_lookup_indices,
                normal,
                sign,
                color,
                uvs,
                tangent,
                unused,
            } => VertexRecord {
                format: 0x19E0261,
                position,
                bone_weights,
                bone_lookup_indices,
                normal,
                sign,
                color: Some(color),
                uv_count: 4,
                uvs: [uvs[0], uvs[1], uvs[2], uvs[3]],
                tangent,
                unused,
            },
            Vertex::Format19E027D {
                position,
                bone_weights,
                bone_lookup_indices,
                normal,
                sign,
                color,
                uvs,
                tangent,
                unused,
            } => VertexRecord {
                format: 0x19E027D,
                position,
                bone_weights,
                bone_lookup_indices,
                normal,
                sign,
                color: Some(color),
                uv_count: 4,
                uvs: [uvs[0], uvs[1], uvs[2], uvs[3]],
                tangent,
                unused,
            },
            Vertex::Format4182007D {
                position,
                bone_weights,
                bone_lookup_indices,
                normal,
                sign,
                uvs,
                tangent,
                unused,
            } => VertexRecord {
                format: 0x4182007D,
                position,
                bone_weights,
                bone_lookup_indices,
                normal,
                sign,
                color: None,
                uv_count: 2,
                uvs: [uvs[0], uvs[1], Vector2AsInt16 { x: 0, y: 0 }, Vector2AsInt16 { x: 0, y: 0 }],
                tangent,
                unused,
            },
        }
    }
}

/// Normalizing a vertex keeps the flags word that selected its layout, and
/// stores a color exactly where the layout has one.
pub proof fn lemma_vertex_tagged(vertex: Vertex)
    ensures
        vertex.normalized().format == vertex.version_of(),
        Vertex::supports(vertex.normalized().format),
        1 <= vertex.normalized().uv_count <= 4,
{
}

} // verus!
