//! The model record of the chunked model format: the one record from
//! which every other section of a file is reached.
//!
//! The record grew from version to version; each version has a layout of
//! its own here, field by field. All numbers are little-endian. The
//! layouts follow what users of the format have worked out, and are
//! provisional where that is incomplete.

use vstd::prelude::*;
use crate::error::VersionRange;
use crate::m3::{Bnds, Matrix44};
use crate::primitives::{
    f32_at, get_f32, get_i16, get_u16, get_u32, get_u8, le_u16_at, le_u32_at, signed16, ByteOrder,
    Float32,
};
use crate::reference::{Record, Reference};

verus! {

/// The flags of a model.
#[derive(Clone, Copy, Debug, PartialEq, Eq, Structural)]
pub struct ModelFlags {
    pub bits: u32,
}

impl ModelFlags {
    /// The model has a mesh.
    pub const HAS_MESH: u32 = 0x00100000;

    /// Every bit that the format declares.
    pub const MASK: u32 = 0x00100000;

    /// The bits that are set outside the declared mask.
    pub open spec fn spec_reserved(&self) -> u32 {
        self.bits & !Self::MASK
    }

    /// Whether no bit is set outside the declared mask.
    pub open spec fn spec_is_valid(&self) -> bool {
        self.spec_reserved() == 0
    }

    /// Whether every bit of `flag` is set.
    pub open spec fn spec_contains(&self, flag: u32) -> bool {
        self.bits & flag == flag
    }

    /// The flag word as it stands, reserved bits included.
    pub fn from_bits_retain(bits: u32) -> (r: Self)
        ensures
            r.bits == bits,
    {
        ModelFlags { bits }
    }

    /// The flag word, or `None` where a bit outside the declared mask is
    /// set.
    pub fn from_bits(bits: u32) -> (r: Option<Self>)
        ensures
            r == if (ModelFlags { bits }).spec_is_valid() {
                Some(ModelFlags { bits })
            } else {
                None
            },
    {
        if bits & !Self::MASK == 0 {
            Some(ModelFlags { bits })
        } else {
            None
        }
    }

    /// The flag word without the bits outside the declared mask.
    pub fn from_bits_truncate(bits: u32) -> (r: Self)
        ensures
            r.bits == bits & Self::MASK,
            r.spec_is_valid(),
    {
        assert((bits & 0x00100000u32) & !0x00100000u32 == 0) by (bit_vector);
        ModelFlags { bits: bits & Self::MASK }
    }

    /// The bits that are set outside the declared mask.
    #[verifier::when_used_as_spec(spec_reserved)]
    pub fn reserved(&self) -> (r: u32)
        ensures
            r == self.spec_reserved(),
    {
        self.bits & !Self::MASK
    }

    /// Whether no bit is set outside the declared mask.
    #[verifier::when_used_as_spec(spec_is_valid)]
    pub fn is_valid(&self) -> (r: bool)
        ensures
            r == self.spec_is_valid(),
    {
        self.bits & !Self::MASK == 0
    }

    /// Whether every bit of `flag` is set.
    #[verifier::when_used_as_spec(spec_contains)]
    pub fn contains(&self, flag: u32) -> (r: bool)
        ensures
            r == self.spec_contains(flag),
    {
        self.bits & flag == flag
    }

    /// The model has a mesh.
    pub fn has_mesh(&self) -> (r: bool)
        ensures
            r == self.spec_contains(Self::HAS_MESH),
    {
        self.contains(Self::HAS_MESH)
    }
}

/// What the vertices of a model store. The whole word selects the layout of
/// a vertex.
#[derive(Clone, Copy, Debug, PartialEq, Eq, Structural)]
pub struct VertexFlags {
    pub bits: u32,
}

impl VertexFlags {
    /// Vertices store a color.
    pub const HAS_VERTEX_COLORS: u32 = 0x00000200;

    /// The model has vertices.
    pub const HAS_VERTICES: u32 = 0x00020000;

    /// Vertices store a second texture coordinate.
    pub const USE_UV_CHANNEL1: u32 = 0x00040000;

    /// Vertices store a third texture coordinate.
    pub const USE_UV_CHANNEL2: u32 = 0x00080000;

    /// Vertices store a fourth texture coordinate.
    pub const USE_UV_CHANNEL3: u32 = 0x00100000;

    /// Every bit that the format declares.
    pub const MASK: u32 = 0x001E0200;

    /// The bits that are set outside the declared mask.
    pub open spec fn spec_reserved(&self) -> u32 {
        self.bits & !Self::MASK
    }

    /// Whether no bit is set outside the declared mask.
    pub open spec fn spec_is_valid(&self) -> bool {
        self.spec_reserved() == 0
    }

    /// Whether every bit of `flag` is set.
    pub open spec fn spec_contains(&self, flag: u32) -> bool {
        self.bits & flag == flag
    }

    /// The flag word as it stands, reserved bits included.
    pub fn from_bits_retain(bits: u32) -> (r: Self)
        ensures
            r.bits == bits,
    {
        VertexFlags { bits }
    }

    /// The flag word, or `None` where a bit outside the declared mask is
    /// set.
    pub fn from_bits(bits: u32) -> (r: Option<Self>)
        ensures
            r == if (VertexFlags { bits }).spec_is_valid() {
                Some(VertexFlags { bits })
            } else {
                None
            },
    {
        if bits & !Self::MASK == 0 {
            Some(VertexFlags { bits })
        } else {
            None
        }
    }

    /// The flag word without the bits outside the declared mask.
    pub fn from_bits_truncate(bits: u32) -> (r: Self)
        ensures
            r.bits == bits & Self::MASK,
            r.spec_is_valid(),
    {
        assert((bits & 0x001E0200u32) & !0x001E0200u32 == 0) by (bit_vector);
        VertexFlags { bits: bits & Self::MASK }
    }

    /// The bits that are set outside the declared mask.
    #[verifier::when_used_as_spec(spec_reserved)]
    pub fn reserved(&self) -> (r: u32)
        ensures
            r == self.spec_reserved(),
    {
        self.bits & !Self::MASK
    }

    /// Whether no bit is set outside the declared mask.
    #[verifier::when_used_as_spec(spec_is_valid)]
    pub fn is_valid(&self) -> (r: bool)
        ensures
            r == self.spec_is_valid(),
    {
        self.bits & !Self::MASK == 0
    }

    /// Whether every bit of `flag` is set.
    #[verifier::when_used_as_spec(spec_contains)]
    pub fn contains(&self, flag: u32) -> (r: bool)
        ensures
            r == self.spec_contains(flag),
    {
        self.bits & flag == flag
    }

    /// Vertices store a color.
    pub fn has_vertex_colors(&self) -> (r: bool)
        ensures
            r == self.spec_contains(Self::HAS_VERTEX_COLORS),
    {
        self.contains(Self::HAS_VERTEX_COLORS)
    }

    /// The model has vertices.
    pub fn has_vertices(&self) -> (r: bool)
        ensures
            r == self.spec_contains(Self::HAS_VERTICES),
    {
        self.contains(Self::HAS_VERTICES)
    }

    /// Vertices store a second texture coordinate.
    pub fn use_uv_channel1(&self) -> (r: bool)
        ensures
            r == self.spec_contains(Self::USE_UV_CHANNEL1),
    {
        self.contains(Self::USE_UV_CHANNEL1)
    }

    /// Vertices store a third texture coordinate.
    pub fn use_uv_channel2(&self) -> (r: bool)
        ensures
            r == self.spec_contains(Self::USE_UV_CHANNEL2),
    {
        self.contains(Self::USE_UV_CHANNEL2)
    }

    /// Vertices store a fourth texture coordinate.
    pub fn use_uv_channel3(&self) -> (r: bool)
        ensures
            r == self.spec_contains(Self::USE_UV_CHANNEL3),
    {
        self.contains(Self::USE_UV_CHANNEL3)
    }
}

/// A cuboid (`shape` 0), a sphere (1) or a cylinder (2), placed by a matrix
/// relative to a bone.
#[derive(Clone, Copy, Debug, PartialEq, Eq)]
pub struct SuperSimpleGeometricShape {
    pub shape: u32,
    pub bone_index: i16,
    pub unknown6: u16,
    pub matrix: Matrix44,
    pub unknown72: u32,
    pub unknown76: u32,
    pub unknown80: u32,
    pub unknown84: u32,
    pub unknown88: u32,
    pub unknown92: u32,
    pub sizes: [Float32; 3],
}

impl Record for SuperSimpleGeometricShape {
    open spec fn supports(version: u32) -> bool {
        version == 0
    }

    open spec fn supported_range() -> VersionRange {
        VersionRange { min: 0, max: 0 }
    }

    open spec fn stride(version: u32) -> nat {
        108
    }

    open spec fn value_at(data: Seq<u8>, at: int, version: u32) -> Self {
        SuperSimpleGeometricShape {
            shape: le_u32_at(data, at),
            bone_index: signed16(le_u16_at(data, at + 4)),
            unknown6: le_u16_at(data, at + 6),
            matrix: Matrix44::value_at(data, at + 8, 0),
            unknown72: le_u32_at(data, at + 72),
            unknown76: le_u32_at(data, at + 76),
            unknown80: le_u32_at(data, at + 80),
            unknown84: le_u32_at(data, at + 84),
            unknown88: le_u32_at(data, at + 88),
            unknown92: le_u32_at(data, at + 92),
            sizes: [
                f32_at(data, at + 96, ByteOrder::Little),
                f32_at(data, at + 100, ByteOrder::Little),
                f32_at(data, at + 104, ByteOrder::Little),
            ],
        }
    }

    open spec fn version_of(&self) -> u32 {
        0
    }

    proof fn lemma_layout(version: u32) {
    }

    proof fn lemma_tagged(data: Seq<u8>, at: int, version: u32) {
    }

    fn range() -> (r: VersionRange) {
        VersionRange { min: 0, max: 0 }
    }

    fn width(version: u32) -> (w: Option<usize>) {
        if version == 0 {
            Some(108)
        } else {
            None
        }
    }

    fn get(buf: &[u8], at: usize, version: u32) -> (r: Self) {
        SuperSimpleGeometricShape {
            shape: get_u32(buf, at, ByteOrder::Little),
            bone_index: get_i16(buf, at + 4, ByteOrder::Little),
            unknown6: get_u16(buf, at + 6, ByteOrder::Little),
            matrix: Matrix44::get(buf, at + 8, 0),
            unknown72: get_u32(buf, at + 72, ByteOrder::Little),
            unknown76: get_u32(buf, at + 76, ByteOrder::Little),
            unknown80: get_u32(buf, at + 80, ByteOrder::Little),
            unknown84: get_u32(buf, at + 84, ByteOrder::Little),
            unknown88: get_u32(buf, at + 88, ByteOrder::Little),
            unknown92: get_u32(buf, at + 92, ByteOrder::Little),
            sizes: [
                get_f32(buf, at + 96, ByteOrder::Little),
                get_f32(buf, at + 100, ByteOrder::Little),
                get_f32(buf, at + 104, ByteOrder::Little),
            ],
        }
    }
}

/// The model record in the layout of one of its versions.
#[derive(Clone, Copy, Debug, PartialEq, Eq)]
pub enum ModelData {
    V23 {
        name: Reference,
        flags: ModelFlags,
        sequences: Reference,
        sequence_transformation_collections: Reference,
        sequence_transformation_groups: Reference,
        unknown00: Float32,
        unknown01: Float32,
        unknown02: Float32,
        unknown03: Float32,
        sts: Reference,
        bones: Reference,
        number_of_bones_to_check_for_skin: u32,
        vflags: VertexFlags,
        vertices: Reference,
        divisions: Reference,
        bone_lookup: Reference,
        boundings: Bnds,
        bounding_flags: u32,
        unknown04: u32,
        unknown05: u32,
        unknown06: u32,
        unknown07: u32,
        unknown08: u32,
        unknown09: u32,
        unknown10: u32,
        unknown11: u32,
        unknown12: u32,
        unknown13: u32,
        unknown14: u32,
        unknown15: u32,
        unknown16: u32,
        unknown17: u32,
        unknown18: u32,
        unknown19: u32,
        attachment_points: Reference,
        attachment_point_addons: Reference,
        lights: Reference,
        shbx_data: Reference,
        cameras: Reference,
        d: Reference,
        material_references: Reference,
        standard_materials: Reference,
        displacement_materials: Reference,
        composite_materials: Reference,
        terrain_materials: Reference,
        volume_materials: Reference,
        unknown20: Reference,
        creep_materials: Reference,
        particles: Reference,
        particle_copies: Reference,
        ribbons: Reference,
        projections: Reference,
        forces: Reference,
        warps: Reference,
        unknown21: Reference,
        rigid_bodies: Reference,
        unknown22: Reference,
        physical_joint: Reference,
        unknown23: Reference,
        ikjt_data: Reference,
        unknown24: Reference,
        parts_of_turrent_behaviors: Reference,
        turrent_behaviors: Reference,
        absolute_inverse_bone_rest_positions: Reference,
        tight_hit_test: SuperSimpleGeometricShape,
        fuzzy_hit_test_objects: Reference,
        attachment_volumes: Reference,
        attachment_volumes_addons: [Reference; 2],
        billboard_behaviors: Reference,
        tmd_data: Reference,
        unique_unknown_number: u32,
        unknown45: Reference,
    },
    V25 {
        name: Reference,
        flags: ModelFlags,
        sequences: Reference,
        sequence_transformation_collections: Reference,
        sequence_transformation_groups: Reference,
        unknown00: Float32,
        unknown01: Float32,
        unknown02: Float32,
        unknown03: Float32,
        sts: Reference,
        bones: Reference,
        number_of_bones_to_check_for_skin: u32,
        vflags: VertexFlags,
        vertices: Reference,
        divisions: Reference,
        bone_lookup: Reference,
        boundings: Bnds,
        bounding_flags: u32,
        unknown04: u32,
        unknown05: u32,
        unknown06: u32,
        unknown07: u32,
        unknown08: u32,
        unknown09: u32,
        unknown10: u32,
        unknown11: u32,
        unknown12: u32,
        unknown13: u32,
        unknown14: u32,
        unknown15: u32,
        unknown16: u32,
        unknown17: u32,
        unknown18: u32,
        unknown19: u32,
        attachment_points: Reference,
        attachment_point_addons: Reference,
        lights: Reference,
        shbx_data: Reference,
        cameras: Reference,
        d: Reference,
        material_references: Reference,
        standard_materials: Reference,
        displacement_materials: Reference,
        composite_materials: Reference,
        terrain_materials: Reference,
        volume_materials: Reference,
        unknown20: Reference,
        creep_materials: Reference,
        volume_noise_materials: Reference,
        particles: Reference,
        particle_copies: Reference,
        ribbons: Reference,
        projections: Reference,
        forces: Reference,
        warps: Reference,
        unknown21: Reference,
        rigid_bodies: Reference,
        unknown22: Reference,
        physical_joint: Reference,
        unknown23: Reference,
        ikjt_data: Reference,
        unknown24: Reference,
        unknown_bd5657bd: [u8; 12],
        parts_of_turrent_behaviors: Reference,
        turrent_behaviors: Reference,
        absolute_inverse_bone_rest_positions: Reference,
        tight_hit_test: SuperSimpleGeometricShape,
        fuzzy_hit_test_objects: Reference,
        attachment_volumes: Reference,
        attachment_volumes_addons: [Reference; 2],
        billboard_behaviors: Reference,
        tmd_data: Reference,
        unique_unknown_number: u32,
        unknown45: Reference,
    },
    V26 {
        name: Reference,
        flags: ModelFlags,
        sequences: Reference,
        sequence_transformation_collections: Reference,
        sequence_transformation_groups: Reference,
        unknown00: Float32,
        unknown01: Float32,
        unknown02: Float32,
        unknown03: Float32,
        sts: Reference,
        bones: Reference,
        number_of_bones_to_check_for_skin: u32,
        vflags: VertexFlags,
        vertices: Reference,
        divisions: Reference,
        bone_lookup: Reference,
        boundings: Bnds,
        bounding_flags: u32,
        unknown04: u32,
        unknown05: u32,
        unknown06: u32,
        unknown07: u32,
        unknown08: u32,
        unknown09: u32,
        unknown10: u32,
        unknown11: u32,
        unknown12: u32,
        unknown13: u32,
        unknown14: u32,
        unknown15: u32,
        unknown16: u32,
        unknown17: u32,
        unknown18: u32,
        unknown19: u32,
        attachment_points: Reference,
        attachment_point_addons: Reference,
        lights: Reference,
        shbx_data: Reference,
        cameras: Reference,
        d: Reference,
        material_references: Reference,
        standard_materials: Reference,
        displacement_materials: Reference,
        composite_materials: Reference,
        terrain_materials: Reference,
        volume_materials: Reference,
        unknown20: Reference,
        creep_materials: Reference,
        volume_noise_materials: Reference,
        splat_terrain_bake_materials: Reference,
        particles: Reference,
        particle_copies: Reference,
        ribbons: Reference,
        projections: Reference,
        forces: Reference,
        warps: Reference,
        unknown21: Reference,
        rigid_bodies: Reference,
        unknown22: Reference,
        physical_joint: Reference,
        unknown23: Reference,
        ikjt_data: Reference,
        unknown24: Reference,
        unknown_bd5657bd: [u8; 12],
        parts_of_turrent_behaviors: Reference,
        turrent_behaviors: Reference,
        absolute_inverse_bone_rest_positions: Reference,
        tight_hit_test: SuperSimpleGeometricShape,
        fuzzy_hit_test_objects: Reference,
        attachment_volumes: Reference,
        attachment_volumes_addons: [Reference; 2],
        billboard_behaviors: Reference,
        tmd_data: Reference,
        unique_unknown_number: u32,
        unknown45: Reference,
    },
    V28 {
        name: Reference,
        flags: ModelFlags,
        sequences: Reference,
        sequence_transformation_collections: Reference,
        sequence_transformation_groups: Reference,
        unknown00: Float32,
        unknown01: Float32,
        unknown02: Float32,
        unknown03: Float32,
        sts: Reference,
        bones: Reference,
        number_of_bones_to_check_for_skin: u32,
        vflags: VertexFlags,
        vertices: Reference,
        divisions: Reference,
        bone_lookup: Reference,
        boundings: Bnds,
        bounding_flags: u32,
        unknown04: u32,
        unknown05: u32,
        unknown06: u32,
        unknown07: u32,
        unknown08: u32,
        unknown09: u32,
        unknown10: u32,
        unknown11: u32,
        unknown12: u32,
        unknown13: u32,
        unknown14: u32,
        unknown15: u32,
        unknown16: u32,
        unknown17: u32,
        unknown18: u32,
        unknown19: u32,
        attachment_points: Reference,
        attachment_point_addons: Reference,
        lights: Reference,
        shbx_data: Reference,
        cameras: Reference,
        d: Reference,
        material_references: Reference,
        standard_materials: Reference,
        displacement_materials: Reference,
        composite_materials: Reference,
        terrain_materials: Reference,
        volume_materials: Reference,
        unknown20: Reference,
        creep_materials: Reference,
        volume_noise_materials: Reference,
        splat_terrain_bake_materials: Reference,
        unknown25: Reference,
        particles: Reference,
        particle_copies: Reference,
        ribbons: Reference,
        projections: Reference,
        forces: Reference,
        warps: Reference,
        unknown21: Reference,
        rigid_bodies: Reference,
        unknown22: Reference,
        physical_joint: Reference,
        cloth_behavior: Reference,
        unknown23: Reference,
        ikjt_data: Reference,
        unknown24: Reference,
        unknown_bd5657bd: [u8; 12],
        parts_of_turrent_behaviors: Reference,
        turrent_behaviors: Reference,
        absolute_inverse_bone_rest_positions: Reference,
        tight_hit_test: SuperSimpleGeometricShape,
        fuzzy_hit_test_objects: Reference,
        attachment_volumes: Reference,
        attachment_volumes_addons: [Reference; 2],
        billboard_behaviors: Reference,
        tmd_data: Reference,
        unique_unknown_number: u32,
        unknown45: Reference,
    },
    V29 {
        name: Reference,
        flags: ModelFlags,
        sequences: Reference,
        sequence_transformation_collections: Reference,
        sequence_transformation_groups: Reference,
        unknown00: Float32,
        unknown01: Float32,
        unknown02: Float32,
        unknown03: Float32,
        sts: Reference,
        bones: Reference,
        number_of_bones_to_check_for_skin: u32,
        vflags: VertexFlags,
        vertices: Reference,
        divisions: Reference,
        bone_lookup: Reference,
        boundings: Bnds,
        bounding_flags: u32,
        unknown04: u32,
        unknown05: u32,
        unknown06: u32,
        unknown07: u32,
        unknown08: u32,
        unknown09: u32,
        unknown10: u32,
        unknown11: u32,
        unknown12: u32,
        unknown13: u32,
        unknown14: u32,
        unknown15: u32,
        unknown16: u32,
        unknown17: u32,
        unknown18: u32,
        unknown19: u32,
        attachment_points: Reference,
        attachment_point_addons: Reference,
        lights: Reference,
        shbx_data: Reference,
        cameras: Reference,
        d: Reference,
        material_references: Reference,
        standard_materials: Reference,
        displacement_materials: Reference,
        composite_materials: Reference,
        terrain_materials: Reference,
        volume_materials: Reference,
        unknown20: Reference,
        creep_materials: Reference,
        volume_noise_materials: Reference,
        splat_terrain_bake_materials: Reference,
        unknown25: Reference,
        lens_flare_materials: Reference,
        particles: Reference,
        particle_copies: Reference,
        ribbons: Reference,
        projections: Reference,
        forces: Reference,
        warps: Reference,
        unknown21: Reference,
        rigid_bodies: Reference,
        unknown22: Reference,
        physical_joint: Reference,
        cloth_behavior: Reference,
        unknown23: Reference,
        ikjt_data: Reference,
        unknown24: Reference,
        unknown_bd5657bd: [u8; 12],
        parts_of_turrent_behaviors: Reference,
        turrent_behaviors: Reference,
        absolute_inverse_bone_rest_positions: Reference,
        tight_hit_test: SuperSimpleGeometricShape,
        fuzzy_hit_test_objects: Reference,
        attachment_volumes: Reference,
        attachment_volumes_addons: [Reference; 2],
        billboard_behaviors: Reference,
        tmd_data: Reference,
        unique_unknown_number: u32,
        unknown45: Reference,
    },
}

impl ModelData {
    /// Decodes the layout `V23` at `at`.
    #[verifier::spinoff_prover]
    #[verifier::rlimit(100)]
    fn get_v23(buf: &[u8], at: usize) -> (r: Self)
        requires
            at + 788 <= buf@.len() <= usize::MAX,
        ensures
            r == Self::value_at(buf@, at as int, 23),
    {
        ModelData::V23 {
            name: Reference::get(buf, at, 0),
            flags: ModelFlags { bits: get_u32(buf, at + 12, ByteOrder::Little) },
            sequences: Reference::get(buf, at + 16, 0),
            sequence_transformation_collections: Reference::get(buf, at + 28, 0),
            sequence_transformation_groups: Reference::get(buf, at + 40, 0),
            unknown00: get_f32(buf, at + 52, ByteOrder::Little),
            unknown01: get_f32(buf, at + 56, ByteOrder::Little),
            unknown02: get_f32(buf, at + 60, ByteOrder::Little),
            unknown03: get_f32(buf, at + 64, ByteOrder::Little),
            sts: Reference::get(buf, at + 68, 0),
            bones: Reference::get(buf, at + 80, 0),
            number_of_bones_to_check_for_skin: get_u32(buf, at + 92, ByteOrder::Little),
            vflags: VertexFlags { bits: get_u32(buf, at + 96, ByteOrder::Little) },
            vertices: Reference::get(buf, at + 100, 0),
            divisions: Reference::get(buf, at + 112, 0),
            bone_lookup: Reference::get(buf, at + 124, 0),
            boundings: Bnds::get(buf, at + 136, 0),
            bounding_flags: get_u32(buf, at + 164, ByteOrder::Little),
            unknown04: get_u32(buf, at + 168, ByteOrder::Little),
            unknown05: get_u32(buf, at + 172, ByteOrder::Little),
            unknown06: get_u32(buf, at + 176, ByteOrder::Little),
            unknown07: get_u32(buf, at + 180, ByteOrder::Little),
            unknown08: get_u32(buf, at + 184, ByteOrder::Little),
            unknown09: get_u32(buf, at + 188, ByteOrder::Little),
            unknown10: get_u32(buf, at + 192, ByteOrder::Little),
            unknown11: get_u32(buf, at + 196, ByteOrder::Little),
            unknown12: get_u32(buf, at + 200, ByteOrder::Little),
            unknown13: get_u32(buf, at + 204, ByteOrder::Little),
            unknown14: get_u32(buf, at + 208, ByteOrder::Little),
            unknown15: get_u32(buf, at + 212, ByteOrder::Little),
            unknown16: get_u32(buf, at + 216, ByteOrder::Little),
            unknown17: get_u32(buf, at + 220, ByteOrder::Little),
            unknown18: get_u32(buf, at + 224, ByteOrder::Little),
            unknown19: get_u32(buf, at + 228, ByteOrder::Little),
            attachment_points: Reference::get(buf, at + 232, 0),
            attachment_point_addons: Reference::get(buf, at + 244, 0),
            lights: Reference::get(buf, at + 256, 0),
            shbx_data: Reference::get(buf, at + 268, 0),
            cameras: Reference::get(buf, at + 280, 0),
            d: Reference::get(buf, at + 292, 0),
            material_references: Reference::get(buf, at + 304, 0),
            standard_materials: Reference::get(buf, at + 316, 0),
            displacement_materials: Reference::get(buf, at + 328, 0),
            composite_materials: Reference::get(buf, at + 340, 0),
            terrain_materials: Reference::get(buf, at + 352, 0),
            volume_materials: Reference::get(buf, at + 364, 0),
            unknown20: Reference::get(buf, at + 376, 0),
            creep_materials: Reference::get(buf, at + 388, 0),
            particles: Reference::get(buf, at + 400, 0),
            particle_copies: Reference::get(buf, at + 412, 0),
            ribbons: Reference::get(buf, at + 424, 0),
            projections: Reference::get(buf, at + 436, 0),
            forces: Reference::get(buf, at + 448, 0),
            warps: Reference::get(buf, at + 460, 0),
            unknown21: Reference::get(buf, at + 472, 0),
            rigid_bodies: Reference::get(buf, at + 484, 0),
            unknown22: Reference::get(buf, at + 496, 0),
            physical_joint: Reference::get(buf, at + 508, 0),
            unknown23: Reference::get(buf, at + 520, 0),
            ikjt_data: Reference::get(buf, at + 532, 0),
            unknown24: Reference::get(buf, at + 544, 0),
            parts_of_turrent_behaviors: Reference::get(buf, at + 556, 0),
            turrent_behaviors: Reference::get(buf, at + 568, 0),
            absolute_inverse_bone_rest_positions: Reference::get(buf, at + 580, 0),
            tight_hit_test: SuperSimpleGeometricShape::get(buf, at + 592, 0),
            fuzzy_hit_test_objects: Reference::get(buf, at + 700, 0),
            attachment_volumes: Reference::get(buf, at + 712, 0),
            attachment_volumes_addons: [
                Reference::get(buf, at + 724, 0),
                Reference::get(buf, at + 736, 0),
            ],
            billboard_behaviors: Reference::get(buf, at + 748, 0),
            tmd_data: Reference::get(buf, at + 760, 0),
            unique_unknown_number: get_u32(buf, at + 772, ByteOrder::Little),
            unknown45: Reference::get(buf, at + 776, 0),
        }
    }

    /// Decodes the layout `V25` at `at`.
    #[verifier::spinoff_prover]
    #[verifier::rlimit(100)]
    fn get_v25(buf: &[u8], at: usize) -> (r: Self)
        requires
            at + 812 <= buf@.len() <= usize::MAX,
        ensures
            r == Self::value_at(buf@, at as int, 25),
    {
        ModelData::V25 {
            name: Reference::get(buf, at, 0),
            flags: ModelFlags { bits: get_u32(buf, at + 12, ByteOrder::Little) },
            sequences: Reference::get(buf, at + 16, 0),
            sequence_transformation_collections: Reference::get(buf, at + 28, 0),
            sequence_transformation_groups: Reference::get(buf, at + 40, 0),
            unknown00: get_f32(buf, at + 52, ByteOrder::Little),
            unknown01: get_f32(buf, at + 56, ByteOrder::Little),
            unknown02: get_f32(buf, at + 60, ByteOrder::Little),
            unknown03: get_f32(buf, at + 64, ByteOrder::Little),
            sts: Reference::get(buf, at + 68, 0),
            bones: Reference::get(buf, at + 80, 0),
            number_of_bones_to_check_for_skin: get_u32(buf, at + 92, ByteOrder::Little),
            vflags: VertexFlags { bits: get_u32(buf, at + 96, ByteOrder::Little) },
            vertices: Reference::get(buf, at + 100, 0),
            divisions: Reference::get(buf, at + 112, 0),
            bone_lookup: Reference::get(buf, at + 124, 0),
            boundings: Bnds::get(buf, at + 136, 0),
            bounding_flags: get_u32(buf, at + 164, ByteOrder::Little),
            unknown04: get_u32(buf, at + 168, ByteOrder::Little),
            unknown05: get_u32(buf, at + 172, ByteOrder::Little),
            unknown06: get_u32(buf, at + 176, ByteOrder::Little),
            unknown07: get_u32(buf, at + 180, ByteOrder::Little),
            unknown08: get_u32(buf, at + 184, ByteOrder::Little),
            unknown09: get_u32(buf, at + 188, ByteOrder::Little),
            unknown10: get_u32(buf, at + 192, ByteOrder::Little),
            unknown11: get_u32(buf, at + 196, ByteOrder::Little),
            unknown12: get_u32(buf, at + 200, ByteOrder::Little),
            unknown13: get_u32(buf, at + 204, ByteOrder::Little),
            unknown14: get_u32(buf, at + 208, ByteOrder::Little),
            unknown15: get_u32(buf, at + 212, ByteOrder::Little),
            unknown16: get_u32(buf, at + 216, ByteOrder::Little),
            unknown17: get_u32(buf, at + 220, ByteOrder::Little),
            unknown18: get_u32(buf, at + 224, ByteOrder::Little),
            unknown19: get_u32(buf, at + 228, ByteOrder::Little),
            attachment_points: Reference::get(buf, at + 232, 0),
            attachment_point_addons: Reference::get(buf, at + 244, 0),
            lights: Reference::get(buf, at + 256, 0),
            shbx_data: Reference::get(buf, at + 268, 0),
            cameras: Reference::get(buf, at + 280, 0),
            d: Reference::get(buf, at + 292, 0),
            material_references: Reference::get(buf, at + 304, 0),
            standard_materials: Reference::get(buf, at + 316, 0),
            displacement_materials: Reference::get(buf, at + 328, 0),
            composite_materials: Reference::get(buf, at + 340, 0),
            terrain_materials: Reference::get(buf, at + 352, 0),
            volume_materials: Reference::get(buf, at + 364, 0),
            unknown20: Reference::get(buf, at + 376, 0),
            creep_materials: Reference::get(buf, at + 388, 0),
            volume_noise_materials: Reference::get(buf, at + 400, 0),
            particles: Reference::get(buf, at + 412, 0),
            particle_copies: Reference::get(buf, at + 424, 0),
            ribbons: Reference::get(buf, at + 436, 0),
            projections: Reference::get(buf, at + 448, 0),
            forces: Reference::get(buf, at + 460, 0),
            warps: Reference::get(buf, at + 472, 0),
            unknown21: Reference::get(buf, at + 484, 0),
            rigid_bodies: Reference::get(buf, at + 496, 0),
            unknown22: Reference::get(buf, at + 508, 0),
            physical_joint: Reference::get(buf, at + 520, 0),
            unknown23: Reference::get(buf, at + 532, 0),
            ikjt_data: Reference::get(buf, at + 544, 0),
            unknown24: Reference::get(buf, at + 556, 0),
            unknown_bd5657bd: [
                get_u8(buf, at + 568),
                get_u8(buf, at + 569),
                get_u8(buf, at + 570),
                get_u8(buf, at + 571),
                get_u8(buf, at + 572),
                get_u8(buf, at + 573),
                get_u8(buf, at + 574),
                get_u8(buf, at + 575),
                get_u8(buf, at + 576),
                get_u8(buf, at + 577),
                get_u8(buf, at + 578),
                get_u8(buf, at + 579),
            ],
            parts_of_turrent_behaviors: Reference::get(buf, at + 580, 0),
            turrent_behaviors: Reference::get(buf, at + 592, 0),
            absolute_inverse_bone_rest_positions: Reference::get(buf, at + 604, 0),
            tight_hit_test: SuperSimpleGeometricShape::get(buf, at + 616, 0),
            fuzzy_hit_test_objects: Reference::get(buf, at + 724, 0),
            attachment_volumes: Reference::get(buf, at + 736, 0),
            attachment_volumes_addons: [
                Reference::get(buf, at + 748, 0),
                Reference::get(buf, at + 760, 0),
            ],
            billboard_behaviors: Reference::get(buf, at + 772, 0),
            tmd_data: Reference::get(buf, at + 784, 0),
            unique_unknown_number: get_u32(buf, at + 796, ByteOrder::Little),
            unknown45: Reference::get(buf, at + 800, 0),
        }
    }

    /// Decodes the layout `V26` at `at`.
    #[verifier::spinoff_prover]
    #[verifier::rlimit(100)]
    fn get_v26(buf: &[u8], at: usize) -> (r: Self)
        requires
            at + 824 <= buf@.len() <= usize::MAX,
        ensures
            r == Self::value_at(buf@, at as int, 26),
    {
        ModelData::V26 {
            name: Reference::get(buf, at, 0),
            flags: ModelFlags { bits: get_u32(buf, at + 12, ByteOrder::Little) },
            sequences: Reference::get(buf, at + 16, 0),
            sequence_transformation_collections: Reference::get(buf, at + 28, 0),
            sequence_transformation_groups: Reference::get(buf, at + 40, 0),
            unknown00: get_f32(buf, at + 52, ByteOrder::Little),
            unknown01: get_f32(buf, at + 56, ByteOrder::Little),
            unknown02: get_f32(buf, at + 60, ByteOrder::Little),
            unknown03: get_f32(buf, at + 64, ByteOrder::Little),
            sts: Reference::get(buf, at + 68, 0),
            bones: Reference::get(buf, at + 80, 0),
            number_of_bones_to_check_for_skin: get_u32(buf, at + 92, ByteOrder::Little),
            vflags: VertexFlags { bits: get_u32(buf, at + 96, ByteOrder::Little) },
            vertices: Reference::get(buf, at + 100, 0),
            divisions: Reference::get(buf, at + 112, 0),
            bone_lookup: Reference::get(buf, at + 124, 0),
            boundings: Bnds::get(buf, at + 136, 0),
            bounding_flags: get_u32(buf, at + 164, ByteOrder::Little),
            unknown04: get_u32(buf, at + 168, ByteOrder::Little),
            unknown05: get_u32(buf, at + 172, ByteOrder::Little),
            unknown06: get_u32(buf, at + 176, ByteOrder::Little),
            unknown07: get_u32(buf, at + 180, ByteOrder::Little),
            unknown08: get_u32(buf, at + 184, ByteOrder::Little),
            unknown09: get_u32(buf, at + 188, ByteOrder::Little),
            unknown10: get_u32(buf, at + 192, ByteOrder::Little),
            unknown11: get_u32(buf, at + 196, ByteOrder::Little),
            unknown12: get_u32(buf, at + 200, ByteOrder::Little),
            unknown13: get_u32(buf, at + 204, ByteOrder::Little),
            unknown14: get_u32(buf, at + 208, ByteOrder::Little),
            unknown15: get_u32(buf, at + 212, ByteOrder::Little),
            unknown16: get_u32(buf, at + 216, ByteOrder::Little),
            unknown17: get_u32(buf, at + 220, ByteOrder::Little),
            unknown18: get_u32(buf, at + 224, ByteOrder::Little),
            unknown19: get_u32(buf, at + 228, ByteOrder::Little),
            attachment_points: Reference::get(buf, at + 232, 0),
            attachment_point_addons: Reference::get(buf, at + 244, 0),
            lights: Reference::get(buf, at + 256, 0),
            shbx_data: Reference::get(buf, at + 268, 0),
            cameras: Reference::get(buf, at + 280, 0),
            d: Reference::get(buf, at + 292, 0),
            material_references: Reference::get(buf, at + 304, 0),
            standard_materials: Reference::get(buf, at + 316, 0),
            displacement_materials: Reference::get(buf, at + 328, 0),
            composite_materials: Reference::get(buf, at + 340, 0),
            terrain_materials: Reference::get(buf, at + 352, 0),
            volume_materials: Reference::get(buf, at + 364, 0),
            unknown20: Reference::get(buf, at + 376, 0),
            creep_materials: Reference::get(buf, at + 388, 0),
            volume_noise_materials: Reference::get(buf, at + 400, 0),
            splat_terrain_bake_materials: Reference::get(buf, at + 412, 0),
            particles: Reference::get(buf, at + 424, 0),
            particle_copies: Reference::get(buf, at + 436, 0),
            ribbons: Reference::get(buf, at + 448, 0),
            projections: Reference::get(buf, at + 460, 0),
            forces: Reference::get(buf, at + 472, 0),
            warps: Reference::get(buf, at + 484, 0),
            unknown21: Reference::get(buf, at + 496, 0),
            rigid_bodies: Reference::get(buf, at + 508, 0),
            unknown22: Reference::get(buf, at + 520, 0),
            physical_joint: Reference::get(buf, at + 532, 0),
            unknown23: Reference::get(buf, at + 544, 0),
            ikjt_data: Reference::get(buf, at + 556, 0),
            unknown24: Reference::get(buf, at + 568, 0),
            unknown_bd5657bd: [
                get_u8(buf, at + 580),
                get_u8(buf, at + 581),
                get_u8(buf, at + 582),
                get_u8(buf, at + 583),
                get_u8(buf, at + 584),
                get_u8(buf, at + 585),
                get_u8(buf, at + 586),
                get_u8(buf, at + 587),
                get_u8(buf, at + 588),
                get_u8(buf, at + 589),
                get_u8(buf, at + 590),
                get_u8(buf, at + 591),
            ],
            parts_of_turrent_behaviors: Reference::get(buf, at + 592, 0),
            turrent_behaviors: Reference::get(buf, at + 604, 0),
            absolute_inverse_bone_rest_positions: Reference::get(buf, at + 616, 0),
            tight_hit_test: SuperSimpleGeometricShape::get(buf, at + 628, 0),
            fuzzy_hit_test_objects: Reference::get(buf, at + 736, 0),
            attachment_volumes: Reference::get(buf, at + 748, 0),
            attachment_volumes_addons: [
                Reference::get(buf, at + 760, 0),
                Reference::get(buf, at + 772, 0),
            ],
            billboard_behaviors: Reference::get(buf, at + 784, 0),
            tmd_data: Reference::get(buf, at + 796, 0),
            unique_unknown_number: get_u32(buf, at + 808, ByteOrder::Little),
            unknown45: Reference::get(buf, at + 812, 0),
        }
    }

    /// Decodes the layout `V28` at `at`.
    #[verifier::spinoff_prover]
    #[verifier::rlimit(100)]
    fn get_v28(buf: &[u8], at: usize) -> (r: Self)
        requires
            at + 848 <= buf@.len() <= usize::MAX,
        ensures
            r == Self::value_at(buf@, at as int, 28),
    {
        ModelData::V28 {
            name: Reference::get(buf, at, 0),
            flags: ModelFlags { bits: get_u32(buf, at + 12, ByteOrder::Little) },
            sequences: Reference::get(buf, at + 16, 0),
            sequence_transformation_collections: Reference::get(buf, at + 28, 0),
            sequence_transformation_groups: Reference::get(buf, at + 40, 0),
            unknown00: get_f32(buf, at + 52, ByteOrder::Little),
            unknown01: get_f32(buf, at + 56, ByteOrder::Little),
            unknown02: get_f32(buf, at + 60, ByteOrder::Little),
            unknown03: get_f32(buf, at + 64, ByteOrder::Little),
            sts: Reference::get(buf, at + 68, 0),
            bones: Reference::get(buf, at + 80, 0),
            number_of_bones_to_check_for_skin: get_u32(buf, at + 92, ByteOrder::Little),
            vflags: VertexFlags { bits: get_u32(buf, at + 96, ByteOrder::Little) },
            vertices: Reference::get(buf, at + 100, 0),
            divisions: Reference::get(buf, at + 112, 0),
            bone_lookup: Reference::get(buf, at + 124, 0),
            boundings: Bnds::get(buf, at + 136, 0),
            bounding_flags: get_u32(buf, at + 164, ByteOrder::Little),
            unknown04: get_u32(buf, at + 168, ByteOrder::Little),
            unknown05: get_u32(buf, at + 172, ByteOrder::Little),
            unknown06: get_u32(buf, at + 176, ByteOrder::Little),
            unknown07: get_u32(buf, at + 180, ByteOrder::Little),
            unknown08: get_u32(buf, at + 184, ByteOrder::Little),
            unknown09: get_u32(buf, at + 188, ByteOrder::Little),
            unknown10: get_u32(buf, at + 192, ByteOrder::Little),
            unknown11: get_u32(buf, at + 196, ByteOrder::Little),
            unknown12: get_u32(buf, at + 200, ByteOrder::Little),
            unknown13: get_u32(buf, at + 204, ByteOrder::Little),
            unknown14: get_u32(buf, at + 208, ByteOrder::Little),
            unknown15: get_u32(buf, at + 212, ByteOrder::Little),
            unknown16: get_u32(buf, at + 216, ByteOrder::Little),
            unknown17: get_u32(buf, at + 220, ByteOrder::Little),
            unknown18: get_u32(buf, at + 224, ByteOrder::Little),
            unknown19: get_u32(buf, at + 228, ByteOrder::Little),
            attachment_points: Reference::get(buf, at + 232, 0),
            attachment_point_addons: Reference::get(buf, at + 244, 0),
            lights: Reference::get(buf, at + 256, 0),
            shbx_data: Reference::get(buf, at + 268, 0),
            cameras: Reference::get(buf, at + 280, 0),
            d: Reference::get(buf, at + 292, 0),
            material_references: Reference::get(buf, at + 304, 0),
            standard_materials: Reference::get(buf, at + 316, 0),
            displacement_materials: Reference::get(buf, at + 328, 0),
            composite_materials: Reference::get(buf, at + 340, 0),
            terrain_materials: Reference::get(buf, at + 352, 0),
            volume_materials: Reference::get(buf, at + 364, 0),
            unknown20: Reference::get(buf, at + 376, 0),
            creep_materials: Reference::get(buf, at + 388, 0),
            volume_noise_materials: Reference::get(buf, at + 400, 0),
            splat_terrain_bake_materials: Reference::get(buf, at + 412, 0),
            unknown25: Reference::get(buf, at + 424, 0),
            particles: Reference::get(buf, at + 436, 0),
            particle_copies: Reference::get(buf, at + 448, 0),
            ribbons: Reference::get(buf, at + 460, 0),
            projections: Reference::get(buf, at + 472, 0),
            forces: Reference::get(buf, at + 484, 0),
            warps: Reference::get(buf, at + 496, 0),
            unknown21: Reference::get(buf, at + 508, 0),
            rigid_bodies: Reference::get(buf, at + 520, 0),
            unknown22: Reference::get(buf, at + 532, 0),
            physical_joint: Reference::get(buf, at + 544, 0),
            cloth_behavior: Reference::get(buf, at + 556, 0),
            unknown23: Reference::get(buf, at + 568, 0),
            ikjt_data: Reference::get(buf, at + 580, 0),
            unknown24: Reference::get(buf, at + 592, 0),
            unknown_bd5657bd: [
                get_u8(buf, at + 604),
                get_u8(buf, at + 605),
                get_u8(buf, at + 606),
                get_u8(buf, at + 607),
                get_u8(buf, at + 608),
                get_u8(buf, at + 609),
                get_u8(buf, at + 610),
                get_u8(buf, at + 611),
                get_u8(buf, at + 612),
                get_u8(buf, at + 613),
                get_u8(buf, at + 614),
                get_u8(buf, at + 615),
            ],
            parts_of_turrent_behaviors: Reference::get(buf, at + 616, 0),
            turrent_behaviors: Reference::get(buf, at + 628, 0),
            absolute_inverse_bone_rest_positions: Reference::get(buf, at + 640, 0),
            tight_hit_test: SuperSimpleGeometricShape::get(buf, at + 652, 0),
            fuzzy_hit_test_objects: Reference::get(buf, at + 760, 0),
            attachment_volumes: Reference::get(buf, at + 772, 0),
            attachment_volumes_addons: [
                Reference::get(buf, at + 784, 0),
                Reference::get(buf, at + 796, 0),
            ],
            billboard_behaviors: Reference::get(buf, at + 808, 0),
            tmd_data: Reference::get(buf, at + 820, 0),
            unique_unknown_number: get_u32(buf, at + 832, ByteOrder::Little),
            unknown45: Reference::get(buf, at + 836, 0),
        }
    }

    /// Decodes the layout `V29` at `at`.
    #[verifier::spinoff_prover]
    #[verifier::rlimit(100)]
    fn get_v29(buf: &[u8], at: usize) -> (r: Self)
        requires
            at + 860 <= buf@.len() <= usize::MAX,
        ensures
            r == Self::value_at(buf@, at as int, 29),
    {
        ModelData::V29 {
            name: Reference::get(buf, at, 0),
            flags: ModelFlags { bits: get_u32(buf, at + 12, ByteOrder::Little) },
            sequences: Reference::get(buf, at + 16, 0),
            sequence_transformation_collections: Reference::get(buf, at + 28, 0),
            sequence_transformation_groups: Reference::get(buf, at + 40, 0),
            unknown00: get_f32(buf, at + 52, ByteOrder::Little),
            unknown01: get_f32(buf, at + 56, ByteOrder::Little),
            unknown02: get_f32(buf, at + 60, ByteOrder::Little),
            unknown03: get_f32(buf, at + 64, ByteOrder::Little),
            sts: Reference::get(buf, at + 68, 0),
            bones: Reference::get(buf, at + 80, 0),
            number_of_bones_to_check_for_skin: get_u32(buf, at + 92, ByteOrder::Little),
            vflags: VertexFlags { bits: get_u32(buf, at + 96, ByteOrder::Little) },
            vertices: Reference::get(buf, at + 100, 0),
            divisions: Reference::get(buf, at + 112, 0),
            bone_lookup: Reference::get(buf, at + 124, 0),
            boundings: Bnds::get(buf, at + 136, 0),
            bounding_flags: get_u32(buf, at + 164, ByteOrder::Little),
            unknown04: get_u32(buf, at + 168, ByteOrder::Little),
            unknown05: get_u32(buf, at + 172, ByteOrder::Little),
            unknown06: get_u32(buf, at + 176, ByteOrder::Little),
            unknown07: get_u32(buf, at + 180, ByteOrder::Little),
            unknown08: get_u32(buf, at + 184, ByteOrder::Little),
            unknown09: get_u32(buf, at + 188, ByteOrder::Little),
            unknown10: get_u32(buf, at + 192, ByteOrder::Little),
            unknown11: get_u32(buf, at + 196, ByteOrder::Little),
            unknown12: get_u32(buf, at + 200, ByteOrder::Little),
            unknown13: get_u32(buf, at + 204, ByteOrder::Little),
            unknown14: get_u32(buf, at + 208, ByteOrder::Little),
            unknown15: get_u32(buf, at + 212, ByteOrder::Little),
            unknown16: get_u32(buf, at + 216, ByteOrder::Little),
            unknown17: get_u32(buf, at + 220, ByteOrder::Little),
            unknown18: get_u32(buf, at + 224, ByteOrder::Little),
            unknown19: get_u32(buf, at + 228, ByteOrder::Little),
            attachment_points: Reference::get(buf, at + 232, 0),
            attachment_point_addons: Reference::get(buf, at + 244, 0),
            lights: Reference::get(buf, at + 256, 0),
            shbx_data: Reference::get(buf, at + 268, 0),
            cameras: Reference::get(buf, at + 280, 0),
            d: Reference::get(buf, at + 292, 0),
            material_references: Reference::get(buf, at + 304, 0),
            standard_materials: Reference::get(buf, at + 316, 0),
            displacement_materials: Reference::get(buf, at + 328, 0),
            composite_materials: Reference::get(buf, at + 340, 0),
            terrain_materials: Reference::get(buf, at + 352, 0),
            volume_materials: Reference::get(buf, at + 364, 0),
            unknown20: Reference::get(buf, at + 376, 0),
            creep_materials: Reference::get(buf, at + 388, 0),
            volume_noise_materials: Reference::get(buf, at + 400, 0),
            splat_terrain_bake_materials: Reference::get(buf, at + 412, 0),
            unknown25: Reference::get(buf, at + 424, 0),
            lens_flare_materials: Reference::get(buf, at + 436, 0),
            particles: Reference::get(buf, at + 448, 0),
            particle_copies: Reference::get(buf, at + 460, 0),
            ribbons: Reference::get(buf, at + 472, 0),
            projections: Reference::get(buf, at + 484, 0),
            forces: Reference::get(buf, at + 496, 0),
            warps: Reference::get(buf, at + 508, 0),
            unknown21: Reference::get(buf, at + 520, 0),
            rigid_bodies: Reference::get(buf, at + 532, 0),
            unknown22: Reference::get(buf, at + 544, 0),
            physical_joint: Reference::get(buf, at + 556, 0),
            cloth_behavior: Reference::get(buf, at + 568, 0),
            unknown23: Reference::get(buf, at + 580, 0),
            ikjt_data: Reference::get(buf, at + 592, 0),
            unknown24: Reference::get(buf, at + 604, 0),
            unknown_bd5657bd: [
                get_u8(buf, at + 616),
                get_u8(buf, at + 617),
                get_u8(buf, at + 618),
                get_u8(buf, at + 619),
                get_u8(buf, at + 620),
                get_u8(buf, at + 621),
                get_u8(buf, at + 622),
                get_u8(buf, at + 623),
                get_u8(buf, at + 624),
                get_u8(buf, at + 625),
                get_u8(buf, at + 626),
                get_u8(buf, at + 627),
            ],
            parts_of_turrent_behaviors: Reference::get(buf, at + 628, 0),
            turrent_behaviors: Reference::get(buf, at + 640, 0),
            absolute_inverse_bone_rest_positions: Reference::get(buf, at + 652, 0),
            tight_hit_test: SuperSimpleGeometricShape::get(buf, at + 664, 0),
            fuzzy_hit_test_objects: Reference::get(buf, at + 772, 0),
            attachment_volumes: Reference::get(buf, at + 784, 0),
            attachment_volumes_addons: [
                Reference::get(buf, at + 796, 0),
                Reference::get(buf, at + 808, 0),
            ],
            billboard_behaviors: Reference::get(buf, at + 820, 0),
            tmd_data: Reference::get(buf, at + 832, 0),
            unique_unknown_number: get_u32(buf, at + 844, ByteOrder::Little),
            unknown45: Reference::get(buf, at + 848, 0),
        }
    }
}

impl Record for ModelData {
    open spec fn supports(version: u32) -> bool {
        version == 0x17 || version == 0x19 || version == 0x1A || version == 0x1C || version == 0x1D
    }

    open spec fn supported_range() -> VersionRange {
        VersionRange { min: 23, max: 29 }
    }

    open spec fn stride(version: u32) -> nat {
        if version == 23 {
            788
        } else if version == 25 {
            812
        } else if version == 26 {
            824
        } else if version == 28 {
            848
        } else {
            860
        }
    }

    open spec fn value_at(data: Seq<u8>, at: int, version: u32) -> Self {
        if version == 23 {
            ModelData::V23 {
                name: Reference::value_at(data, at, 0),
                flags: ModelFlags { bits: le_u32_at(data, at + 12) },
                sequences: Reference::value_at(data, at + 16, 0),
                sequence_transformation_collections: Reference::value_at(data, at + 28, 0),
                sequence_transformation_groups: Reference::value_at(data, at + 40, 0),
                unknown00: f32_at(data, at + 52, ByteOrder::Little),
                unknown01: f32_at(data, at + 56, ByteOrder::Little),
                unknown02: f32_at(data, at + 60, ByteOrder::Little),
                unknown03: f32_at(data, at + 64, ByteOrder::Little),
                sts: Reference::value_at(data, at + 68, 0),
                bones: Reference::value_at(data, at + 80, 0),
                number_of_bones_to_check_for_skin: le_u32_at(data, at + 92),
                vflags: VertexFlags { bits: le_u32_at(data, at + 96) },
                vertices: Reference::value_at(data, at + 100, 0),
                divisions: Reference::value_at(data, at + 112, 0),
                bone_lookup: Reference::value_at(data, at + 124, 0),
                boundings: Bnds::value_at(data, at + 136, 0),
                bounding_flags: le_u32_at(data, at + 164),
                unknown04: le_u32_at(data, at + 168),
                unknown05: le_u32_at(data, at + 172),
                unknown06: le_u32_at(data, at + 176),
                unknown07: le_u32_at(data, at + 180),
                unknown08: le_u32_at(data, at + 184),
                unknown09: le_u32_at(data, at + 188),
                unknown10: le_u32_at(data, at + 192),
                unknown11: le_u32_at(data, at + 196),
                unknown12: le_u32_at(data, at + 200),
                unknown13: le_u32_at(data, at + 204),
                unknown14: le_u32_at(data, at + 208),
                unknown15: le_u32_at(data, at + 212),
                unknown16: le_u32_at(data, at + 216),
                unknown17: le_u32_at(data, at + 220),
                unknown18: le_u32_at(data, at + 224),
                unknown19: le_u32_at(data, at + 228),
                attachment_points: Reference::value_at(data, at + 232, 0),
                attachment_point_addons: Reference::value_at(data, at + 244, 0),
                lights: Reference::value_at(data, at + 256, 0),
                shbx_data: Reference::value_at(data, at + 268, 0),
                cameras: Reference::value_at(data, at + 280, 0),
                d: Reference::value_at(data, at + 292, 0),
                material_references: Reference::value_at(data, at + 304, 0),
                standard_materials: Reference::value_at(data, at + 316, 0),
                displacement_materials: Reference::value_at(data, at + 328, 0),
                composite_materials: Reference::value_at(data, at + 340, 0),
                terrain_materials: Reference::value_at(data, at + 352, 0),
                volume_materials: Reference::value_at(data, at + 364, 0),
                unknown20: Reference::value_at(data, at + 376, 0),
                creep_materials: Reference::value_at(data, at + 388, 0),
                particles: Reference::value_at(data, at + 400, 0),
                particle_copies: Reference::value_at(data, at + 412, 0),
                ribbons: Reference::value_at(data, at + 424, 0),
                projections: Reference::value_at(data, at + 436, 0),
                forces: Reference::value_at(data, at + 448, 0),
                warps: Reference::value_at(data, at + 460, 0),
                unknown21: Reference::value_at(data, at + 472, 0),
                rigid_bodies: Reference::value_at(data, at + 484, 0),
                unknown22: Reference::value_at(data, at + 496, 0),
                physical_joint: Reference::value_at(data, at + 508, 0),
                unknown23: Reference::value_at(data, at + 520, 0),
                ikjt_data: Reference::value_at(data, at + 532, 0),
                unknown24: Reference::value_at(data, at + 544, 0),
                parts_of_turrent_behaviors: Reference::value_at(data, at + 556, 0),
                turrent_behaviors: Reference::value_at(data, at + 568, 0),
                absolute_inverse_bone_rest_positions: Reference::value_at(data, at + 580, 0),
                tight_hit_test: SuperSimpleGeometricShape::value_at(data, at + 592, 0),
                fuzzy_hit_test_objects: Reference::value_at(data, at + 700, 0),
                attachment_volumes: Reference::value_at(data, at + 712, 0),
                attachment_volumes_addons: [
                    Reference::value_at(data, at + 724, 0),
                    Reference::value_at(data, at + 736, 0),
                ],
                billboard_behaviors: Reference::value_at(data, at + 748, 0),
                tmd_data: Reference::value_at(data, at + 760, 0),
                unique_unknown_number: le_u32_at(data, at + 772),
                unknown45: Reference::value_at(data, at + 776, 0),
            }
        } else if version == 25 {
            ModelData::V25 {
                name: Reference::value_at(data, at, 0),
                flags: ModelFlags { bits: le_u32_at(data, at + 12) },
                sequences: Reference::value_at(data, at + 16, 0),
                sequence_transformation_collections: Reference::value_at(data, at + 28, 0),
                sequence_transformation_groups: Reference::value_at(data, at + 40, 0),
                unknown00: f32_at(data, at + 52, ByteOrder::Little),
                unknown01: f32_at(data, at + 56, ByteOrder::Little),
                unknown02: f32_at(data, at + 60, ByteOrder::Little),
                unknown03: f32_at(data, at + 64, ByteOrder::Little),
                sts: Reference::value_at(data, at + 68, 0),
                bones: Reference::value_at(data, at + 80, 0),
                number_of_bones_to_check_for_skin: le_u32_at(data, at + 92),
                vflags: VertexFlags { bits: le_u32_at(data, at + 96) },
                vertices: Reference::value_at(data, at + 100, 0),
                divisions: Reference::value_at(data, at + 112, 0),
                bone_lookup: Reference::value_at(data, at + 124, 0),
                boundings: Bnds::value_at(data, at + 136, 0),
                bounding_flags: le_u32_at(data, at + 164),
                unknown04: le_u32_at(data, at + 168),
                unknown05: le_u32_at(data, at + 172),
                unknown06: le_u32_at(data, at + 176),
                unknown07: le_u32_at(data, at + 180),
                unknown08: le_u32_at(data, at + 184),
                unknown09: le_u32_at(data, at + 188),
                unknown10: le_u32_at(data, at + 192),
                unknown11: le_u32_at(data, at + 196),
                unknown12: le_u32_at(data, at + 200),
                unknown13: le_u32_at(data, at + 204),
                unknown14: le_u32_at(data, at + 208),
                unknown15: le_u32_at(data, at + 212),
                unknown16: le_u32_at(data, at + 216),
                unknown17: le_u32_at(data, at + 220),
                unknown18: le_u32_at(data, at + 224),
                unknown19: le_u32_at(data, at + 228),
                attachment_points: Reference::value_at(data, at + 232, 0),
                attachment_point_addons: Reference::value_at(data, at + 244, 0),
                lights: Reference::value_at(data, at + 256, 0),
                shbx_data: Reference::value_at(data, at + 268, 0),
                cameras: Reference::value_at(data, at + 280, 0),
                d: Reference::value_at(data, at + 292, 0),
                material_references: Reference::value_at(data, at + 304, 0),
                standard_materials: Reference::value_at(data, at + 316, 0),
                displacement_materials: Reference::value_at(data, at + 328, 0),
                composite_materials: Reference::value_at(data, at + 340, 0),
                terrain_materials: Reference::value_at(data, at + 352, 0),
                volume_materials: Reference::value_at(data, at + 364, 0),
                unknown20: Reference::value_at(data, at + 376, 0),
                creep_materials: Reference::value_at(data, at + 388, 0),
                volume_noise_materials: Reference::value_at(data, at + 400, 0),
                particles: Reference::value_at(data, at + 412, 0),
                particle_copies: Reference::value_at(data, at + 424, 0),
                ribbons: Reference::value_at(data, at + 436, 0),
                projections: Reference::value_at(data, at + 448, 0),
                forces: Reference::value_at(data, at + 460, 0),
                warps: Reference::value_at(data, at + 472, 0),
                unknown21: Reference::value_at(data, at + 484, 0),
                rigid_bodies: Reference::value_at(data, at + 496, 0),
                unknown22: Reference::value_at(data, at + 508, 0),
                physical_joint: Reference::value_at(data, at + 520, 0),
                unknown23: Reference::value_at(data, at + 532, 0),
                ikjt_data: Reference::value_at(data, at + 544, 0),
                unknown24: Reference::value_at(data, at + 556, 0),
                unknown_bd5657bd: [
                    data[at + 568],
                    data[at + 569],
                    data[at + 570],
                    data[at + 571],
                    data[at + 572],
                    data[at + 573],
                    data[at + 574],
                    data[at + 575],
                    data[at + 576],
                    data[at + 577],
                    data[at + 578],
                    data[at + 579],
                ],
                parts_of_turrent_behaviors: Reference::value_at(data, at + 580, 0),
                turrent_behaviors: Reference::value_at(data, at + 592, 0),
                absolute_inverse_bone_rest_positions: Reference::value_at(data, at + 604, 0),
                tight_hit_test: SuperSimpleGeometricShape::value_at(data, at + 616, 0),
                fuzzy_hit_test_objects: Reference::value_at(data, at + 724, 0),
                attachment_volumes: Reference::value_at(data, at + 736, 0),
                attachment_volumes_addons: [
                    Reference::value_at(data, at + 748, 0),
                    Reference::value_at(data, at + 760, 0),
                ],
                billboard_behaviors: Reference::value_at(data, at + 772, 0),
                tmd_data: Reference::value_at(data, at + 784, 0),
                unique_unknown_number: le_u32_at(data, at + 796),
                unknown45: Reference::value_at(data, at + 800, 0),
            }
        } else if version == 26 {
            ModelData::V26 {
                name: Reference::value_at(data, at, 0),
                flags: ModelFlags { bits: le_u32_at(data, at + 12) },
                sequences: Reference::value_at(data, at + 16, 0),
                sequence_transformation_collections: Reference::value_at(data, at + 28, 0),
                sequence_transformation_groups: Reference::value_at(data, at + 40, 0),
                unknown00: f32_at(data, at + 52, ByteOrder::Little),
                unknown01: f32_at(data, at + 56, ByteOrder::Little),
                unknown02: f32_at(data, at + 60, ByteOrder::Little),
                unknown03: f32_at(data, at + 64, ByteOrder::Little),
                sts: Reference::value_at(data, at + 68, 0),
                bones: Reference::value_at(data, at + 80, 0),
                number_of_bones_to_check_for_skin: le_u32_at(data, at + 92),
                vflags: VertexFlags { bits: le_u32_at(data, at + 96) },
                vertices: Reference::value_at(data, at + 100, 0),
                divisions: Reference::value_at(data, at + 112, 0),
                bone_lookup: Reference::value_at(data, at + 124, 0),
                boundings: Bnds::value_at(data, at + 136, 0),
                bounding_flags: le_u32_at(data, at + 164),
                unknown04: le_u32_at(data, at + 168),
                unknown05: le_u32_at(data, at + 172),
                unknown06: le_u32_at(data, at + 176),
                unknown07: le_u32_at(data, at + 180),
                unknown08: le_u32_at(data, at + 184),
                unknown09: le_u32_at(data, at + 188),
                unknown10: le_u32_at(data, at + 192),
                unknown11: le_u32_at(data, at + 196),
                unknown12: le_u32_at(data, at + 200),
                unknown13: le_u32_at(data, at + 204),
                unknown14: le_u32_at(data, at + 208),
                unknown15: le_u32_at(data, at + 212),
                unknown16: le_u32_at(data, at + 216),
                unknown17: le_u32_at(data, at + 220),
                unknown18: le_u32_at(data, at + 224),
                unknown19: le_u32_at(data, at + 228),
                attachment_points: Reference::value_at(data, at + 232, 0),
                attachment_point_addons: Reference::value_at(data, at + 244, 0),
                lights: Reference::value_at(data, at + 256, 0),
                shbx_data: Reference::value_at(data, at + 268, 0),
                cameras: Reference::value_at(data, at + 280, 0),
                d: Reference::value_at(data, at + 292, 0),
                material_references: Reference::value_at(data, at + 304, 0),
                standard_materials: Reference::value_at(data, at + 316, 0),
                displacement_materials: Reference::value_at(data, at + 328, 0),
                composite_materials: Reference::value_at(data, at + 340, 0),
                terrain_materials: Reference::value_at(data, at + 352, 0),
                volume_materials: Reference::value_at(data, at + 364, 0),
                unknown20: Reference::value_at(data, at + 376, 0),
                creep_materials: Reference::value_at(data, at + 388, 0),
                volume_noise_materials: Reference::value_at(data, at + 400, 0),
                splat_terrain_bake_materials: Reference::value_at(data, at + 412, 0),
                particles: Reference::value_at(data, at + 424, 0),
                particle_copies: Reference::value_at(data, at + 436, 0),
                ribbons: Reference::value_at(data, at + 448, 0),
                projections: Reference::value_at(data, at + 460, 0),
                forces: Reference::value_at(data, at + 472, 0),
                warps: Reference::value_at(data, at + 484, 0),
                unknown21: Reference::value_at(data, at + 496, 0),
                rigid_bodies: Reference::value_at(data, at + 508, 0),
                unknown22: Reference::value_at(data, at + 520, 0),
                physical_joint: Reference::value_at(data, at + 532, 0),
                unknown23: Reference::value_at(data, at + 544, 0),
                ikjt_data: Reference::value_at(data, at + 556, 0),
                unknown24: Reference::value_at(data, at + 568, 0),
                unknown_bd5657bd: [
                    data[at + 580],
                    data[at + 581],
                    data[at + 582],
                    data[at + 583],
                    data[at + 584],
                    data[at + 585],
                    data[at + 586],
                    data[at + 587],
                    data[at + 588],
                    data[at + 589],
                    data[at + 590],
                    data[at + 591],
                ],
                parts_of_turrent_behaviors: Reference::value_at(data, at + 592, 0),
                turrent_behaviors: Reference::value_at(data, at + 604, 0),
                absolute_inverse_bone_rest_positions: Reference::value_at(data, at + 616, 0),
                tight_hit_test: SuperSimpleGeometricShape::value_at(data, at + 628, 0),
                fuzzy_hit_test_objects: Reference::value_at(data, at + 736, 0),
                attachment_volumes: Reference::value_at(data, at + 748, 0),
                attachment_volumes_addons: [
                    Reference::value_at(data, at + 760, 0),
                    Reference::value_at(data, at + 772, 0),
                ],
                billboard_behaviors: Reference::value_at(data, at + 784, 0),
                tmd_data: Reference::value_at(data, at + 796, 0),
                unique_unknown_number: le_u32_at(data, at + 808),
                unknown45: Reference::value_at(data, at + 812, 0),
            }
        } else if version == 28 {
            ModelData::V28 {
                name: Reference::value_at(data, at, 0),
                flags: ModelFlags { bits: le_u32_at(data, at + 12) },
                sequences: Reference::value_at(data, at + 16, 0),
                sequence_transformation_collections: Reference::value_at(data, at + 28, 0),
                sequence_transformation_groups: Reference::value_at(data, at + 40, 0),
                unknown00: f32_at(data, at + 52, ByteOrder::Little),
                unknown01: f32_at(data, at + 56, ByteOrder::Little),
                unknown02: f32_at(data, at + 60, ByteOrder::Little),
                unknown03: f32_at(data, at + 64, ByteOrder::Little),
                sts: Reference::value_at(data, at + 68, 0),
                bones: Reference::value_at(data, at + 80, 0),
                number_of_bones_to_check_for_skin: le_u32_at(data, at + 92),
                vflags: VertexFlags { bits: le_u32_at(data, at + 96) },
                vertices: Reference::value_at(data, at + 100, 0),
                divisions: Reference::value_at(data, at + 112, 0),
                bone_lookup: Reference::value_at(data, at + 124, 0),
                boundings: Bnds::value_at(data, at + 136, 0),
                bounding_flags: le_u32_at(data, at + 164),
                unknown04: le_u32_at(data, at + 168),
                unknown05: le_u32_at(data, at + 172),
                unknown06: le_u32_at(data, at + 176),
                unknown07: le_u32_at(data, at + 180),
                unknown08: le_u32_at(data, at + 184),
                unknown09: le_u32_at(data, at + 188),
                unknown10: le_u32_at(data, at + 192),
                unknown11: le_u32_at(data, at + 196),
                unknown12: le_u32_at(data, at + 200),
                unknown13: le_u32_at(data, at + 204),
                unknown14: le_u32_at(data, at + 208),
                unknown15: le_u32_at(data, at + 212),
                unknown16: le_u32_at(data, at + 216),
                unknown17: le_u32_at(data, at + 220),
                unknown18: le_u32_at(data, at + 224),
                unknown19: le_u32_at(data, at + 228),
                attachment_points: Reference::value_at(data, at + 232, 0),
                attachment_point_addons: Reference::value_at(data, at + 244, 0),
                lights: Reference::value_at(data, at + 256, 0),
                shbx_data: Reference::value_at(data, at + 268, 0),
                cameras: Reference::value_at(data, at + 280, 0),
                d: Reference::value_at(data, at + 292, 0),
                material_references: Reference::value_at(data, at + 304, 0),
                standard_materials: Reference::value_at(data, at + 316, 0),
                displacement_materials: Reference::value_at(data, at + 328, 0),
                composite_materials: Reference::value_at(data, at + 340, 0),
                terrain_materials: Reference::value_at(data, at + 352, 0),
                volume_materials: Reference::value_at(data, at + 364, 0),
                unknown20: Reference::value_at(data, at + 376, 0),
                creep_materials: Reference::value_at(data, at + 388, 0),
                volume_noise_materials: Reference::value_at(data, at + 400, 0),
                splat_terrain_bake_materials: Reference::value_at(data, at + 412, 0),
                unknown25: Reference::value_at(data, at + 424, 0),
                particles: Reference::value_at(data, at + 436, 0),
                particle_copies: Reference::value_at(data, at + 448, 0),
                ribbons: Reference::value_at(data, at + 460, 0),
                projections: Reference::value_at(data, at + 472, 0),
                forces: Reference::value_at(data, at + 484, 0),
                warps: Reference::value_at(data, at + 496, 0),
                unknown21: Reference::value_at(data, at + 508, 0),
                rigid_bodies: Reference::value_at(data, at + 520, 0),
                unknown22: Reference::value_at(data, at + 532, 0),
                physical_joint: Reference::value_at(data, at + 544, 0),
                cloth_behavior: Reference::value_at(data, at + 556, 0),
                unknown23: Reference::value_at(data, at + 568, 0),
                ikjt_data: Reference::value_at(data, at + 580, 0),
                unknown24: Reference::value_at(data, at + 592, 0),
                unknown_bd5657bd: [
                    data[at + 604],
                    data[at + 605],
                    data[at + 606],
                    data[at + 607],
                    data[at + 608],
                    data[at + 609],
                    data[at + 610],
                    data[at + 611],
                    data[at + 612],
                    data[at + 613],
                    data[at + 614],
                    data[at + 615],
                ],
                parts_of_turrent_behaviors: Reference::value_at(data, at + 616, 0),
                turrent_behaviors: Reference::value_at(data, at + 628, 0),
                absolute_inverse_bone_rest_positions: Reference::value_at(data, at + 640, 0),
                tight_hit_test: SuperSimpleGeometricShape::value_at(data, at + 652, 0),
                fuzzy_hit_test_objects: Reference::value_at(data, at + 760, 0),
                attachment_volumes: Reference::value_at(data, at + 772, 0),
                attachment_volumes_addons: [
                    Reference::value_at(data, at + 784, 0),
                    Reference::value_at(data, at + 796, 0),
                ],
                billboard_behaviors: Reference::value_at(data, at + 808, 0),
                tmd_data: Reference::value_at(data, at + 820, 0),
                unique_unknown_number: le_u32_at(data, at + 832),
                unknown45: Reference::value_at(data, at + 836, 0),
            }
        } else {
            ModelData::V29 {
                name: Reference::value_at(data, at, 0),
                flags: ModelFlags { bits: le_u32_at(data, at + 12) },
                sequences: Reference::value_at(data, at + 16, 0),
                sequence_transformation_collections: Reference::value_at(data, at + 28, 0),
                sequence_transformation_groups: Reference::value_at(data, at + 40, 0),
                unknown00: f32_at(data, at + 52, ByteOrder::Little),
                unknown01: f32_at(data, at + 56, ByteOrder::Little),
                unknown02: f32_at(data, at + 60, ByteOrder::Little),
                unknown03: f32_at(data, at + 64, ByteOrder::Little),
                sts: Reference::value_at(data, at + 68, 0),
                bones: Reference::value_at(data, at + 80, 0),
                number_of_bones_to_check_for_skin: le_u32_at(data, at + 92),
                vflags: VertexFlags { bits: le_u32_at(data, at + 96) },
                vertices: Reference::value_at(data, at + 100, 0),
                divisions: Reference::value_at(data, at + 112, 0),
                bone_lookup: Reference::value_at(data, at + 124, 0),
                boundings: Bnds::value_at(data, at + 136, 0),
                bounding_flags: le_u32_at(data, at + 164),
                unknown04: le_u32_at(data, at + 168),
                unknown05: le_u32_at(data, at + 172),
                unknown06: le_u32_at(data, at + 176),
                unknown07: le_u32_at(data, at + 180),
                unknown08: le_u32_at(data, at + 184),
                unknown09: le_u32_at(data, at + 188),
                unknown10: le_u32_at(data, at + 192),
                unknown11: le_u32_at(data, at + 196),
                unknown12: le_u32_at(data, at + 200),
                unknown13: le_u32_at(data, at + 204),
                unknown14: le_u32_at(data, at + 208),
                unknown15: le_u32_at(data, at + 212),
                unknown16: le_u32_at(data, at + 216),
                unknown17: le_u32_at(data, at + 220),
                unknown18: le_u32_at(data, at + 224),
                unknown19: le_u32_at(data, at + 228),
                attachment_points: Reference::value_at(data, at + 232, 0),
                attachment_point_addons: Reference::value_at(data, at + 244, 0),
                lights: Reference::value_at(data, at + 256, 0),
                shbx_data: Reference::value_at(data, at + 268, 0),
                cameras: Reference::value_at(data, at + 280, 0),
                d: Reference::value_at(data, at + 292, 0),
                material_references: Reference::value_at(data, at + 304, 0),
                standard_materials: Reference::value_at(data, at + 316, 0),
                displacement_materials: Reference::value_at(data, at + 328, 0),
                composite_materials: Reference::value_at(data, at + 340, 0),
                terrain_materials: Reference::value_at(data, at + 352, 0),
                volume_materials: Reference::value_at(data, at + 364, 0),
                unknown20: Reference::value_at(data, at + 376, 0),
                creep_materials: Reference::value_at(data, at + 388, 0),
                volume_noise_materials: Reference::value_at(data, at + 400, 0),
                splat_terrain_bake_materials: Reference::value_at(data, at + 412, 0),
                unknown25: Reference::value_at(data, at + 424, 0),
                lens_flare_materials: Reference::value_at(data, at + 436, 0),
                particles: Reference::value_at(data, at + 448, 0),
                particle_copies: Reference::value_at(data, at + 460, 0),
                ribbons: Reference::value_at(data, at + 472, 0),
                projections: Reference::value_at(data, at + 484, 0),
                forces: Reference::value_at(data, at + 496, 0),
                warps: Reference::value_at(data, at + 508, 0),
                unknown21: Reference::value_at(data, at + 520, 0),
                rigid_bodies: Reference::value_at(data, at + 532, 0),
                unknown22: Reference::value_at(data, at + 544, 0),
                physical_joint: Reference::value_at(data, at + 556, 0),
                cloth_behavior: Reference::value_at(data, at + 568, 0),
                unknown23: Reference::value_at(data, at + 580, 0),
                ikjt_data: Reference::value_at(data, at + 592, 0),
                unknown24: Reference::value_at(data, at + 604, 0),
                unknown_bd5657bd: [
                    data[at + 616],
                    data[at + 617],
                    data[at + 618],
                    data[at + 619],
                    data[at + 620],
                    data[at + 621],
                    data[at + 622],
                    data[at + 623],
                    data[at + 624],
                    data[at + 625],
                    data[at + 626],
                    data[at + 627],
                ],
                parts_of_turrent_behaviors: Reference::value_at(data, at + 628, 0),
                turrent_behaviors: Reference::value_at(data, at + 640, 0),
                absolute_inverse_bone_rest_positions: Reference::value_at(data, at + 652, 0),
                tight_hit_test: SuperSimpleGeometricShape::value_at(data, at + 664, 0),
                fuzzy_hit_test_objects: Reference::value_at(data, at + 772, 0),
                attachment_volumes: Reference::value_at(data, at + 784, 0),
                attachment_volumes_addons: [
                    Reference::value_at(data, at + 796, 0),
                    Reference::value_at(data, at + 808, 0),
                ],
                billboard_behaviors: Reference::value_at(data, at + 820, 0),
                tmd_data: Reference::value_at(data, at + 832, 0),
                unique_unknown_number: le_u32_at(data, at + 844),
                unknown45: Reference::value_at(data, at + 848, 0),
            }
        }
    }

    open spec fn version_of(&self) -> u32 {
        match self {
            ModelData::V23 { .. } => 23,
            ModelData::V25 { .. } => 25,
            ModelData::V26 { .. } => 26,
            ModelData::V28 { .. } => 28,
            ModelData::V29 { .. } => 29,
        }
    }

    proof fn lemma_layout(version: u32) {
    }

    #[verifier::spinoff_prover]
    #[verifier::rlimit(100)]
    proof fn lemma_tagged(data: Seq<u8>, at: int, version: u32) {
    }

    fn range() -> (r: VersionRange) {
        VersionRange { min: 23, max: 29 }
    }

    fn width(version: u32) -> (w: Option<usize>) {
        if version == 23 {
            Some(788)
        } else if version == 25 {
            Some(812)
        } else if version == 26 {
            Some(824)
        } else if version == 28 {
            Some(848)
        } else if version == 29 {
            Some(860)
        } else {
            None
        }
    }

    fn get(buf: &[u8], at: usize, version: u32) -> (r: Self) {
        if version == 23 {
            Self::get_v23(buf, at)
        } else if version == 25 {
            Self::get_v25(buf, at)
        } else if version == 26 {
            Self::get_v26(buf, at)
        } else if version == 28 {
            Self::get_v28(buf, at)
        } else {
            Self::get_v29(buf, at)
        }
    }
}

impl ModelData {
    /// The reference to the name of the model.
    pub open spec fn spec_name(&self) -> Reference {
        match *self {
            ModelData::V23 { name, .. } => name,
            ModelData::V25 { name, .. } => name,
            ModelData::V26 { name, .. } => name,
            ModelData::V28 { name, .. } => name,
            ModelData::V29 { name, .. } => name,
        }
    }

    /// The reference to the name of the model.
    #[verifier::when_used_as_spec(spec_name)]
    pub fn name(&self) -> (r: Reference)
        ensures
            r == self.spec_name(),
    {
        match *self {
            ModelData::V23 { name, .. } => name,
            ModelData::V25 { name, .. } => name,
            ModelData::V26 { name, .. } => name,
            ModelData::V28 { name, .. } => name,
            ModelData::V29 { name, .. } => name,
        }
    }

    /// The reference to the bones.
    pub open spec fn spec_bones(&self) -> Reference {
        match *self {
            ModelData::V23 { bones, .. } => bones,
            ModelData::V25 { bones, .. } => bones,
            ModelData::V26 { bones, .. } => bones,
            ModelData::V28 { bones, .. } => bones,
            ModelData::V29 { bones, .. } => bones,
        }
    }

    /// The reference to the bones.
    #[verifier::when_used_as_spec(spec_bones)]
    pub fn bones(&self) -> (r: Reference)
        ensures
            r == self.spec_bones(),
    {
        match *self {
            ModelData::V23 { bones, .. } => bones,
            ModelData::V25 { bones, .. } => bones,
            ModelData::V26 { bones, .. } => bones,
            ModelData::V28 { bones, .. } => bones,
            ModelData::V29 { bones, .. } => bones,
        }
    }

    /// What the vertices store.
    pub open spec fn spec_vflags(&self) -> VertexFlags {
        match *self {
            ModelData::V23 { vflags, .. } => vflags,
            ModelData::V25 { vflags, .. } => vflags,
            ModelData::V26 { vflags, .. } => vflags,
            ModelData::V28 { vflags, .. } => vflags,
            ModelData::V29 { vflags, .. } => vflags,
        }
    }

    /// What the vertices store.
    #[verifier::when_used_as_spec(spec_vflags)]
    pub fn vflags(&self) -> (r: VertexFlags)
        ensures
            r == self.spec_vflags(),
    {
        match *self {
            ModelData::V23 { vflags, .. } => vflags,
            ModelData::V25 { vflags, .. } => vflags,
            ModelData::V26 { vflags, .. } => vflags,
            ModelData::V28 { vflags, .. } => vflags,
            ModelData::V29 { vflags, .. } => vflags,
        }
    }

    /// The reference to the bytes of the vertices.
    pub open spec fn spec_vertices(&self) -> Reference {
        match *self {
            ModelData::V23 { vertices, .. } => vertices,
            ModelData::V25 { vertices, .. } => vertices,
            ModelData::V26 { vertices, .. } => vertices,
            ModelData::V28 { vertices, .. } => vertices,
            ModelData::V29 { vertices, .. } => vertices,
        }
    }

    /// The reference to the bytes of the vertices.
    #[verifier::when_used_as_spec(spec_vertices)]
    pub fn vertices(&self) -> (r: Reference)
        ensures
            r == self.spec_vertices(),
    {
        match *self {
            ModelData::V23 { vertices, .. } => vertices,
            ModelData::V25 { vertices, .. } => vertices,
            ModelData::V26 { vertices, .. } => vertices,
            ModelData::V28 { vertices, .. } => vertices,
            ModelData::V29 { vertices, .. } => vertices,
        }
    }

    /// The reference to the divisions of the mesh.
    pub open spec fn spec_divisions(&self) -> Reference {
        match *self {
            ModelData::V23 { divisions, .. } => divisions,
            ModelData::V25 { divisions, .. } => divisions,
            ModelData::V26 { divisions, .. } => divisions,
            ModelData::V28 { divisions, .. } => divisions,
            ModelData::V29 { divisions, .. } => divisions,
        }
    }

    /// The reference to the divisions of the mesh.
    #[verifier::when_used_as_spec(spec_divisions)]
    pub fn divisions(&self) -> (r: Reference)
        ensures
            r == self.spec_divisions(),
    {
        match *self {
            ModelData::V23 { divisions, .. } => divisions,
            ModelData::V25 { divisions, .. } => divisions,
            ModelData::V26 { divisions, .. } => divisions,
            ModelData::V28 { divisions, .. } => divisions,
            ModelData::V29 { divisions, .. } => divisions,
        }
    }

    /// The reference to the bone lookup table.
    pub open spec fn spec_bone_lookup(&self) -> Reference {
        match *self {
            ModelData::V23 { bone_lookup, .. } => bone_lookup,
            ModelData::V25 { bone_lookup, .. } => bone_lookup,
            ModelData::V26 { bone_lookup, .. } => bone_lookup,
            ModelData::V28 { bone_lookup, .. } => bone_lookup,
            ModelData::V29 { bone_lookup, .. } => bone_lookup,
        }
    }

    /// The reference to the bone lookup table.
    #[verifier::when_used_as_spec(spec_bone_lookup)]
    pub fn bone_lookup(&self) -> (r: Reference)
        ensures
            r == self.spec_bone_lookup(),
    {
        match *self {
            ModelData::V23 { bone_lookup, .. } => bone_lookup,
            ModelData::V25 { bone_lookup, .. } => bone_lookup,
            ModelData::V26 { bone_lookup, .. } => bone_lookup,
            ModelData::V28 { bone_lookup, .. } => bone_lookup,
            ModelData::V29 { bone_lookup, .. } => bone_lookup,
        }
    }

    /// The reference to the attachment points.
    pub open spec fn spec_attachment_points(&self) -> Reference {
        match *self {
            ModelData::V23 { attachment_points, .. } => attachment_points,
            ModelData::V25 { attachment_points, .. } => attachment_points,
            ModelData::V26 { attachment_points, .. } => attachment_points,
            ModelData::V28 { attachment_points, .. } => attachment_points,
            ModelData::V29 { attachment_points, .. } => attachment_points,
        }
    }

    /// The reference to the attachment points.
    #[verifier::when_used_as_spec(spec_attachment_points)]
    pub fn attachment_points(&self) -> (r: Reference)
        ensures
            r == self.spec_attachment_points(),
    {
        match *self {
            ModelData::V23 { attachment_points, .. } => attachment_points,
            ModelData::V25 { attachment_points, .. } => attachment_points,
            ModelData::V26 { attachment_points, .. } => attachment_points,
            ModelData::V28 { attachment_points, .. } => attachment_points,
            ModelData::V29 { attachment_points, .. } => attachment_points,
        }
    }

    /// The reference to the material references.
    pub open spec fn spec_material_references(&self) -> Reference {
        match *self {
            ModelData::V23 { material_references, .. } => material_references,
            ModelData::V25 { material_references, .. } => material_references,
            ModelData::V26 { material_references, .. } => material_references,
            ModelData::V28 { material_references, .. } => material_references,
            ModelData::V29 { material_references, .. } => material_references,
        }
    }

    /// The reference to the material references.
    #[verifier::when_used_as_spec(spec_material_references)]
    pub fn material_references(&self) -> (r: Reference)
        ensures
            r == self.spec_material_references(),
    {
        match *self {
            ModelData::V23 { material_references, .. } => material_references,
            ModelData::V25 { material_references, .. } => material_references,
            ModelData::V26 { material_references, .. } => material_references,
            ModelData::V28 { material_references, .. } => material_references,
            ModelData::V29 { material_references, .. } => material_references,
        }
    }
}

} // verus!
