//! Bit-flag words. A flag word keeps every bit that was read, so that
//! nothing is lost between versions of a format; whether bits outside the
//! declared mask are set can be asked, and construction can refuse them.

use vstd::prelude::*;

verus! {

/// The flags of a bone of a chunked model.
#[derive(Clone, Copy, Debug, PartialEq, Eq, Structural)]
pub struct BoneFlags {
    pub bits: u32,
}

impl BoneFlags {
    /// The bone takes over the translation of its parent.
    pub const INHERIT_TRANSLATION: u32 = 0x00000001;

    /// The bone takes over the scale of its parent.
    pub const INHERIT_SCALE: u32 = 0x00000002;

    /// The bone takes over the rotation of its parent.
    pub const INHERIT_ROTATION: u32 = 0x00000004;

    /// The bone faces the camera.
    pub const BILLBOARD1: u32 = 0x00000010;

    /// The bone faces the camera, second mode.
    pub const BILLBOARD2: u32 = 0x00000040;

    /// The bone is projected into the plane.
    pub const TWO_D_PROJECTION: u32 = 0x00000100;

    /// The bone is animated.
    pub const ANIMATED: u32 = 0x00000200;

    /// The bone is driven by inverse kinematics.
    pub const INVERSE_KINEMATICS: u32 = 0x00000400;

    /// Vertices are bound to the bone.
    pub const SKINNED: u32 = 0x00000800;

    /// The bone is a real bone and no helper.
    pub const REAL: u32 = 0x00002000;

    /// Every bit that the format declares.
    pub const MASK: u32 = 0x00002F57;

    /// The bits that are set outside the declared mask.
    pub open spec fn spec_reserved(&self) -> u32 {
        self.bits & !Self::MASK
    }

    /// Whether no bit is set outside the declared mask.
    pub open spec fn spec_is_valid(&self) -> bool {
        self.spec_reserved() == 0
    }

    /// Whether every bit of `flag` is set.
    pub open spec fn spec_contains(&self, flag: u32) -> bool {
        self.bits & flag == flag
    }

    /// The flag word as it stands, reserved bits included.
    pub fn from_bits_retain(bits: u32) -> (r: Self)
        ensures
            r.bits == bits,
    {
        BoneFlags { bits }
    }

    /// The flag word, or `None` where a bit outside the declared mask is
    /// set.
    pub fn from_bits(bits: u32) -> (r: Option<Self>)
        ensures
            r == if (BoneFlags { bits }).spec_is_valid() {
                Some(BoneFlags { bits })
            } else {
                None
            },
    {
        if bits & !Self::MASK == 0 {
            Some(BoneFlags { bits })
        } else {
            None
        }
    }

    /// The flag word without the bits outside the declared mask.
    pub fn from_bits_truncate(bits: u32) -> (r: Self)
        ensures
            r.bits == bits & Self::MASK,
            r.spec_is_valid(),
    {
        assert((bits & 0x00002F57u32) & !0x00002F57u32 == 0) by (bit_vector);
        BoneFlags { bits: bits & Self::MASK }
    }

    /// The bits that are set outside the declared mask.
    #[verifier::when_used_as_spec(spec_reserved)]
    pub fn reserved(&self) -> (r: u32)
        ensures
            r == self.spec_reserved(),
    {
        self.bits & !Self::MASK
    }

    /// Whether no bit is set outside the declared mask.
    #[verifier::when_used_as_spec(spec_is_valid)]
    pub fn is_valid(&self) -> (r: bool)
        ensures
            r == self.spec_is_valid(),
    {
        self.bits & !Self::MASK == 0
    }

    /// Whether every bit of `flag` is set.
    #[verifier::when_used_as_spec(spec_contains)]
    pub fn contains(&self, flag: u32) -> (r: bool)
        ensures
            r == self.spec_contains(flag),
    {
        self.bits & flag == flag
    }

    /// The bone takes over the translation of its parent.
    pub fn inherit_translation(&self) -> (r: bool)
        ensures
            r == self.spec_contains(Self::INHERIT_TRANSLATION),
    {
        self.contains(Self::INHERIT_TRANSLATION)
    }

    /// The bone takes over the scale of its parent.
    pub fn inherit_scale(&self) -> (r: bool)
        ensures
            r == self.spec_contains(Self::INHERIT_SCALE),
    {
        self.contains(Self::INHERIT_SCALE)
    }

    /// The bone takes over the rotation of its parent.
    pub fn inherit_rotation(&self) -> (r: bool)
        ensures
            r == self.spec_contains(Self::INHERIT_ROTATION),
    {
        self.contains(Self::INHERIT_ROTATION)
    }

    /// The bone faces the camera.
    pub fn billboard1(&self) -> (r: bool)
        ensures
            r == self.spec_contains(Self::BILLBOARD1),
    {
        self.contains(Self::BILLBOARD1)
    }

    /// The bone faces the camera, second mode.
    pub fn billboard2(&self) -> (r: bool)
        ensures
            r == self.spec_contains(Self::BILLBOARD2),
    {
        self.contains(Self::BILLBOARD2)
    }

    /// The bone is projected into the plane.
    pub fn two_d_projection(&self) -> (r: bool)
        ensures
            r == self.spec_contains(Self::TWO_D_PROJECTION),
    {
        self.contains(Self::TWO_D_PROJECTION)
    }

    /// The bone is animated.
    pub fn animated(&self) -> (r: bool)
        ensures
            r == self.spec_contains(Self::ANIMATED),
    {
        self.contains(Self::ANIMATED)
    }

    /// The bone is driven by inverse kinematics.
    pub fn inverse_kinematics(&self) -> (r: bool)
        ensures
            r == self.spec_contains(Self::INVERSE_KINEMATICS),
    {
        self.contains(Self::INVERSE_KINEMATICS)
    }

    /// Vertices are bound to the bone.
    pub fn skinned(&self) -> (r: bool)
        ensures
            r == self.spec_contains(Self::SKINNED),
    {
        self.contains(Self::SKINNED)
    }

    /// The bone is a real bone and no helper.
    pub fn is_real(&self) -> (r: bool)
        ensures
            r == self.spec_contains(Self::REAL),
    {
        self.contains(Self::REAL)
    }
}

/// The drawing flags of a material with one-byte flags.
#[derive(Clone, Copy, Debug, PartialEq, Eq, Structural)]
pub struct MaterialFlags {
    pub bits: u8,
}

impl MaterialFlags {
    /// Back faces are drawn.
    pub const NO_CULL: u8 = 0x01;

    /// The material casts a shadow on the ground.
    pub const GROUND_SHADOW: u8 = 0x02;

    /// The material casts a shadow on other geometry.
    pub const DRAW_SHADOW: u8 = 0x04;

    /// The material receives shadows.
    pub const RECEIVE_SHADOW: u8 = 0x08;

    /// An outline is drawn.
    pub const HAS_EDGE: u8 = 0x10;

    /// Vertex colors are used.
    pub const VERTEX_COLOR: u8 = 0x20;

    /// The surface is drawn as points.
    pub const POINT_DRAWING: u8 = 0x40;

    /// The surface is drawn as lines.
    pub const LINE_DRAWING: u8 = 0x80;

    /// Every bit that the format declares.
    pub const MASK: u8 = 0xFF;

    /// The bits that are set outside the declared mask.
    pub open spec fn spec_reserved(&self) -> u8 {
        self.bits & !Self::MASK
    }

    /// Whether no bit is set outside the declared mask.
    pub open spec fn spec_is_valid(&self) -> bool {
        self.spec_reserved() == 0
    }

    /// Whether every bit of `flag` is set.
    pub open spec fn spec_contains(&self, flag: u8) -> bool {
        self.bits & flag == flag
    }

    /// The flag word as it stands, reserved bits included.
    pub fn from_bits_retain(bits: u8) -> (r: Self)
        ensures
            r.bits == bits,
    {
        MaterialFlags { bits }
    }

    /// The flag word, or `None` where a bit outside the declared mask is
    /// set.
    pub fn from_bits(bits: u8) -> (r: Option<Self>)
        ensures
            r == if (MaterialFlags { bits }).spec_is_valid() {
                Some(MaterialFlags { bits })
            } else {
                None
            },
    {
        if bits & !Self::MASK == 0 {
            Some(MaterialFlags { bits })
        } else {
            None
        }
    }

    /// The flag word without the bits outside the declared mask.
    pub fn from_bits_truncate(bits: u8) -> (r: Self)
        ensures
            r.bits == bits & Self::MASK,
            r.spec_is_valid(),
    {
        assert((bits & 0xFFu8) & !0xFFu8 == 0) by (bit_vector);
        MaterialFlags { bits: bits & Self::MASK }
    }

    /// The bits that are set outside the declared mask.
    #[verifier::when_used_as_spec(spec_reserved)]
    pub fn reserved(&self) -> (r: u8)
        ensures
            r == self.spec_reserved(),
    {
        self.bits & !Self::MASK
    }

    /// Whether no bit is set outside the declared mask.
    #[verifier::when_used_as_spec(spec_is_valid)]
    pub fn is_valid(&self) -> (r: bool)
        ensures
            r == self.spec_is_valid(),
    {
        self.bits & !Self::MASK == 0
    }

    /// Whether every bit of `flag` is set.
    #[verifier::when_used_as_spec(spec_contains)]
    pub fn contains(&self, flag: u8) -> (r: bool)
        ensures
            r == self.spec_contains(flag),
    {
        self.bits & flag == flag
    }

    /// Back faces are drawn.
    pub fn no_cull(&self) -> (r: bool)
        ensures
            r == self.spec_contains(Self::NO_CULL),
    {
        self.contains(Self::NO_CULL)
    }

    /// The material casts a shadow on the ground.
    pub fn ground_shadow(&self) -> (r: bool)
        ensures
            r == self.spec_contains(Self::GROUND_SHADOW),
    {
        self.contains(Self::GROUND_SHADOW)
    }

    /// The material casts a shadow on other geometry.
    pub fn draw_shadow(&self) -> (r: bool)
        ensures
            r == self.spec_contains(Self::DRAW_SHADOW),
    {
        self.contains(Self::DRAW_SHADOW)
    }

    /// The material receives shadows.
    pub fn receive_shadow(&self) -> (r: bool)
        ensures
            r == self.spec_contains(Self::RECEIVE_SHADOW),
    {
        self.contains(Self::RECEIVE_SHADOW)
    }

    /// An outline is drawn.
    pub fn has_edge(&self) -> (r: bool)
        ensures
            r == self.spec_contains(Self::HAS_EDGE),
    {
        self.contains(Self::HAS_EDGE)
    }

    /// Vertex colors are used.
    pub fn vertex_color(&self) -> (r: bool)
        ensures
            r == self.spec_contains(Self::VERTEX_COLOR),
    {
        self.contains(Self::VERTEX_COLOR)
    }

    /// The surface is drawn as points.
    pub fn point_drawing(&self) -> (r: bool)
        ensures
            r == self.spec_contains(Self::POINT_DRAWING),
    {
        self.contains(Self::POINT_DRAWING)
    }

    /// The surface is drawn as lines.
    pub fn line_drawing(&self) -> (r: bool)
        ensures
            r == self.spec_contains(Self::LINE_DRAWING),
    {
        self.contains(Self::LINE_DRAWING)
    }
}

/// The flags of a bone whose optional fields are announced by its flags.
#[derive(Clone, Copy, Debug, PartialEq, Eq, Structural)]
pub struct JointFlags {
    pub bits: u16,
}

impl JointFlags {
    /// The tail is given as a bone index, not as a point.
    pub const INDEXED_TAIL_POSITION: u16 = 0x0001;

    /// The bone can be rotated.
    pub const ROTATABLE: u16 = 0x0002;

    /// The bone can be moved.
    pub const TRANSLATABLE: u16 = 0x0004;

    /// The bone is shown.
    pub const VISIBLE: u16 = 0x0008;

    /// The bone can be operated.
    pub const ENABLED: u16 = 0x0010;

    /// An inverse-kinematics block follows.
    pub const USE_IK: u16 = 0x0020;

    /// Rotation is inherited from another bone.
    pub const INHERIT_ROTATION: u16 = 0x0100;

    /// Translation is inherited from another bone.
    pub const INHERIT_TRANSLATION: u16 = 0x0200;

    /// A fixed axis follows.
    pub const FIXED_AXIS: u16 = 0x0400;

    /// A local coordinate frame follows.
    pub const LOCAL_COORDINATE: u16 = 0x0800;

    /// Physics runs after deformation.
    pub const PHYSICS_AFTER_DEFORM: u16 = 0x1000;

    /// An external parent key follows.
    pub const EXTERNAL_PARENT_DEFORM: u16 = 0x2000;

    /// Every bit that the format declares.
    pub const MASK: u16 = 0x3F3F;

    /// The bits that are set outside the declared mask.
    pub open spec fn spec_reserved(&self) -> u16 {
        self.bits & !Self::MASK
    }

    /// Whether no bit is set outside the declared mask.
    pub open spec fn spec_is_valid(&self) -> bool {
        self.spec_reserved() == 0
    }

    /// Whether every bit of `flag` is set.
    pub open spec fn spec_contains(&self, flag: u16) -> bool {
        self.bits & flag == flag
    }

    /// The flag word as it stands, reserved bits included.
    pub fn from_bits_retain(bits: u16) -> (r: Self)
        ensures
            r.bits == bits,
    {
        JointFlags { bits }
    }

    /// The flag word, or `None` where a bit outside the declared mask is
    /// set.
    pub fn from_bits(bits: u16) -> (r: Option<Self>)
        ensures
            r == if (JointFlags { bits }).spec_is_valid() {
                Some(JointFlags { bits })
            } else {
                None
            },
    {
        if bits & !Self::MASK == 0 {
            Some(JointFlags { bits })
        } else {
            None
        }
    }

    /// The flag word without the bits outside the declared mask.
    pub fn from_bits_truncate(bits: u16) -> (r: Self)
        ensures
            r.bits == bits & Self::MASK,
            r.spec_is_valid(),
    {
        assert((bits & 0x3F3Fu16) & !0x3F3Fu16 == 0) by (bit_vector);
        JointFlags { bits: bits & Self::MASK }
    }

    /// The bits that are set outside the declared mask.
    #[verifier::when_used_as_spec(spec_reserved)]
    pub fn reserved(&self) -> (r: u16)
        ensures
            r == self.spec_reserved(),
    {
        self.bits & !Self::MASK
    }

    /// Whether no bit is set outside the declared mask.
    #[verifier::when_used_as_spec(spec_is_valid)]
    pub fn is_valid(&self) -> (r: bool)
        ensures
            r == self.spec_is_valid(),
    {
        self.bits & !Self::MASK == 0
    }

    /// Whether every bit of `flag` is set.
    #[verifier::when_used_as_spec(spec_contains)]
    pub fn contains(&self, flag: u16) -> (r: bool)
        ensures
            r == self.spec_contains(flag),
    {
        self.bits & flag == flag
    }

    /// The tail is given as a bone index, not as a point.
    pub fn indexed_tail_position(&self) -> (r: bool)
        ensures
            r == self.spec_contains(Self::INDEXED_TAIL_POSITION),
    {
        self.contains(Self::INDEXED_TAIL_POSITION)
    }

    /// The bone can be rotated.
    pub fn rotatable(&self) -> (r: bool)
        ensures
            r == self.spec_contains(Self::ROTATABLE),
    {
        self.contains(Self::ROTATABLE)
    }

    /// The bone can be moved.
    pub fn translatable(&self) -> (r: bool)
        ensures
            r == self.spec_contains(Self::TRANSLATABLE),
    {
        self.contains(Self::TRANSLATABLE)
    }

    /// The bone is shown.
    pub fn visible(&self) -> (r: bool)
        ensures
            r == self.spec_contains(Self::VISIBLE),
    {
        self.contains(Self::VISIBLE)
    }

    /// The bone can be operated.
    pub fn enabled(&self) -> (r: bool)
        ensures
            r == self.spec_contains(Self::ENABLED),
    {
        self.contains(Self::ENABLED)
    }

    /// An inverse-kinematics block follows.
    pub fn use_ik(&self) -> (r: bool)
        ensures
            r == self.spec_contains(Self::USE_IK),
    {
        self.contains(Self::USE_IK)
    }

    /// Rotation is inherited from another bone.
    pub fn inherit_rotation(&self) -> (r: bool)
        ensures
            r == self.spec_contains(Self::INHERIT_ROTATION),
    {
        self.contains(Self::INHERIT_ROTATION)
    }

    /// Translation is inherited from another bone.
    pub fn inherit_translation(&self) -> (r: bool)
        ensures
            r == self.spec_contains(Self::INHERIT_TRANSLATION),
    {
        self.contains(Self::INHERIT_TRANSLATION)
    }

    /// A fixed axis follows.
    pub fn fixed_axis(&self) -> (r: bool)
        ensures
            r == self.spec_contains(Self::FIXED_AXIS),
    {
        self.contains(Self::FIXED_AXIS)
    }

    /// A local coordinate frame follows.
    pub fn local_coordinate(&self) -> (r: bool)
        ensures
            r == self.spec_contains(Self::LOCAL_COORDINATE),
    {
        self.contains(Self::LOCAL_COORDINATE)
    }

    /// Physics runs after deformation.
    pub fn physics_after_deform(&self) -> (r: bool)
        ensures
            r == self.spec_contains(Self::PHYSICS_AFTER_DEFORM),
    {
        self.contains(Self::PHYSICS_AFTER_DEFORM)
    }

    /// An external parent key follows.
    pub fn external_parent_deform(&self) -> (r: bool)
        ensures
            r == self.spec_contains(Self::EXTERNAL_PARENT_DEFORM),
    {
        self.contains(Self::EXTERNAL_PARENT_DEFORM)
    }
}

/// The flags of a soft body.
#[derive(Clone, Copy, Debug, PartialEq, Eq, Structural)]
pub struct SoftBodyFlags {
    pub bits: u8,
}

impl SoftBodyFlags {
    /// Links between vertices are generated.
    pub const B_LINK: u8 = 0x01;

    /// Clusters are generated.
    pub const CLUSTER_CREATION: u8 = 0x02;

    /// Links may cross.
    pub const LINK_CROSSING: u8 = 0x04;

    /// Every bit that the format declares.
    pub const MASK: u8 = 0x07;

    /// The bits that are set outside the declared mask.
    pub open spec fn spec_reserved(&self) -> u8 {
        self.bits & !Self::MASK
    }

    /// Whether no bit is set outside the declared mask.
    pub open spec fn spec_is_valid(&self) -> bool {
        self.spec_reserved() == 0
    }

    /// Whether every bit of `flag` is set.
    pub open spec fn spec_contains(&self, flag: u8) -> bool {
        self.bits & flag == flag
    }

    /// The flag word as it stands, reserved bits included.
    pub fn from_bits_retain(bits: u8) -> (r: Self)
        ensures
            r.bits == bits,
    {
        SoftBodyFlags { bits }
    }

    /// The flag word, or `None` where a bit outside the declared mask is
    /// set.
    pub fn from_bits(bits: u8) -> (r: Option<Self>)
        ensures
            r == if (SoftBodyFlags { bits }).spec_is_valid() {
                Some(SoftBodyFlags { bits })
            } else {
                None
            },
    {
        if bits & !Self::MASK == 0 {
            Some(SoftBodyFlags { bits })
        } else {
            None
        }
    }

    /// The flag word without the bits outside the declared mask.
    pub fn from_bits_truncate(bits: u8) -> (r: Self)
        ensures
            r.bits == bits & Self::MASK,
            r.spec_is_valid(),
    {
        assert((bits & 0x07u8) & !0x07u8 == 0) by (bit_vector);
        SoftBodyFlags { bits: bits & Self::MASK }
    }

    /// The bits that are set outside the declared mask.
    #[verifier::when_used_as_spec(spec_reserved)]
    pub fn reserved(&self) -> (r: u8)
        ensures
            r == self.spec_reserved(),
    {
        self.bits & !Self::MASK
    }

    /// Whether no bit is set outside the declared mask.
    #[verifier::when_used_as_spec(spec_is_valid)]
    pub fn is_valid(&self) -> (r: bool)
        ensures
            r == self.spec_is_valid(),
    {
        self.bits & !Self::MASK == 0
    }

    /// Whether every bit of `flag` is set.
    #[verifier::when_used_as_spec(spec_contains)]
    pub fn contains(&self, flag: u8) -> (r: bool)
        ensures
            r == self.spec_contains(flag),
    {
        self.bits & flag == flag
    }

    /// Links between vertices are generated.
    pub fn b_link(&self) -> (r: bool)
        ensures
            r == self.spec_contains(Self::B_LINK),
    {
        self.contains(Self::B_LINK)
    }

    /// Clusters are generated.
    pub fn cluster_creation(&self) -> (r: bool)
        ensures
            r == self.spec_contains(Self::CLUSTER_CREATION),
    {
        self.contains(Self::CLUSTER_CREATION)
    }

    /// Links may cross.
    pub fn link_crossing(&self) -> (r: bool)
        ensures
            r == self.spec_contains(Self::LINK_CROSSING),
    {
        self.contains(Self::LINK_CROSSING)
    }
}

/// The flags of an animation sequence of a chunked model.
#[derive(Clone, Copy, Debug, PartialEq, Eq, Structural)]
pub struct SequenceFlags {
    pub bits: u32,
}

impl SequenceFlags {
    /// The sequence plays once.
    pub const NON_LOOPING: u32 = 0x00000001;

    /// Every bit that the format declares.
    pub const MASK: u32 = 0x00000001;

    /// The bits that are set outside the declared mask.
    pub open spec fn spec_reserved(&self) -> u32 {
        self.bits & !Self::MASK
    }

    /// Whether no bit is set outside the declared mask.
    pub open spec fn spec_is_valid(&self) -> bool {
        self.spec_reserved() == 0
    }

    /// Whether every bit of `flag` is set.
    pub open spec fn spec_contains(&self, flag: u32) -> bool {
        self.bits & flag == flag
    }

    /// The flag word as it stands, reserved bits included.
    pub fn from_bits_retain(bits: u32) -> (r: Self)
        ensures
            r.bits == bits,
    {
        SequenceFlags { bits }
    }

    /// The flag word, or `None` where a bit outside the declared mask is
    /// set.
    pub fn from_bits(bits: u32) -> (r: Option<Self>)
        ensures
            r == if (SequenceFlags { bits }).spec_is_valid() {
                Some(SequenceFlags { bits })
            } else {
                None
            },
    {
        if bits & !Self::MASK == 0 {
            Some(SequenceFlags { bits })
        } else {
            None
        }
    }

    /// The flag word without the bits outside the declared mask.
    pub fn from_bits_truncate(bits: u32) -> (r: Self)
        ensures
            r.bits == bits & Self::MASK,
            r.spec_is_valid(),
    {
        assert((bits & 0x00000001u32) & !0x00000001u32 == 0) by (bit_vector);
        SequenceFlags { bits: bits & Self::MASK }
    }

    /// The bits that are set outside the declared mask.
    #[verifier::when_used_as_spec(spec_reserved)]
    pub fn reserved(&self) -> (r: u32)
        ensures
            r == self.spec_reserved(),
    {
        self.bits & !Self::MASK
    }

    /// Whether no bit is set outside the declared mask.
    #[verifier::when_used_as_spec(spec_is_valid)]
    pub fn is_valid(&self) -> (r: bool)
        ensures
            r == self.spec_is_valid(),
    {
        self.bits & !Self::MASK == 0
    }

    /// Whether every bit of `flag` is set.
    #[verifier::when_used_as_spec(spec_contains)]
    pub fn contains(&self, flag: u32) -> (r: bool)
        ensures
            r == self.spec_contains(flag),
    {
        self.bits & flag == flag
    }

    /// The sequence plays once.
    pub fn non_looping(&self) -> (r: bool)
        ensures
            r == self.spec_contains(Self::NON_LOOPING),
    {
        self.contains(Self::NON_LOOPING)
    }
}

/// The shading flags of a material layer.
#[derive(Clone, Copy, Debug, PartialEq, Eq, Structural)]
pub struct Shading {
    pub bits: u32,
}

impl Shading {
    /// The layer is not lit.
    pub const UNSHADED: u32 = 0x00000001;

    /// The layer is an environment map.
    pub const SPHERE_ENVIRONMENT_MAP: u32 = 0x00000002;

    /// Both sides of the layer are drawn.
    pub const TWO_SIDED: u32 = 0x00000010;

    /// Fog does not touch the layer.
    pub const UNFOGGED: u32 = 0x00000020;

    /// The layer is drawn without a depth test.
    pub const NO_DEPTH_TEST: u32 = 0x00000030;

    /// The layer does not write depth.
    pub const NO_DEPTH_SET: u32 = 0x00000040;

    /// Every bit that the format declares.
    pub const MASK: u32 = 0x00000073;

    /// The bits that are set outside the declared mask.
    pub open spec fn spec_reserved(&self) -> u32 {
        self.bits & !Self::MASK
    }

    /// Whether no bit is set outside the declared mask.
    pub open spec fn spec_is_valid(&self) -> bool {
        self.spec_reserved() == 0
    }

    /// Whether every bit of `flag` is set.
    pub open spec fn spec_contains(&self, flag: u32) -> bool {
        self.bits & flag == flag
    }

    /// The flag word as it stands, reserved bits included.
    pub fn from_bits_retain(bits: u32) -> (r: Self)
        ensures
            r.bits == bits,
    {
        Shading { bits }
    }

    /// The flag word, or `None` where a bit outside the declared mask is
    /// set.
    pub fn from_bits(bits: u32) -> (r: Option<Self>)
        ensures
            r == if (Shading { bits }).spec_is_valid() {
                Some(Shading { bits })
            } else {
                None
            },
    {
        if bits & !Self::MASK == 0 {
            Some(Shading { bits })
        } else {
            None
        }
    }

    /// The flag word without the bits outside the declared mask.
    pub fn from_bits_truncate(bits: u32) -> (r: Self)
        ensures
            r.bits == bits & Self::MASK,
            r.spec_is_valid(),
    {
        assert((bits & 0x00000073u32) & !0x00000073u32 == 0) by (bit_vector);
        Shading { bits: bits & Self::MASK }
    }

    /// The bits that are set outside the declared mask.
    #[verifier::when_used_as_spec(spec_reserved)]
    pub fn reserved(&self) -> (r: u32)
        ensures
            r == self.spec_reserved(),
    {
        self.bits & !Self::MASK
    }

    /// Whether no bit is set outside the declared mask.
    #[verifier::when_used_as_spec(spec_is_valid)]
    pub fn is_valid(&self) -> (r: bool)
        ensures
            r == self.spec_is_valid(),
    {
        self.bits & !Self::MASK == 0
    }

    /// Whether every bit of `flag` is set.
    #[verifier::when_used_as_spec(spec_contains)]
    pub fn contains(&self, flag: u32) -> (r: bool)
        ensures
            r == self.spec_contains(flag),
    {
        self.bits & flag == flag
    }

    /// The layer is not lit.
    pub fn unshaded(&self) -> (r: bool)
        ensures
            r == self.spec_contains(Self::UNSHADED),
    {
        self.contains(Self::UNSHADED)
    }

    /// The layer is an environment map.
    pub fn sphere_environment_map(&self) -> (r: bool)
        ensures
            r == self.spec_contains(Self::SPHERE_ENVIRONMENT_MAP),
    {
        self.contains(Self::SPHERE_ENVIRONMENT_MAP)
    }

    /// Both sides of the layer are drawn.
    pub fn two_sided(&self) -> (r: bool)
        ensures
            r == self.spec_contains(Self::TWO_SIDED),
    {
        self.contains(Self::TWO_SIDED)
    }

    /// Fog does not touch the layer.
    pub fn unfogged(&self) -> (r: bool)
        ensures
            r == self.spec_contains(Self::UNFOGGED),
    {
        self.contains(Self::UNFOGGED)
    }

    /// The layer is drawn without a depth test.
    pub fn no_depth_test(&self) -> (r: bool)
        ensures
            r == self.spec_contains(Self::NO_DEPTH_TEST),
    {
        self.contains(Self::NO_DEPTH_TEST)
    }

    /// The layer does not write depth.
    pub fn no_depth_set(&self) -> (r: bool)
        ensures
            r == self.spec_contains(Self::NO_DEPTH_SET),
    {
        self.contains(Self::NO_DEPTH_SET)
    }
}

/// The bytes of the keyword `Unshaded`.
pub open spec fn unshaded_keyword() -> Seq<u8> {
    seq![0x55u8, 0x6E, 0x73, 0x68, 0x61, 0x64, 0x65, 0x64]
}

/// The bytes of the keyword `TwoSided`.
pub open spec fn two_sided_keyword() -> Seq<u8> {
    seq![0x54u8, 0x77, 0x6F, 0x53, 0x69, 0x64, 0x65, 0x64]
}

/// Whether `word` is the keyword `Unshaded`.
pub fn is_unshaded_keyword(word: &[u8]) -> (r: bool)
    ensures
        r == (word@ == unshaded_keyword()),
{
    let r = word.len() == 8 && word[0] == 0x55 && word[1] == 0x6E && word[2] == 0x73 && word[3]
        == 0x68 && word[4] == 0x61 && word[5] == 0x64 && word[6] == 0x65 && word[7] == 0x64;
    assert(r ==> word@ =~= unshaded_keyword());
    r
}

/// Whether `word` is the keyword `TwoSided`.
pub fn is_two_sided_keyword(word: &[u8]) -> (r: bool)
    ensures
        r == (word@ == two_sided_keyword()),
{
    let r = word.len() == 8 && word[0] == 0x54 && word[1] == 0x77 && word[2] == 0x6F && word[3]
        == 0x53 && word[4] == 0x69 && word[5] == 0x64 && word[6] == 0x65 && word[7] == 0x64;
    assert(r ==> word@ =~= two_sided_keyword());
    r
}

/// Whether one of `words` is `keyword`.
pub open spec fn names(words: Seq<Vec<u8>>, keyword: Seq<u8>) -> bool {
    exists|i: int| 0 <= i < words.len() && #[trigger] words[i]@ == keyword
}

/// The shading flags that a list of keywords stands for: `Unshaded` sets
/// the unshaded flag and `TwoSided` the two-sided flag, however often and
/// in whatever order they occur; any other word sets nothing.
pub open spec fn shading_of(words: Seq<Vec<u8>>) -> Shading {
    Shading {
        bits: ((if names(words, unshaded_keyword()) {
            Shading::UNSHADED
        } else {
            0u32
        }) + (if names(words, two_sided_keyword()) {
            Shading::TWO_SIDED
        } else {
            0u32
        })) as u32,
    }
}

/// Collects the shading flags that a list of keywords stands for.
pub fn shading(flags_str: &[Vec<u8>]) -> (flags: Shading)
    ensures
        flags == shading_of(flags_str@),
        flags.spec_is_valid(),
{
    let mut unshaded = false;
    let mut two_sided = false;
    let mut i: usize = 0;
    while i < flags_str.len()
        invariant
            i <= flags_str@.len(),
            unshaded == names(flags_str@.take(i as int), unshaded_keyword()),
            two_sided == names(flags_str@.take(i as int), two_sided_keyword()),
        decreases flags_str@.len() - i,
    {
        let ghost before = flags_str@.take(i as int);
        let ghost after = flags_str@.take(i + 1);
        let word = flags_str[i].as_slice();
        let u = is_unshaded_keyword(word);
        let t = is_two_sided_keyword(word);
        proof {
            assert(after[i as int]@ == word@);
            assert forall|k: int| 0 <= k < i implies before[k] == after[k] by {}
            lemma_names_step(before, after, unshaded_keyword());
            lemma_names_step(before, after, two_sided_keyword());
        }
        unshaded = unshaded || u;
        two_sided = two_sided || t;
        i = i + 1;
    }
    assert(flags_str@.take(i as int) =~= flags_str@);
    let mut bits: u32 = 0;
    if unshaded {
        bits = bits + Shading::UNSHADED;
    }
    if two_sided {
        bits = bits + Shading::TWO_SIDED;
    }
    assert(bits & !Shading::MASK == 0) by (bit_vector)
        requires
            bits == 0 || bits == 1 || bits == 16 || bits == 17,
    ;
    Shading { bits }
}

/// A list names a keyword when the list without its last word does, or
/// when the last word is the keyword.
proof fn lemma_names_step(before: Seq<Vec<u8>>, after: Seq<Vec<u8>>, keyword: Seq<u8>)
    requires
        after.len() == before.len() + 1,
        forall|k: int| 0 <= k < before.len() ==> before[k] == after[k],
    ensures
        names(after, keyword) == (names(before, keyword) || after.last()@ == keyword),
{
    if names(before, keyword) {
        let k = choose|k: int| 0 <= k < before.len() && #[trigger] before[k]@ == keyword;
        assert(after[k]@ == keyword);
    }
    if names(after, keyword) {
        let k = choose|k: int| 0 <= k < after.len() && #[trigger] after[k]@ == keyword;
        if k < before.len() {
            assert(before[k]@ == keyword);
        }
    }
}

} // verus!
