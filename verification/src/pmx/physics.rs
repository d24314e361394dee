//! Rigid bodies, the joints between them, and soft bodies.

use vstd::prelude::*;
use crate::error::{DecodeError, VersionRange};
use crate::index::{index_at, read_index, read_indices};
use crate::pmx::{indices_layout, layout_many, read_many, Settings, Wire};
use crate::flags::SoftBodyFlags;
use crate::primitives::{
    f32_at, fixed_read, get_f32, get_u32, le_u16_at, le_u32_at, ByteOrder, Cursor, Float32,
};
use crate::text::{decoded, string_bytes_at, Text, TextView};
use crate::vector::{read_v3f, v3f_at, Vector3};
use crate::wire::{part, reads, seq_views, Trail};

verus! {

/// The shape of a rigid body.
#[derive(Clone, Copy, Debug, PartialEq, Eq, Structural)]
pub enum RigidShape {
    Sphere,
    Box,
    Capsule,
}

/// What moves a rigid body.
#[derive(Clone, Copy, Debug, PartialEq, Eq, Structural)]
pub enum Physics {
    FollowBone,
    Gravity,
    GravityBone,
}

/// The shape that the byte `code` names.
pub open spec fn rigid_shape_of(code: u8) -> RigidShape {
    if code == 0 {
        RigidShape::Sphere
    } else if code == 1 {
        RigidShape::Box
    } else {
        RigidShape::Capsule
    }
}

/// The mode that the byte `code` names.
pub open spec fn physics_of(code: u8) -> Physics {
    if code == 0 {
        Physics::FollowBone
    } else if code == 1 {
        Physics::Gravity
    } else {
        Physics::GravityBone
    }
}

/// The numbers of a rigid body: where it is, how it is turned, and how it
/// behaves.
#[derive(Clone, Copy, Debug, PartialEq, Eq)]
pub struct Dynamics {
    pub scale: Vector3<Float32>,
    pub position: Vector3<Float32>,
    pub rotation: Vector3<Float32>,
    pub mass: Float32,
    pub attenuation: Float32,
    pub damping: Float32,
    pub repulsion: Float32,
    pub friction: Float32,
}

/// The numbers of a rigid body found at `at`: three vectors and five
/// single numbers.
pub open spec fn dynamics_at(data: Seq<u8>, at: int) -> Dynamics {
    Dynamics {
        scale: v3f_at(data, at, ByteOrder::Little),
        position: v3f_at(data, at + 12, ByteOrder::Little),
        rotation: v3f_at(data, at + 24, ByteOrder::Little),
        mass: f32_at(data, at + 36, ByteOrder::Little),
        attenuation: f32_at(data, at + 40, ByteOrder::Little),
        damping: f32_at(data, at + 44, ByteOrder::Little),
        repulsion: f32_at(data, at + 48, ByteOrder::Little),
        friction: f32_at(data, at + 52, ByteOrder::Little),
    }
}

/// Reads the numbers of a rigid body.
pub fn dynamics(cur: &mut Cursor) -> (r: Result<Dynamics, DecodeError>)
    ensures
        fixed_read(*old(cur), *final(cur), r, 56, dynamics_at(old(cur).buf@, old(cur).pos as int)),
{
    if !cur.has(56) {
        return Err(DecodeError::UnexpectedEof);
    }
    let scale = read_v3f(cur, ByteOrder::Little)?;
    let position = read_v3f(cur, ByteOrder::Little)?;
    let rotation = read_v3f(cur, ByteOrder::Little)?;
    let mass = cur.read_f32(ByteOrder::Little)?;
    let attenuation = cur.read_f32(ByteOrder::Little)?;
    let damping = cur.read_f32(ByteOrder::Little)?;
    let repulsion = cur.read_f32(ByteOrder::Little)?;
    let friction = cur.read_f32(ByteOrder::Little)?;
    Ok(Dynamics { scale, position, rotation, mass, attenuation, damping, repulsion, friction })
}

/// A rigid body.
#[derive(Clone, Debug, PartialEq, Eq)]
pub struct RigidBody {
    pub name_local: Text,
    pub name_global: Text,
    pub bone: i32,
    pub group: u8,
    pub mask: u16,
    pub shape: RigidShape,
    pub dynamics: Dynamics,
    pub mode: Physics,
}

/// What a `RigidBody` stands for.
pub struct RigidBodyView {
    pub name_local: TextView,
    pub name_global: TextView,
    pub bone: i32,
    pub group: u8,
    pub mask: u16,
    pub shape: RigidShape,
    pub dynamics: Dynamics,
    pub mode: Physics,
}

impl View for RigidBody {
    type V = RigidBodyView;

    open spec fn view(&self) -> RigidBodyView {
        RigidBodyView {
            name_local: self.name_local@,
            name_global: self.name_global@,
            bone: self.bone,
            group: self.group,
            mask: self.mask,
            shape: self.shape,
            dynamics: self.dynamics,
            mode: self.mode,
        }
    }
}

impl Wire for RigidBody {
    /// The two names; the index of the bone; the collision group and the
    /// mask of groups; the shape (0 to 2); 56 bytes of numbers; the mode
    /// (0 to 2).
    open spec fn layout(data: Seq<u8>, at: int, settings: Settings) -> Result<
        (Self::V, int),
        DecodeError,
    > {
        let w = settings.bone_index_size;
        let t1 = Trail::start(at).string(data);
        let t2 = t1.string(data);
        let t3 = t2.index(data, w);
        let t4 = t3.fixed(data, 3);
        let t5 = t4.fixed(data, 1).within(data[t4.at] as u32, 0, 2);
        let t6 = t5.fixed(data, 56);
        let t7 = t6.fixed(data, 1).within(data[t6.at] as u32, 0, 2);
        t7.finish(
            RigidBodyView {
                name_local: decoded(string_bytes_at(data, at), settings.encoding, at as u64),
                name_global: decoded(string_bytes_at(data, t1.at), settings.encoding, t1.at as u64),
                bone: index_at(data, t2.at, w, true),
                group: data[t3.at],
                mask: le_u16_at(data, t3.at + 1),
                shape: rigid_shape_of(data[t4.at]),
                dynamics: dynamics_at(data, t5.at),
                mode: physics_of(data[t6.at]),
            },
        )
    }

    fn read(cur: &mut Cursor, settings: &Settings) -> (r: Result<Self, DecodeError>) {
        let name_local = Text::read(cur, settings)?;
        let name_global = Text::read(cur, settings)?;
        let bone = read_index(cur, settings.bone_index_size, true)?;
        if !cur.has(3) {
            return Err(DecodeError::UnexpectedEof);
        }
        let group = cur.read_u8()?;
        let mask = cur.read_u16(ByteOrder::Little)?;
        let code = cur.read_u8()?;
        let shape = if code == 0 {
            RigidShape::Sphere
        } else if code == 1 {
            RigidShape::Box
        } else if code == 2 {
            RigidShape::Capsule
        } else {
            return Err(
                DecodeError::UnsupportedVersion {
                    got: code as u32,
                    supported_range: VersionRange { min: 0, max: 2 },
                },
            );
        };
        let dynamics = dynamics(cur)?;
        let code = cur.read_u8()?;
        let mode = if code == 0 {
            Physics::FollowBone
        } else if code == 1 {
            Physics::Gravity
        } else if code == 2 {
            Physics::GravityBone
        } else {
            return Err(
                DecodeError::UnsupportedVersion {
                    got: code as u32,
                    supported_range: VersionRange { min: 0, max: 2 },
                },
            );
        };
        Ok(RigidBody { name_local, name_global, bone, group, mask, shape, dynamics, mode })
    }
}

/// Reads a rigid body.
pub fn rigid_body(cur: &mut Cursor, settings: &Settings) -> (r: Result<RigidBody, DecodeError>)
    ensures
        reads(
            *old(cur),
            *final(cur),
            r,
            RigidBody::layout(old(cur).buf@, old(cur).pos as int, *settings),
        ),
{
    RigidBody::read(cur, settings)
}

// ---------------------------------------------------------------------
// Joints
// ---------------------------------------------------------------------

/// The kind of a joint.
#[derive(Clone, Copy, Debug, PartialEq, Eq, Structural)]
pub enum JointType {
    Spring6Dof,
    SixDof,
    P2p,
    ConeTwist,
    Slider,
    Hinge,
}

/// The kind of joint that the byte `code` names.
pub open spec fn joint_type_of(code: u8) -> JointType {
    if code == 0 {
        JointType::Spring6Dof
    } else if code == 1 {
        JointType::SixDof
    } else if code == 2 {
        JointType::P2p
    } else if code == 3 {
        JointType::ConeTwist
    } else if code == 4 {
        JointType::Slider
    } else {
        JointType::Hinge
    }
}

/// Names the kind of joint of a code from 0 to 5.
fn joint_type(code: u8) -> (r: JointType)
    ensures
        r == joint_type_of(code),
{
    if code == 0 {
        JointType::Spring6Dof
    } else if code == 1 {
        JointType::SixDof
    } else if code == 2 {
        JointType::P2p
    } else if code == 3 {
        JointType::ConeTwist
    } else if code == 4 {
        JointType::Slider
    } else {
        JointType::Hinge
    }
}

/// Where a joint lies and how far it gives.
#[derive(Clone, Copy, Debug, PartialEq, Eq)]
pub struct Limits {
    pub position: Vector3<Float32>,
    pub rotation: Vector3<Float32>,
    pub position_min: Vector3<Float32>,
    pub position_max: Vector3<Float32>,
    pub rotation_min: Vector3<Float32>,
    pub rotation_max: Vector3<Float32>,
    pub position_spring: Vector3<Float32>,
    pub rotation_spring: Vector3<Float32>,
}

/// The eight vectors of a joint found at `at`.
pub open spec fn limits_at(data: Seq<u8>, at: int) -> Limits {
    Limits {
        position: v3f_at(data, at, ByteOrder::Little),
        rotation: v3f_at(data, at + 12, ByteOrder::Little),
        position_min: v3f_at(data, at + 24, ByteOrder::Little),
        position_max: v3f_at(data, at + 36, ByteOrder::Little),
        rotation_min: v3f_at(data, at + 48, ByteOrder::Little),
        rotation_max: v3f_at(data, at + 60, ByteOrder::Little),
        position_spring: v3f_at(data, at + 72, ByteOrder::Little),
        rotation_spring: v3f_at(data, at + 84, ByteOrder::Little),
    }
}

/// Reads the eight vectors of a joint.
pub fn limits(cur: &mut Cursor) -> (r: Result<Limits, DecodeError>)
    ensures
        fixed_read(*old(cur), *final(cur), r, 96, limits_at(old(cur).buf@, old(cur).pos as int)),
{
    if !cur.has(96) {
        return Err(DecodeError::UnexpectedEof);
    }
    let position = read_v3f(cur, ByteOrder::Little)?;
    let rotation = read_v3f(cur, ByteOrder::Little)?;
    let position_min = read_v3f(cur, ByteOrder::Little)?;
    let position_max = read_v3f(cur, ByteOrder::Little)?;
    let rotation_min = read_v3f(cur, ByteOrder::Little)?;
    let rotation_max = read_v3f(cur, ByteOrder::Little)?;
    let position_spring = read_v3f(cur, ByteOrder::Little)?;
    let rotation_spring = read_v3f(cur, ByteOrder::Little)?;
    Ok(
        Limits {
            position,
            rotation,
            position_min,
            position_max,
            rotation_min,
            rotation_max,
            position_spring,
            rotation_spring,
        },
    )
}

/// A joint between two rigid bodies.
#[derive(Clone, Debug, PartialEq, Eq)]
pub struct Joint {
    pub name_local: Text,
    pub name_global: Text,
    pub kind: JointType,
    pub indices: [i32; 2],
    pub limits: Limits,
}

/// What a `Joint` stands for.
pub struct JointView {
    pub name_local: TextView,
    pub name_global: TextView,
    pub kind: JointType,
    pub indices: [i32; 2],
    pub limits: Limits,
}

impl View for Joint {
    type V = JointView;

    open spec fn view(&self) -> JointView {
        JointView {
            name_local: self.name_local@,
            name_global: self.name_global@,
            kind: self.kind,
            indices: self.indices,
            limits: self.limits,
        }
    }
}

impl Wire for Joint {
    /// The two names; the kind (0 to 5); the indices of the two rigid
    /// bodies; eight vectors.
    open spec fn layout(data: Seq<u8>, at: int, settings: Settings) -> Result<
        (Self::V, int),
        DecodeError,
    > {
        let w = settings.rigid_body_index_size;
        let t1 = Trail::start(at).string(data);
        let t2 = t1.string(data);
        let t3 = t2.fixed(data, 1).within(data[t2.at] as u32, 0, 5);
        let t4 = t3.index(data, w);
        let t5 = t4.index(data, w);
        let t6 = t5.fixed(data, 96);
        t6.finish(
            JointView {
                name_local: decoded(string_bytes_at(data, at), settings.encoding, at as u64),
                name_global: decoded(string_bytes_at(data, t1.at), settings.encoding, t1.at as u64),
                kind: joint_type_of(data[t2.at]),
                indices: [index_at(data, t3.at, w, true), index_at(data, t4.at, w, true)],
                limits: limits_at(data, t5.at),
            },
        )
    }

    fn read(cur: &mut Cursor, settings: &Settings) -> (r: Result<Self, DecodeError>) {
        let w = settings.rigid_body_index_size;
        let name_local = Text::read(cur, settings)?;
        let name_global = Text::read(cur, settings)?;
        let code = cur.read_u8()?;
        if code > 5 {
            return Err(
                DecodeError::UnsupportedVersion {
                    got: code as u32,
                    supported_range: VersionRange { min: 0, max: 5 },
                },
            );
        }
        let a = read_index(cur, w, true)?;
        let b = read_index(cur, w, true)?;
        let limits = limits(cur)?;
        Ok(Joint { name_local, name_global, kind: joint_type(code), indices: [a, b], limits })
    }
}

/// Reads a joint.
pub fn joint(cur: &mut Cursor, settings: &Settings) -> (r: Result<Joint, DecodeError>)
    ensures
        reads(
            *old(cur),
            *final(cur),
            r,
            Joint::layout(old(cur).buf@, old(cur).pos as int, *settings),
        ),
{
    Joint::read(cur, settings)
}

// ---------------------------------------------------------------------
// Soft bodies
// ---------------------------------------------------------------------

/// The shape of a soft body.
#[derive(Clone, Copy, Debug, PartialEq, Eq, Structural)]
pub enum SoftShape {
    TriMesh,
    Rope,
}

/// The aerodynamics model of a soft body.
#[derive(Clone, Copy, Debug, PartialEq, Eq, Structural)]
pub enum Aerodynamics {
    VPoint,
    V2Sided,
    V1Sided,
    F2Sided,
    F1Sided,
}

/// The aerodynamics model that the number `code` names.
pub open spec fn aerodynamics_of(code: u32) -> Aerodynamics {
    if code == 0 {
        Aerodynamics::VPoint
    } else if code == 1 {
        Aerodynamics::V2Sided
    } else if code == 2 {
        Aerodynamics::V1Sided
    } else if code == 3 {
        Aerodynamics::F2Sided
    } else {
        Aerodynamics::F1Sided
    }
}

/// Names the aerodynamics model of a code from 0 to 4.
fn aerodynamics(code: u32) -> (r: Aerodynamics)
    ensures
        r == aerodynamics_of(code),
{
    if code == 0 {
        Aerodynamics::VPoint
    } else if code == 1 {
        Aerodynamics::V2Sided
    } else if code == 2 {
        Aerodynamics::V1Sided
    } else if code == 3 {
        Aerodynamics::F2Sided
    } else {
        Aerodynamics::F1Sided
    }
}

/// The coefficients of the simulation of a soft body, under the names
/// that the physics engine gives them.
#[derive(Clone, Copy, Debug, PartialEq, Eq)]
pub struct Coefficients {
    pub vcf: Float32,
    pub dp: Float32,
    pub dg: Float32,
    pub lf: Float32,
    pub pr: Float32,
    pub vc: Float32,
    pub df: Float32,
    pub mt: Float32,
    pub chr: Float32,
    pub khr: Float32,
    pub shr: Float32,
    pub ahr: Float32,
    pub srhr_cl: Float32,
    pub skhr_cl: Float32,
    pub sshr_cl: Float32,
    pub sr_splt_cl: Float32,
    pub sk_splt_cl: Float32,
    pub ss_splt_cl: Float32,
    pub v_it: u32,
    pub p_it: u32,
    pub d_it: u32,
    pub c_it: u32,
    pub lst: u32,
    pub ast: u32,
    pub vst: u32,
}

/// The coefficients found at `at`: eighteen single numbers and seven
/// whole numbers.
pub open spec fn coefficients_at(data: Seq<u8>, at: int) -> Coefficients {
    Coefficients {
        vcf: f32_at(data, at, ByteOrder::Little),
        dp: f32_at(data, at + 4, ByteOrder::Little),
        dg: f32_at(data, at + 8, ByteOrder::Little),
        lf: f32_at(data, at + 12, ByteOrder::Little),
        pr: f32_at(data, at + 16, ByteOrder::Little),
        vc: f32_at(data, at + 20, ByteOrder::Little),
        df: f32_at(data, at + 24, ByteOrder::Little),
        mt: f32_at(data, at + 28, ByteOrder::Little),
        chr: f32_at(data, at + 32, ByteOrder::Little),
        khr: f32_at(data, at + 36, ByteOrder::Little),
        shr: f32_at(data, at + 40, ByteOrder::Little),
        ahr: f32_at(data, at + 44, ByteOrder::Little),
        srhr_cl: f32_at(data, at + 48, ByteOrder::Little),
        skhr_cl: f32_at(data, at + 52, ByteOrder::Little),
        sshr_cl: f32_at(data, at + 56, ByteOrder::Little),
        sr_splt_cl: f32_at(data, at + 60, ByteOrder::Little),
        sk_splt_cl: f32_at(data, at + 64, ByteOrder::Little),
        ss_splt_cl: f32_at(data, at + 68, ByteOrder::Little),
        v_it: le_u32_at(data, at + 72),
        p_it: le_u32_at(data, at + 76),
        d_it: le_u32_at(data, at + 80),
        c_it: le_u32_at(data, at + 84),
        lst: le_u32_at(data, at + 88),
        ast: le_u32_at(data, at + 92),
        vst: le_u32_at(data, at + 96),
    }
}

/// Reads the coefficients of a soft body.
pub fn coefficients(cur: &mut Cursor) -> (r: Result<Coefficients, DecodeError>)
    ensures
        fixed_read(
            *old(cur),
            *final(cur),
            r,
            100,
            coefficients_at(old(cur).buf@, old(cur).pos as int),
        ),
{
    if !cur.has(100) {
        return Err(DecodeError::UnexpectedEof);
    }
    let buf = cur.buf;
    let at = cur.position();
    let o = ByteOrder::Little;
    let read = Coefficients {
        vcf: get_f32(buf, at, o),
        dp: get_f32(buf, at + 4, o),
        dg: get_f32(buf, at + 8, o),
        lf: get_f32(buf, at + 12, o),
        pr: get_f32(buf, at + 16, o),
        vc: get_f32(buf, at + 20, o),
        df: get_f32(buf, at + 24, o),
        mt: get_f32(buf, at + 28, o),
        chr: get_f32(buf, at + 32, o),
        khr: get_f32(buf, at + 36, o),
        shr: get_f32(buf, at + 40, o),
        ahr: get_f32(buf, at + 44, o),
        srhr_cl: get_f32(buf, at + 48, o),
        skhr_cl: get_f32(buf, at + 52, o),
        sshr_cl: get_f32(buf, at + 56, o),
        sr_splt_cl: get_f32(buf, at + 60, o),
        sk_splt_cl: get_f32(buf, at + 64, o),
        ss_splt_cl: get_f32(buf, at + 68, o),
        v_it: get_u32(buf, at + 72, o),
        p_it: get_u32(buf, at + 76, o),
        d_it: get_u32(buf, at + 80, o),
        c_it: get_u32(buf, at + 84, o),
        lst: get_u32(buf, at + 88, o),
        ast: get_u32(buf, at + 92, o),
        vst: get_u32(buf, at + 96, o),
    };
    cur.seek(at + 100);
    Ok(read)
}

/// A rigid body to which a vertex of a soft body is anchored.
#[derive(Clone, Copy, Debug, PartialEq, Eq, Structural)]
pub struct AnchorRigidBody {
    pub rigid_body: i32,
    pub vertex: i32,
    pub near_mode: u8,
}

impl View for AnchorRigidBody {
    type V = AnchorRigidBody;

    open spec fn view(&self) -> AnchorRigidBody {
        *self
    }
}

impl Wire for AnchorRigidBody {
    /// The index of the rigid body, the index of the vertex, and a byte.
    open spec fn layout(data: Seq<u8>, at: int, settings: Settings) -> Result<
        (Self::V, int),
        DecodeError,
    > {
        let t1 = Trail::start(at).index(data, settings.rigid_body_index_size);
        let t2 = t1.index(data, settings.vertex_index_size);
        t2.fixed(data, 1).finish(
            AnchorRigidBody {
                rigid_body: index_at(data, at, settings.rigid_body_index_size, true),
                vertex: index_at(data, t1.at, settings.vertex_index_size, true),
                near_mode: data[t2.at],
            },
        )
    }

    fn read(cur: &mut Cursor, settings: &Settings) -> (r: Result<Self, DecodeError>) {
        let rigid_body = read_index(cur, settings.rigid_body_index_size, true)?;
        let vertex = read_index(cur, settings.vertex_index_size, true)?;
        let near_mode = cur.read_u8()?;
        Ok(AnchorRigidBody { rigid_body, vertex, near_mode })
    }
}

/// The fields of a soft body that stand between its material and its
/// aerodynamics model.
#[derive(Clone, Copy, Debug, PartialEq, Eq)]
pub struct Collision {
    pub group: u8,
    pub mask: u16,
    pub flags: SoftBodyFlags,
    pub b_link_create_distance: u32,
    pub cluster_count: u32,
    pub total_mass: Float32,
    pub collision_margin: Float32,
}

/// The collision fields found at `at`.
pub open spec fn collision_at(data: Seq<u8>, at: int) -> Collision {
    Collision {
        group: data[at],
        mask: le_u16_at(data, at + 1),
        flags: SoftBodyFlags { bits: data[at + 3] },
        b_link_create_distance: le_u32_at(data, at + 4),
        cluster_count: le_u32_at(data, at + 8),
        total_mass: f32_at(data, at + 12, ByteOrder::Little),
        collision_margin: f32_at(data, at + 16, ByteOrder::Little),
    }
}

/// Reads the collision fields of a soft body.
pub fn collision(cur: &mut Cursor) -> (r: Result<Collision, DecodeError>)
    ensures
        fixed_read(*old(cur), *final(cur), r, 20, collision_at(old(cur).buf@, old(cur).pos as int)),
{
    if !cur.has(20) {
        return Err(DecodeError::UnexpectedEof);
    }
    let group = cur.read_u8()?;
    let mask = cur.read_u16(ByteOrder::Little)?;
    let flags = SoftBodyFlags::from_bits_retain(cur.read_u8()?);
    let b_link_create_distance = cur.read_u32(ByteOrder::Little)?;
    let cluster_count = cur.read_u32(ByteOrder::Little)?;
    let total_mass = cur.read_f32(ByteOrder::Little)?;
    let collision_margin = cur.read_f32(ByteOrder::Little)?;
    Ok(
        Collision {
            group,
            mask,
            flags,
            b_link_create_distance,
            cluster_count,
            total_mass,
            collision_margin,
        },
    )
}

/// A soft body.
#[derive(Clone, Debug, PartialEq, Eq)]
pub struct SoftBody {
    pub name_local: Text,
    pub name_global: Text,
    pub shape: SoftShape,
    pub material: i32,
    pub collision: Collision,
    pub aerodynamics: Aerodynamics,
    pub coefficients: Coefficients,
    pub anchor_rigid_bodies: Vec<AnchorRigidBody>,
    pub vertex_pins: Vec<i32>,
}

/// What a `SoftBody` stands for.
pub struct SoftBodyView {
    pub name_local: TextView,
    pub name_global: TextView,
    pub shape: SoftShape,
    pub material: i32,
    pub collision: Collision,
    pub aerodynamics: Aerodynamics,
    pub coefficients: Coefficients,
    pub anchor_rigid_bodies: Seq<AnchorRigidBody>,
    pub vertex_pins: Seq<i32>,
}

impl View for SoftBody {
    type V = SoftBodyView;

    open spec fn view(&self) -> SoftBodyView {
        SoftBodyView {
            name_local: self.name_local@,
            name_global: self.name_global@,
            shape: self.shape,
            material: self.material,
            collision: self.collision,
            aerodynamics: self.aerodynamics,
            coefficients: self.coefficients,
            anchor_rigid_bodies: seq_views(self.anchor_rigid_bodies@),
            vertex_pins: self.vertex_pins@,
        }
    }
}

/// Reads the vertex indices to which a soft body is pinned.
fn pins(cur: &mut Cursor, count: u32, w: u8) -> (r: Result<Vec<i32>, DecodeError>)
    ensures
        final(cur).buf == old(cur).buf,
        match r {
            Ok(indices) => indices_layout(old(cur).buf@, old(cur).pos as int, count, w) == Ok::<
                (Seq<i32>, int),
                DecodeError,
            >((indices@, final(cur).pos as int)),
            Err(e) => indices_layout(old(cur).buf@, old(cur).pos as int, count, w) == Err::<
                (Seq<i32>, int),
                DecodeError,
            >(e),
        },
{
    let ghost data = cur.buf@;
    let ghost at = cur.pos as int;
    let indices = read_indices(cur, count, w, true)?;
    proof {
        if count == 0 {
            assert(indices@ =~= Seq::<i32>::empty());
        } else {
            assert(
                indices@ =~= Seq::new(count as nat, |i: int| index_at(data, at + i * w, w, true))
            );
        }
    }
    Ok(indices)
}

impl Wire for SoftBody {
    /// The two names; the shape (0 or 1); the index of the material; 20
    /// bytes of collision fields; the aerodynamics model (0 to 4); 100
    /// bytes of coefficients; the anchors behind their count; the pinned
    /// vertices behind theirs.
    open spec fn layout(data: Seq<u8>, at: int, settings: Settings) -> Result<
        (Self::V, int),
        DecodeError,
    > {
        let t1 = Trail::start(at).string(data);
        let t2 = t1.string(data);
        let t3 = t2.fixed(data, 1).within(data[t2.at] as u32, 0, 1);
        let t4 = t3.index(data, settings.material_index_size);
        let t5 = t4.fixed(data, 20);
        let t6 = t5.fixed(data, 4).within(le_u32_at(data, t5.at), 0, 4);
        let t7 = t6.fixed(data, 100);
        let t8 = t7.fixed(data, 4);
        let anchors = layout_many::<AnchorRigidBody>(
            data,
            t8.at,
            le_u32_at(data, t7.at) as nat,
            settings,
        );
        let t9 = t8.past(anchors);
        let t10 = t9.fixed(data, 4);
        let pinned = indices_layout(
            data,
            t10.at,
            le_u32_at(data, t9.at),
            settings.vertex_index_size,
        );
        t10.past(pinned).finish(
            SoftBodyView {
                name_local: decoded(string_bytes_at(data, at), settings.encoding, at as u64),
                name_global: decoded(string_bytes_at(data, t1.at), settings.encoding, t1.at as u64),
                shape: if data[t2.at] == 0 {
                    SoftShape::TriMesh
                } else {
                    SoftShape::Rope
                },
                material: index_at(data, t3.at, settings.material_index_size, true),
                collision: collision_at(data, t4.at),
                aerodynamics: aerodynamics_of(le_u32_at(data, t5.at)),
                coefficients: coefficients_at(data, t6.at),
                anchor_rigid_bodies: part(anchors),
                vertex_pins: part(pinned),
            },
        )
    }

    #[verifier::spinoff_prover]
    #[verifier::rlimit(100)]
    fn read(cur: &mut Cursor, settings: &Settings) -> (r: Result<Self, DecodeError>) {
        let name_local = Text::read(cur, settings)?;
        let name_global = Text::read(cur, settings)?;
        let code = cur.read_u8()?;
        let shape = if code == 0 {
            SoftShape::TriMesh
        } else if code == 1 {
            SoftShape::Rope
        } else {
            return Err(
                DecodeError::UnsupportedVersion {
                    got: code as u32,
                    supported_range: VersionRange { min: 0, max: 1 },
                },
            );
        };
        let material = read_index(cur, settings.material_index_size, true)?;
        let collision = collision(cur)?;
        let model = cur.read_u32(ByteOrder::Little)?;
        if model > 4 {
            return Err(
                DecodeError::UnsupportedVersion {
                    got: model,
                    supported_range: VersionRange { min: 0, max: 4 },
                },
            );
        }
        let coefficients = coefficients(cur)?;
        let anchor_count = cur.read_u32(ByteOrder::Little)?;
        let anchor_rigid_bodies = read_many::<AnchorRigidBody>(cur, anchor_count, settings)?;
        let pin_count = cur.read_u32(ByteOrder::Little)?;
        let vertex_pins = pins(cur, pin_count, settings.vertex_index_size)?;
        Ok(
            SoftBody {
                name_local,
                name_global,
                shape,
                material,
                collision,
                aerodynamics: aerodynamics(model),
                coefficients,
                anchor_rigid_bodies,
                vertex_pins,
            },
        )
    }
}

/// Reads a soft body.
pub fn soft_body(cur: &mut Cursor, settings: &Settings) -> (r: Result<SoftBody, DecodeError>)
    ensures
        reads(
            *old(cur),
            *final(cur),
            r,
            SoftBody::layout(old(cur).buf@, old(cur).pos as int, *settings),
        ),
{
    SoftBody::read(cur, settings)
}

} // verus!
