//! Morphs and display frames.
//!
//! A morph is a list of offsets of one kind; the kind is a byte in front
//! of the list and selects the layout of every offset in it.

use vstd::prelude::*;
use crate::color::{read_rgb_f, read_rgba_f, rgb_f_at, rgba_f_at, ColorF};
use crate::error::{DecodeError, VersionRange};
use crate::index::{index_at, read_index};
use crate::pmx::{read_many, layout_many, Settings, Wire};
use crate::primitives::{f32_at, le_u32_at, ByteOrder, Cursor, Float32};
use crate::text::{decoded, string_bytes_at, Text, TextView};
use crate::vector::{read_v3f, read_v4f, v3f_at, v4f_at, Vector3, Vector4};
use crate::wire::{part, reads, seq_views, Trail};

verus! {

/// The panel of the editor in which a morph is shown.
#[derive(Clone, Copy, Debug, PartialEq, Eq, Structural)]
pub enum Category {
    Reserved,
    Eyebrow,
    Eye,
    Mouth,
    Other,
}

/// What the offsets of a morph act on.
#[derive(Clone, Copy, Debug, PartialEq, Eq, Structural)]
pub enum MorphType {
    Group,
    Vertex,
    Bone,
    Uv,
    AdditionalUv1,
    AdditionalUv2,
    AdditionalUv3,
    AdditionalUv4,
    Material,
    Flip,
    Impulse,
}

/// The category that the byte `code` names.
pub open spec fn category_of(code: u8) -> Category {
    if code == 0 {
        Category::Reserved
    } else if code == 1 {
        Category::Eyebrow
    } else if code == 2 {
        Category::Eye
    } else if code == 3 {
        Category::Mouth
    } else {
        Category::Other
    }
}

/// The kind of morph that the byte `code` names.
pub open spec fn morph_type_of(code: u8) -> MorphType {
    if code == 0 {
        MorphType::Group
    } else if code == 1 {
        MorphType::Vertex
    } else if code == 2 {
        MorphType::Bone
    } else if code == 3 {
        MorphType::Uv
    } else if code == 4 {
        MorphType::AdditionalUv1
    } else if code == 5 {
        MorphType::AdditionalUv2
    } else if code == 6 {
        MorphType::AdditionalUv3
    } else if code == 7 {
        MorphType::AdditionalUv4
    } else if code == 8 {
        MorphType::Material
    } else if code == 9 {
        MorphType::Flip
    } else {
        MorphType::Impulse
    }
}

/// Names the category of a code from 0 to 4.
fn category(code: u8) -> (r: Category)
    ensures
        r == category_of(code),
{
    if code == 0 {
        Category::Reserved
    } else if code == 1 {
        Category::Eyebrow
    } else if code == 2 {
        Category::Eye
    } else if code == 3 {
        Category::Mouth
    } else {
        Category::Other
    }
}

/// Names the kind of morph of a code from 0 to 10.
fn morph_type(code: u8) -> (r: MorphType)
    ensures
        r == morph_type_of(code),
{
    if code == 0 {
        MorphType::Group
    } else if code == 1 {
        MorphType::Vertex
    } else if code == 2 {
        MorphType::Bone
    } else if code == 3 {
        MorphType::Uv
    } else if code == 4 {
        MorphType::AdditionalUv1
    } else if code == 5 {
        MorphType::AdditionalUv2
    } else if code == 6 {
        MorphType::AdditionalUv3
    } else if code == 7 {
        MorphType::AdditionalUv4
    } else if code == 8 {
        MorphType::Material
    } else if code == 9 {
        MorphType::Flip
    } else {
        MorphType::Impulse
    }
}

/// One offset of a morph.
#[derive(Clone, Copy, Debug, PartialEq, Eq)]
#[allow(inconsistent_fields)]
pub enum Offset {
    Group { index: i32, weight: Float32 },
    Vertex { index: i32, translation: Vector3<Float32> },
    Bone { index: i32, translation: Vector3<Float32>, rotation: Vector4<Float32> },
    Uv { index: i32, offsets: Vector4<Float32> },
    Material {
        index: i32,
        operation: u8,
        diffuse: ColorF,
        specular: ColorF,
        specularity: Float32,
        ambient: ColorF,
        edge_color: ColorF,
        edge_scale: Float32,
        texture_tint: ColorF,
        environment_tint: ColorF,
        toon_tint: ColorF,
    },
    Flip { index: i32, weight: Float32 },
    Impulse { index: i32, is_local: bool, speed: Vector3<Float32>, torque: Vector3<Float32> },
}

/// The width of the index that an offset of the kind `kind` starts with:
/// that of a morph index for groups and flips, of a vertex index for
/// vertices and texture coordinates, of a bone, a material or a rigid-body
/// index for the kinds of those names.
pub open spec fn offset_index_size(kind: u8, settings: Settings) -> u8 {
    if kind == 0 || kind == 9 {
        settings.morph_index_size
    } else if kind == 1 || (3 <= kind <= 7) {
        settings.vertex_index_size
    } else if kind == 2 {
        settings.bone_index_size
    } else if kind == 8 {
        settings.material_index_size
    } else {
        settings.rigid_body_index_size
    }
}

/// The number of bytes that follow the index of an offset of the kind
/// `kind`.
pub open spec fn offset_body_size(kind: u8) -> nat {
    if kind == 0 || kind == 9 {
        4
    } else if kind == 1 {
        12
    } else if kind == 2 {
        28
    } else if 3 <= kind <= 7 {
        16
    } else if kind == 8 {
        113
    } else {
        25
    }
}

/// The offset of the kind `kind` whose index of `w` bytes stands at `at`.
pub open spec fn offset_at(data: Seq<u8>, at: int, kind: u8, w: u8) -> Offset {
    let index = index_at(data, at, w, true);
    let b = at + w;
    if kind == 0 {
        Offset::Group { index, weight: f32_at(data, b, ByteOrder::Little) }
    } else if kind == 1 {
        Offset::Vertex { index, translation: v3f_at(data, b, ByteOrder::Little) }
    } else if kind == 2 {
        Offset::Bone {
            index,
            translation: v3f_at(data, b, ByteOrder::Little),
            rotation: v4f_at(data, b + 12, ByteOrder::Little),
        }
    } else if 3 <= kind <= 7 {
        Offset::Uv { index, offsets: v4f_at(data, b, ByteOrder::Little) }
    } else if kind == 8 {
        Offset::Material {
            index,
            operation: data[b],
            diffuse: rgba_f_at(data, b + 1, ByteOrder::Little),
            specular: rgb_f_at(data, b + 17, ByteOrder::Little),
            specularity: f32_at(data, b + 29, ByteOrder::Little),
            ambient: rgb_f_at(data, b + 33, ByteOrder::Little),
            edge_color: rgba_f_at(data, b + 45, ByteOrder::Little),
            edge_scale: f32_at(data, b + 61, ByteOrder::Little),
            texture_tint: rgba_f_at(data, b + 65, ByteOrder::Little),
            environment_tint: rgba_f_at(data, b + 81, ByteOrder::Little),
            toon_tint: rgba_f_at(data, b + 97, ByteOrder::Little),
        }
    } else if kind == 9 {
        Offset::Flip { index, weight: f32_at(data, b, ByteOrder::Little) }
    } else {
        Offset::Impulse {
            index,
            is_local: data[b] != 0,
            speed: v3f_at(data, b + 1, ByteOrder::Little),
            torque: v3f_at(data, b + 13, ByteOrder::Little),
        }
    }
}

/// What an offset of the kind `kind` holds: an index whose width depends
/// on the kind, and the fields of the kind. A kind above 10 has no
/// layout.
pub open spec fn offset_layout(data: Seq<u8>, at: int, kind: u8, settings: Settings) -> Result<
    (Offset, int),
    DecodeError,
> {
    let w = offset_index_size(kind, settings);
    Trail::start(at).within(kind as u32, 0, 10).index(data, w).fixed(
        data,
        offset_body_size(kind),
    ).finish(offset_at(data, at, kind, w))
}

impl View for Offset {
    type V = Offset;

    open spec fn view(&self) -> Offset {
        *self
    }
}

/// The index width of the offsets of a kind.
fn index_size(kind: u8, settings: &Settings) -> (w: u8)
    ensures
        w == offset_index_size(kind, *settings),
{
    if kind == 0 || kind == 9 {
        settings.morph_index_size
    } else if kind == 1 || (3 <= kind && kind <= 7) {
        settings.vertex_index_size
    } else if kind == 2 {
        settings.bone_index_size
    } else if kind == 8 {
        settings.material_index_size
    } else {
        settings.rigid_body_index_size
    }
}

/// Reads the fields of a material offset behind its index.
fn material_offset(cur: &mut Cursor, index: i32, Ghost(w): Ghost<u8>) -> (r: Result<
    Offset,
    DecodeError,
>)
    requires
        old(cur).pos >= w,
        index == index_at(old(cur).buf@, old(cur).pos - w, w, true),
    ensures
        crate::primitives::fixed_read(
            *old(cur),
            *final(cur),
            r,
            113,
            offset_at(old(cur).buf@, old(cur).pos - w, 8, w),
        ),
{
    if !cur.has(113) {
        return Err(DecodeError::UnexpectedEof);
    }
    let operation = cur.read_u8()?;
    let diffuse = read_rgba_f(cur, ByteOrder::Little)?;
    let specular = read_rgb_f(cur, ByteOrder::Little)?;
    let specularity = cur.read_f32(ByteOrder::Little)?;
    let ambient = read_rgb_f(cur, ByteOrder::Little)?;
    let edge_color = read_rgba_f(cur, ByteOrder::Little)?;
    let edge_scale = cur.read_f32(ByteOrder::Little)?;
    let texture_tint = read_rgba_f(cur, ByteOrder::Little)?;
    let environment_tint = read_rgba_f(cur, ByteOrder::Little)?;
    let toon_tint = read_rgba_f(cur, ByteOrder::Little)?;
    Ok(
        Offset::Material {
            index,
            operation,
            diffuse,
            specular,
            specularity,
            ambient,
            edge_color,
            edge_scale,
            texture_tint,
            environment_tint,
            toon_tint,
        },
    )
}

/// Reads one offset of a morph of the kind `kind`.
pub fn offset(cur: &mut Cursor, kind: u8, settings: &Settings) -> (r: Result<Offset, DecodeError>)
    ensures
        reads(
            *old(cur),
            *final(cur),
            r,
            offset_layout(old(cur).buf@, old(cur).pos as int, kind, *settings),
        ),
{
    if kind > 10 {
        return Err(
            DecodeError::UnsupportedVersion {
                got: kind as u32,
                supported_range: VersionRange { min: 0, max: 10 },
            },
        );
    }
    let w = index_size(kind, settings);
    let index = read_index(cur, w, true)?;
    if kind == 0 {
        let weight = cur.read_f32(ByteOrder::Little)?;
        Ok(Offset::Group { index, weight })
    } else if kind == 1 {
        let translation = read_v3f(cur, ByteOrder::Little)?;
        Ok(Offset::Vertex { index, translation })
    } else if kind == 2 {
        if !cur.has(28) {
            return Err(DecodeError::UnexpectedEof);
        }
        let translation = read_v3f(cur, ByteOrder::Little)?;
        let rotation = read_v4f(cur, ByteOrder::Little)?;
        Ok(Offset::Bone { index, translation, rotation })
    } else if kind <= 7 {
        let offsets = read_v4f(cur, ByteOrder::Little)?;
        Ok(Offset::Uv { index, offsets })
    } else if kind == 8 {
        material_offset(cur, index, Ghost(w))
    } else if kind == 9 {
        let weight = cur.read_f32(ByteOrder::Little)?;
        Ok(Offset::Flip { index, weight })
    } else {
        if !cur.has(25) {
            return Err(DecodeError::UnexpectedEof);
        }
        let is_local = cur.read_u8()?;
        let speed = read_v3f(cur, ByteOrder::Little)?;
        let torque = read_v3f(cur, ByteOrder::Little)?;
        Ok(Offset::Impulse { index, is_local: is_local != 0, speed, torque })
    }
}

/// What `count` offsets of the kind `kind` hold that follow each other
/// from `at` on.
pub open spec fn offsets_layout(
    data: Seq<u8>,
    at: int,
    count: nat,
    kind: u8,
    settings: Settings,
) -> Result<(Seq<Offset>, int), DecodeError>
    decreases count,
{
    if count == 0 {
        Ok((Seq::empty(), at))
    } else {
        match offsets_layout(data, at, (count - 1) as nat, kind, settings) {
            Err(e) => Err(e),
            Ok((items, mid)) => match offset_layout(data, mid, kind, settings) {
                Err(e) => Err(e),
                Ok((item, end)) => Ok((items.push(item), end)),
            },
        }
    }
}

/// Once an offset cannot be read, a longer run of offsets fails the same
/// way.
pub proof fn lemma_offsets_fail(
    data: Seq<u8>,
    at: int,
    k: nat,
    n: nat,
    kind: u8,
    settings: Settings,
)
    requires
        k <= n,
        offsets_layout(data, at, k, kind, settings).is_err(),
    ensures
        offsets_layout(data, at, n, kind, settings) == offsets_layout(data, at, k, kind, settings),
    decreases n,
{
    if k < n {
        lemma_offsets_fail(data, at, k, (n - 1) as nat, kind, settings);
    }
}

/// Reads `count` offsets of the kind `kind`.
pub fn offsets(cur: &mut Cursor, count: u32, kind: u8, settings: &Settings) -> (r: Result<
    Vec<Offset>,
    DecodeError,
>)
    ensures
        final(cur).buf == old(cur).buf,
        match r {
            Ok(items) => offsets_layout(
                old(cur).buf@,
                old(cur).pos as int,
                count as nat,
                kind,
                *settings,
            ) == Ok::<(Seq<Offset>, int), DecodeError>((items@, final(cur).pos as int)),
            Err(e) => offsets_layout(
                old(cur).buf@,
                old(cur).pos as int,
                count as nat,
                kind,
                *settings,
            ) == Err::<(Seq<Offset>, int), DecodeError>(e),
        },
{
    let ghost data = cur.buf@;
    let ghost at = cur.pos as int;
    let mut items: Vec<Offset> = Vec::new();
    let mut i: u32 = 0;
    while i < count
        invariant
            i <= count,
            data == old(cur).buf@,
            at == old(cur).pos,
            cur.buf == old(cur).buf,
            offsets_layout(data, at, i as nat, kind, *settings) == Ok::<
                (Seq<Offset>, int),
                DecodeError,
            >((items@, cur.pos as int)),
        decreases count - i,
    {
        let item = match offset(cur, kind, settings) {
            Ok(item) => item,
            Err(e) => {
                proof {
                    assert(offsets_layout(data, at, (i + 1) as nat, kind, *settings) == Err::<
                        (Seq<Offset>, int),
                        DecodeError,
                    >(e));
                    lemma_offsets_fail(data, at, (i + 1) as nat, count as nat, kind, *settings);
                }
                return Err(e);
            },
        };
        items.push(item);
        i = i + 1;
    }
    Ok(items)
}

/// A morph.
#[derive(Clone, Debug, PartialEq, Eq)]
pub struct Morph {
    pub name_local: Text,
    pub name_global: Text,
    pub category: Category,
    pub kind: MorphType,
    pub offsets: Vec<Offset>,
}

/// What a `Morph` stands for.
pub struct MorphView {
    pub name_local: TextView,
    pub name_global: TextView,
    pub category: Category,
    pub kind: MorphType,
    pub offsets: Seq<Offset>,
}

impl View for Morph {
    type V = MorphView;

    open spec fn view(&self) -> MorphView {
        MorphView {
            name_local: self.name_local@,
            name_global: self.name_global@,
            category: self.category,
            kind: self.kind,
            offsets: self.offsets@,
        }
    }
}

impl Wire for Morph {
    /// The two names; the category (0 to 4); the kind (0 to 10); the
    /// number of offsets and the offsets, all of that kind.
    open spec fn layout(data: Seq<u8>, at: int, settings: Settings) -> Result<
        (Self::V, int),
        DecodeError,
    > {
        let t1 = Trail::start(at).string(data);
        let t2 = t1.string(data);
        let t3 = t2.fixed(data, 1).within(data[t2.at] as u32, 0, 4);
        let t4 = t3.fixed(data, 1).within(data[t3.at] as u32, 0, 10);
        let t5 = t4.fixed(data, 4);
        let items = offsets_layout(
            data,
            t5.at,
            le_u32_at(data, t4.at) as nat,
            data[t3.at],
            settings,
        );
        t5.past(items).finish(
            MorphView {
                name_local: decoded(string_bytes_at(data, at), settings.encoding, at as u64),
                name_global: decoded(string_bytes_at(data, t1.at), settings.encoding, t1.at as u64),
                category: category_of(data[t2.at]),
                kind: morph_type_of(data[t3.at]),
                offsets: part(items),
            },
        )
    }

    fn read(cur: &mut Cursor, settings: &Settings) -> (r: Result<Self, DecodeError>) {
        let name_local = Text::read(cur, settings)?;
        let name_global = Text::read(cur, settings)?;
        let panel = cur.read_u8()?;
        if panel > 4 {
            return Err(
                DecodeError::UnsupportedVersion {
                    got: panel as u32,
                    supported_range: VersionRange { min: 0, max: 4 },
                },
            );
        }
        let kind = cur.read_u8()?;
        if kind > 10 {
            return Err(
                DecodeError::UnsupportedVersion {
                    got: kind as u32,
                    supported_range: VersionRange { min: 0, max: 10 },
                },
            );
        }
        let count = cur.read_u32(ByteOrder::Little)?;
        let offsets = offsets(cur, count, kind, settings)?;
        Ok(
            Morph {
                name_local,
                name_global,
                category: category(panel),
                kind: morph_type(kind),
                offsets,
            },
        )
    }
}

/// Reads a morph.
pub fn morph(cur: &mut Cursor, settings: &Settings) -> (r: Result<Morph, DecodeError>)
    ensures
        reads(
            *old(cur),
            *final(cur),
            r,
            Morph::layout(old(cur).buf@, old(cur).pos as int, *settings),
        ),
{
    Morph::read(cur, settings)
}

// ---------------------------------------------------------------------
// Display frames
// ---------------------------------------------------------------------

/// Whether a display frame is one of the two that every model has.
#[derive(Clone, Copy, Debug, PartialEq, Eq, Structural)]
pub enum FrameFlag {
    Normal,
    Special,
}

/// What an element of a display frame refers to.
#[derive(Clone, Copy, Debug, PartialEq, Eq, Structural)]
pub enum FrameType {
    Bone,
    Morph,
}

/// One element of a display frame: a bone or a morph.
#[derive(Clone, Copy, Debug, PartialEq, Eq, Structural)]
pub struct FrameElement {
    pub kind: FrameType,
    pub index: i32,
}

impl View for FrameElement {
    type V = FrameElement;

    open spec fn view(&self) -> FrameElement {
        *self
    }
}

impl Wire for FrameElement {
    /// The kind of element (0 for a bone, 1 for a morph) and an index of
    /// the width of that kind.
    open spec fn layout(data: Seq<u8>, at: int, settings: Settings) -> Result<
        (Self::V, int),
        DecodeError,
    > {
        let w = if data[at] == 0 {
            settings.bone_index_size
        } else {
            settings.morph_index_size
        };
        Trail::start(at).fixed(data, 1).within(data[at] as u32, 0, 1).index(data, w).finish(
            FrameElement {
                kind: if data[at] == 0 {
                    FrameType::Bone
                } else {
                    FrameType::Morph
                },
                index: index_at(data, at + 1, w, true),
            },
        )
    }

    fn read(cur: &mut Cursor, settings: &Settings) -> (r: Result<Self, DecodeError>) {
        let code = cur.read_u8()?;
        if code == 0 {
            let index = read_index(cur, settings.bone_index_size, true)?;
            Ok(FrameElement { kind: FrameType::Bone, index })
        } else if code == 1 {
            let index = read_index(cur, settings.morph_index_size, true)?;
            Ok(FrameElement { kind: FrameType::Morph, index })
        } else {
            Err(
                DecodeError::UnsupportedVersion {
                    got: code as u32,
                    supported_range: VersionRange { min: 0, max: 1 },
                },
            )
        }
    }
}

/// A display frame: a named group of bones and morphs.
#[derive(Clone, Debug, PartialEq, Eq)]
pub struct Frame {
    pub name_local: Text,
    pub name_global: Text,
    pub flag: FrameFlag,
    pub elements: Vec<FrameElement>,
}

/// What a `Frame` stands for.
pub struct FrameView {
    pub name_local: TextView,
    pub name_global: TextView,
    pub flag: FrameFlag,
    pub elements: Seq<FrameElement>,
}

impl View for Frame {
    type V = FrameView;

    open spec fn view(&self) -> FrameView {
        FrameView {
            name_local: self.name_local@,
            name_global: self.name_global@,
            flag: self.flag,
            elements: seq_views(self.elements@),
        }
    }
}

impl Wire for Frame {
    /// The two names; the flag (0 or 1); the number of elements and the
    /// elements.
    open spec fn layout(data: Seq<u8>, at: int, settings: Settings) -> Result<
        (Self::V, int),
        DecodeError,
    > {
        let t1 = Trail::start(at).string(data);
        let t2 = t1.string(data);
        let t3 = t2.fixed(data, 1).within(data[t2.at] as u32, 0, 1);
        let t4 = t3.fixed(data, 4);
        let items = layout_many::<FrameElement>(
            data,
            t4.at,
            le_u32_at(data, t3.at) as nat,
            settings,
        );
        t4.past(items).finish(
            FrameView {
                name_local: decoded(string_bytes_at(data, at), settings.encoding, at as u64),
                name_global: decoded(string_bytes_at(data, t1.at), settings.encoding, t1.at as u64),
                flag: if data[t2.at] == 0 {
                    FrameFlag::Normal
                } else {
                    FrameFlag::Special
                },
                elements: part(items),
            },
        )
    }

    fn read(cur: &mut Cursor, settings: &Settings) -> (r: Result<Self, DecodeError>) {
        let name_local = Text::read(cur, settings)?;
        let name_global = Text::read(cur, settings)?;
        let code = cur.read_u8()?;
        let flag = if code == 0 {
            FrameFlag::Normal
        } else if code == 1 {
            FrameFlag::Special
        } else {
            return Err(
                DecodeError::UnsupportedVersion {
                    got: code as u32,
                    supported_range: VersionRange { min: 0, max: 1 },
                },
            );
        };
        let count = cur.read_u32(ByteOrder::Little)?;
        let elements = read_many::<FrameElement>(cur, count, settings)?;
        Ok(Frame { name_local, name_global, flag, elements })
    }
}

/// Reads a display frame.
pub fn frame(cur: &mut Cursor, settings: &Settings) -> (r: Result<Frame, DecodeError>)
    ensures
        reads(
            *old(cur),
            *final(cur),
            r,
            Frame::layout(old(cur).buf@, old(cur).pos as int, *settings),
        ),
{
    Frame::read(cur, settings)
}

} // verus!
