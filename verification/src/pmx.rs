//! The polygon-model format whose files start with `PMX `.
//!
//! A file opens with a settings block that fixes, for the rest of the
//! file, the text encoding, the number of additional texture coordinates
//! per vertex, and the byte width of each kind of index. Everything after
//! it is decoded under those settings, which are handed from reader to
//! reader as a parameter. All numbers are little-endian.

use vstd::prelude::*;
use crate::bounds::{bounds32_at, read_bounds32, Bounds32};
use crate::color::{read_rgb_f, read_rgba_f, rgb_f_at, rgba_f_at, ColorF};
use crate::error::{DecodeError, VersionRange, Warning};
use crate::flags::{JointFlags, MaterialFlags};
use crate::index::{index_at, read_index, read_indices, valid_width};
use crate::pmx::morph::{Frame, FrameView, Morph, MorphView};
use crate::pmx::physics::{
    Joint, JointView, RigidBody, RigidBodyView, SoftBody, SoftBodyView,
};
use crate::primitives::{f32_at, le_u16_at, le_u32_at, signed32, ByteOrder, Cursor, Float32};
use crate::text::{decoded, read_string, string_bytes_at, Encoding, Text, TextView};
use crate::vector::{
    read_v2f, read_v3f, read_v4f, v2f_at, v3f_at, v4f_at, Vector2, Vector3, Vector4,
};
use crate::wire::{optional, part, reads, seq_views, Trail};

pub mod morph;
pub mod physics;

verus! {

/// What the settings block of a file fixes for the rest of the file.
#[derive(Clone, Copy, Debug, PartialEq, Eq, Structural)]
pub struct Settings {
    pub encoding: Encoding,
    pub uv: u8,
    pub vertex_index_size: u8,
    pub texture_index_size: u8,
    pub material_index_size: u8,
    pub bone_index_size: u8,
    pub morph_index_size: u8,
    pub rigid_body_index_size: u8,
}

impl View for Settings {
    type V = Settings;

    open spec fn view(&self) -> Settings {
        *self
    }
}

/// A record whose layout depends on the settings of the file.
pub trait Wire: Sized + View {
    /// What the bytes at `at` hold, and where the record ends; or the
    /// failure of the first field that cannot be read.
    spec fn layout(
        data: Seq<u8>,
        at: int,
        settings: Settings,
    ) -> Result<(Self::V, int), DecodeError>;

    /// Reads one record.
    fn read(cur: &mut Cursor, settings: &Settings) -> (r: Result<Self, DecodeError>)
        ensures
            reads(
                *old(cur),
                *final(cur),
                r,
                Self::layout(old(cur).buf@, old(cur).pos as int, *settings),
            ),
    ;
}

/// What `count` records hold that follow each other from `at` on; the
/// first record that cannot be read fails the run.
pub open spec fn layout_many<T: Wire>(
    data: Seq<u8>,
    at: int,
    count: nat,
    settings: Settings,
) -> Result<(Seq<T::V>, int), DecodeError>
    decreases count,
{
    if count == 0 {
        Ok((Seq::empty(), at))
    } else {
        match layout_many::<T>(data, at, (count - 1) as nat, settings) {
            Err(e) => Err(e),
            Ok((items, mid)) => match T::layout(data, mid, settings) {
                Err(e) => Err(e),
                Ok((item, end)) => Ok((items.push(item), end)),
            },
        }
    }
}

/// Once a record of a run cannot be read, a longer run fails the same way.
pub proof fn lemma_many_fails<T: Wire>(
    data: Seq<u8>,
    at: int,
    k: nat,
    n: nat,
    settings: Settings,
)
    requires
        k <= n,
        layout_many::<T>(data, at, k, settings).is_err(),
    ensures
        layout_many::<T>(data, at, n, settings) == layout_many::<T>(data, at, k, settings),
    decreases n,
{
    if k < n {
        lemma_many_fails::<T>(data, at, k, (n - 1) as nat, settings);
    }
}

/// Reads `count` records that follow each other.
pub fn read_many<T: Wire>(cur: &mut Cursor, count: u32, settings: &Settings) -> (r: Result<
    Vec<T>,
    DecodeError,
>)
    ensures
        final(cur).buf == old(cur).buf,
        match r {
            Ok(items) => layout_many::<T>(
                old(cur).buf@,
                old(cur).pos as int,
                count as nat,
                *settings,
            ) == Ok::<(Seq<T::V>, int), DecodeError>((seq_views(items@), final(cur).pos as int)),
            Err(e) => layout_many::<T>(old(cur).buf@, old(cur).pos as int, count as nat, *settings)
                == Err::<(Seq<T::V>, int), DecodeError>(e),
        },
{
    let ghost data = cur.buf@;
    let ghost at = cur.pos as int;
    let mut items: Vec<T> = Vec::new();
    let mut i: u32 = 0;
    assert(seq_views(items@) =~= Seq::<T::V>::empty());
    while i < count
        invariant
            i <= count,
            data == old(cur).buf@,
            at == old(cur).pos,
            cur.buf == old(cur).buf,
            items@.len() == i,
            layout_many::<T>(data, at, i as nat, *settings) == Ok::<(Seq<T::V>, int), DecodeError>(
                (seq_views(items@), cur.pos as int),
            ),
        decreases count - i,
    {
        let item = match T::read(cur, settings) {
            Ok(item) => item,
            Err(e) => {
                proof {
                    assert(layout_many::<T>(data, at, (i + 1) as nat, *settings) == Err::<
                        (Seq<T::V>, int),
                        DecodeError,
                    >(e));
                    lemma_many_fails::<T>(data, at, (i + 1) as nat, count as nat, *settings);
                }
                return Err(e);
            },
        };
        let ghost before = items@;
        items.push(item);
        assert(seq_views(items@) =~= seq_views(before).push(items@[i as int]@));
        i = i + 1;
    }
    Ok(items)
}

impl Wire for Text {
    /// A string: its byte count, then its bytes in the encoding of the
    /// file.
    open spec fn layout(data: Seq<u8>, at: int, settings: Settings) -> Result<
        (Self::V, int),
        DecodeError,
    > {
        Trail::start(at).string(data).finish(
            decoded(string_bytes_at(data, at), settings.encoding, at as u64),
        )
    }

    fn read(cur: &mut Cursor, settings: &Settings) -> (r: Result<Self, DecodeError>) {
        read_string(cur, settings.encoding)
    }
}

impl Wire for Vector4<Float32> {
    open spec fn layout(data: Seq<u8>, at: int, settings: Settings) -> Result<
        (Self::V, int),
        DecodeError,
    > {
        Trail::start(at).fixed(data, 16).finish(v4f_at(data, at, ByteOrder::Little))
    }

    fn read(cur: &mut Cursor, settings: &Settings) -> (r: Result<Self, DecodeError>) {
        read_v4f(cur, ByteOrder::Little)
    }
}

impl Wire for Bounds32 {
    /// The two corners of a box, without a radius.
    open spec fn layout(data: Seq<u8>, at: int, settings: Settings) -> Result<
        (Self::V, int),
        DecodeError,
    > {
        Trail::start(at).fixed(data, 24).finish(bounds32_at(data, at, ByteOrder::Little))
    }

    fn read(cur: &mut Cursor, settings: &Settings) -> (r: Result<Self, DecodeError>) {
        read_bounds32(cur, ByteOrder::Little)
    }
}

// ---------------------------------------------------------------------
// Settings and header
// ---------------------------------------------------------------------

/// The encoding that the byte `code` of a settings block names.
pub open spec fn encoding_of(code: u8) -> Encoding {
    if code == 0 {
        Encoding::Utf16Le
    } else {
        Encoding::Utf8
    }
}

/// What the settings block at `at` holds: the number of settings (at
/// least the eight that are known), the encoding (0 or 1), the number of
/// additional texture coordinates, the six index widths, and the settings
/// that are not known, which are stepped over.
pub open spec fn settings_layout(data: Seq<u8>, at: int) -> Result<(Settings, int), DecodeError> {
    let t1 = Trail::start(at).fixed(data, 1).within(data[at] as u32, 8, 255);
    let t2 = t1.fixed(data, 1).within(data[at + 1] as u32, 0, 1);
    let t3 = t2.fixed(data, 7);
    let t4 = t3.fixed(data, (data[at] - 8) as nat);
    t4.finish(
        Settings {
            encoding: encoding_of(data[at + 1]),
            uv: data[at + 2],
            vertex_index_size: data[at + 3],
            texture_index_size: data[at + 4],
            material_index_size: data[at + 5],
            bone_index_size: data[at + 6],
            morph_index_size: data[at + 7],
            rigid_body_index_size: data[at + 8],
        },
    )
}

/// Reads the settings block of a file.
pub fn settings(cur: &mut Cursor) -> (r: Result<Settings, DecodeError>)
    ensures
        reads(*old(cur), *final(cur), r, settings_layout(old(cur).buf@, old(cur).pos as int)),
{
    let count = cur.read_u8()?;
    if count < 8 {
        return Err(
            DecodeError::UnsupportedVersion {
                got: count as u32,
                supported_range: VersionRange { min: 8, max: 255 },
            },
        );
    }
    let code = cur.read_u8()?;
    if code > 1 {
        return Err(
            DecodeError::UnsupportedVersion {
                got: code as u32,
                supported_range: VersionRange { min: 0, max: 1 },
            },
        );
    }
    let encoding = if code == 0 {
        Encoding::Utf16Le
    } else {
        Encoding::Utf8
    };
    if !cur.has(7) {
        return Err(DecodeError::UnexpectedEof);
    }
    let uv = cur.read_u8()?;
    let vertex_index_size = cur.read_u8()?;
    let texture_index_size = cur.read_u8()?;
    let material_index_size = cur.read_u8()?;
    let bone_index_size = cur.read_u8()?;
    let morph_index_size = cur.read_u8()?;
    let rigid_body_index_size = cur.read_u8()?;
    cur.skip((count - 8) as usize)?;
    Ok(
        Settings {
            encoding,
            uv,
            vertex_index_size,
            texture_index_size,
            material_index_size,
            bone_index_size,
            morph_index_size,
            rigid_body_index_size,
        },
    )
}

/// What a file starts with.
#[derive(Clone, Debug, PartialEq, Eq)]
pub struct Header {
    pub version: Float32,
    pub settings: Settings,
    pub name_local: Text,
    pub name_global: Text,
    pub comment_local: Text,
    pub comment_global: Text,
}

/// What a `Header` stands for.
pub struct HeaderView {
    pub version: Float32,
    pub settings: Settings,
    pub name_local: TextView,
    pub name_global: TextView,
    pub comment_local: TextView,
    pub comment_global: TextView,
}

impl View for Header {
    type V = HeaderView;

    open spec fn view(&self) -> HeaderView {
        HeaderView {
            version: self.version,
            settings: self.settings,
            name_local: self.name_local@,
            name_global: self.name_global@,
            comment_local: self.comment_local@,
            comment_global: self.comment_global@,
        }
    }
}

/// The magic tag of the format: `PMX ` with its trailing space.
pub open spec fn magic() -> Seq<u8> {
    seq![0x50u8, 0x4D, 0x58, 0x20]
}

/// Whether the four bytes at `at` are the magic tag.
pub open spec fn has_magic(data: Seq<u8>, at: int) -> bool {
    0 <= at && at + 4 <= data.len() && data.subrange(at, at + 4) == magic()
}

/// What the header at `at` holds: the magic tag (`BadMagic` without it),
/// the version, the settings, and the four strings of name and comment,
/// each in the local and in the global language.
pub open spec fn header_layout(data: Seq<u8>, at: int) -> Result<(HeaderView, int), DecodeError> {
    if !has_magic(data, at) {
        Err(DecodeError::BadMagic)
    } else {
        let t1 = Trail::start(at + 4).fixed(data, 4);
        let block = settings_layout(data, t1.at);
        let settings = part(block);
        let t2 = t1.past(block);
        let t3 = t2.string(data);
        let t4 = t3.string(data);
        let t5 = t4.string(data);
        let t6 = t5.string(data);
        t6.finish(
            HeaderView {
                version: f32_at(data, at + 4, ByteOrder::Little),
                settings,
                name_local: decoded(string_bytes_at(data, t2.at), settings.encoding, t2.at as u64),
                name_global: decoded(string_bytes_at(data, t3.at), settings.encoding, t3.at as u64),
                comment_local: decoded(
                    string_bytes_at(data, t4.at),
                    settings.encoding,
                    t4.at as u64,
                ),
                comment_global: decoded(
                    string_bytes_at(data, t5.at),
                    settings.encoding,
                    t5.at as u64,
                ),
            },
        )
    }
}

/// Reads the header of a file.
pub fn header(cur: &mut Cursor) -> (r: Result<Header, DecodeError>)
    ensures
        reads(*old(cur), *final(cur), r, header_layout(old(cur).buf@, old(cur).pos as int)),
{
    let tag: [u8; 4] = [0x50, 0x4D, 0x58, 0x20];
    assert(tag@ =~= magic());
    cur.expect_tag(tag.as_slice())?;
    let version = cur.read_f32(ByteOrder::Little)?;
    let settings = settings(cur)?;
    let name_local = Text::read(cur, &settings)?;
    let name_global = Text::read(cur, &settings)?;
    let comment_local = Text::read(cur, &settings)?;
    let comment_global = Text::read(cur, &settings)?;
    Ok(Header { version, settings, name_local, name_global, comment_local, comment_global })
}

// ---------------------------------------------------------------------
// Vertices
// ---------------------------------------------------------------------

/// How a vertex is bound to bones. Bone indices are signed; -1 stands for
/// no bone.
#[derive(Clone, Copy, Debug, PartialEq, Eq)]
#[allow(inconsistent_fields)]
pub enum Skinning {
    BDef1 { index: i32 },
    BDef2 { indices: [i32; 2], weight: Float32 },
    BDef4 { indices: [i32; 4], weights: [Float32; 4] },
    SDef { indices: [i32; 2], weight: Float32, c: Vector3<Float32>, r: [Vector3<Float32>; 2] },
    QDef { indices: [i32; 4], weights: [Float32; 4] },
}

impl View for Skinning {
    type V = Skinning;

    open spec fn view(&self) -> Skinning {
        *self
    }
}

/// One bone index.
pub open spec fn bdef1_layout(
    data: Seq<u8>,
    at: int,
    w: u8,
) -> Result<(Skinning, int), DecodeError> {
    Trail::start(at).index(data, w).finish(Skinning::BDef1 { index: index_at(data, at, w, true) })
}

/// Two bone indices and the weight of the first.
pub open spec fn bdef2_layout(
    data: Seq<u8>,
    at: int,
    w: u8,
) -> Result<(Skinning, int), DecodeError> {
    Trail::start(at).index(data, w).index(data, w).fixed(data, 4).finish(
        Skinning::BDef2 {
            indices: [index_at(data, at, w, true), index_at(data, at + w, w, true)],
            weight: f32_at(data, at + 2 * w, ByteOrder::Little),
        },
    )
}

/// The four bone indices found at `at`.
pub open spec fn four_indices_at(data: Seq<u8>, at: int, w: u8) -> [i32; 4] {
    [
        index_at(data, at, w, true),
        index_at(data, at + w, w, true),
        index_at(data, at + 2 * w, w, true),
        index_at(data, at + 3 * w, w, true),
    ]
}

/// The four weights found at `at`.
pub open spec fn four_weights_at(data: Seq<u8>, at: int) -> [Float32; 4] {
    [
        f32_at(data, at, ByteOrder::Little),
        f32_at(data, at + 4, ByteOrder::Little),
        f32_at(data, at + 8, ByteOrder::Little),
        f32_at(data, at + 12, ByteOrder::Little),
    ]
}

/// Four bone indices and their four weights.
pub open spec fn bdef4_layout(
    data: Seq<u8>,
    at: int,
    w: u8,
) -> Result<(Skinning, int), DecodeError> {
    Trail::start(at).index(data, w).index(data, w).index(data, w).index(data, w).fixed(
        data,
        16,
    ).finish(
        Skinning::BDef4 {
            indices: four_indices_at(data, at, w),
            weights: four_weights_at(data, at + 4 * w),
        },
    )
}

/// Two bone indices, the weight of the first, and the three vectors of
/// spherical deformation.
pub open spec fn sdef_layout(
    data: Seq<u8>,
    at: int,
    w: u8,
) -> Result<(Skinning, int), DecodeError> {
    Trail::start(at).index(data, w).index(data, w).fixed(data, 4).fixed(data, 12).fixed(
        data,
        24,
    ).finish(
        Skinning::SDef {
            indices: [index_at(data, at, w, true), index_at(data, at + w, w, true)],
            weight: f32_at(data, at + 2 * w, ByteOrder::Little),
            c: v3f_at(data, at + 2 * w + 4, ByteOrder::Little),
            r: [
                v3f_at(data, at + 2 * w + 16, ByteOrder::Little),
                v3f_at(data, at + 2 * w + 28, ByteOrder::Little),
            ],
        },
    )
}

/// Four bone indices and their four weights, blended as dual quaternions.
pub open spec fn qdef_layout(
    data: Seq<u8>,
    at: int,
    w: u8,
) -> Result<(Skinning, int), DecodeError> {
    Trail::start(at).index(data, w).index(data, w).index(data, w).index(data, w).fixed(
        data,
        16,
    ).finish(
        Skinning::QDef {
            indices: four_indices_at(data, at, w),
            weights: four_weights_at(data, at + 4 * w),
        },
    )
}

/// Reads a binding to one bone.
pub fn bdef1(cur: &mut Cursor, index_size: u8) -> (r: Result<Skinning, DecodeError>)
    ensures
        reads(
            *old(cur),
            *final(cur),
            r,
            bdef1_layout(old(cur).buf@, old(cur).pos as int, index_size),
        ),
{
    let index = read_index(cur, index_size, true)?;
    Ok(Skinning::BDef1 { index })
}

/// Reads a binding to two bones.
pub fn bdef2(cur: &mut Cursor, index_size: u8) -> (r: Result<Skinning, DecodeError>)
    ensures
        reads(
            *old(cur),
            *final(cur),
            r,
            bdef2_layout(old(cur).buf@, old(cur).pos as int, index_size),
        ),
{
    let a = read_index(cur, index_size, true)?;
    let b = read_index(cur, index_size, true)?;
    let weight = cur.read_f32(ByteOrder::Little)?;
    Ok(Skinning::BDef2 { indices: [a, b], weight })
}

/// Reads four bone indices.
fn four_indices(cur: &mut Cursor, index_size: u8) -> (r: Result<[i32; 4], DecodeError>)
    ensures
        final(cur).buf == old(cur).buf,
        match r {
            Ok(v) => {
                &&& valid_width(index_size)
                &&& old(cur).can_read(4 * index_size as nat)
                &&& v == four_indices_at(old(cur).buf@, old(cur).pos as int, index_size)
                &&& final(cur).pos == old(cur).pos + 4 * index_size
            },
            Err(e) => if !valid_width(index_size) {
                e == DecodeError::InvalidWidth
            } else {
                e == DecodeError::UnexpectedEof && !old(cur).can_read(4 * index_size as nat)
            },
        },
{
    let a = read_index(cur, index_size, true)?;
    let b = read_index(cur, index_size, true)?;
    let c = read_index(cur, index_size, true)?;
    let d = read_index(cur, index_size, true)?;
    Ok([a, b, c, d])
}

/// Reads four weights.
fn four_weights(cur: &mut Cursor) -> (r: Result<[Float32; 4], DecodeError>)
    ensures
        crate::primitives::fixed_read(
            *old(cur),
            *final(cur),
            r,
            16,
            four_weights_at(old(cur).buf@, old(cur).pos as int),
        ),
{
    if !cur.has(16) {
        return Err(DecodeError::UnexpectedEof);
    }
    let a = cur.read_f32(ByteOrder::Little)?;
    let b = cur.read_f32(ByteOrder::Little)?;
    let c = cur.read_f32(ByteOrder::Little)?;
    let d = cur.read_f32(ByteOrder::Little)?;
    Ok([a, b, c, d])
}

/// Reads a binding to four bones.
pub fn bdef4(cur: &mut Cursor, index_size: u8) -> (r: Result<Skinning, DecodeError>)
    ensures
        reads(
            *old(cur),
            *final(cur),
            r,
            bdef4_layout(old(cur).buf@, old(cur).pos as int, index_size),
        ),
{
    let indices = four_indices(cur, index_size)?;
    let weights = four_weights(cur)?;
    Ok(Skinning::BDef4 { indices, weights })
}

/// Reads a binding to two bones with spherical deformation.
pub fn sdef(cur: &mut Cursor, index_size: u8) -> (r: Result<Skinning, DecodeError>)
    ensures
        reads(
            *old(cur),
            *final(cur),
            r,
            sdef_layout(old(cur).buf@, old(cur).pos as int, index_size),
        ),
{
    let a = read_index(cur, index_size, true)?;
    let b = read_index(cur, index_size, true)?;
    let weight = cur.read_f32(ByteOrder::Little)?;
    let c = read_v3f(cur, ByteOrder::Little)?;
    if !cur.has(24) {
        return Err(DecodeError::UnexpectedEof);
    }
    let r0 = read_v3f(cur, ByteOrder::Little)?;
    let r1 = read_v3f(cur, ByteOrder::Little)?;
    Ok(Skinning::SDef { indices: [a, b], weight, c, r: [r0, r1] })
}

/// Reads a binding to four bones that is blended as dual quaternions.
pub fn qdef(cur: &mut Cursor, index_size: u8) -> (r: Result<Skinning, DecodeError>)
    ensures
        reads(
            *old(cur),
            *final(cur),
            r,
            qdef_layout(old(cur).buf@, old(cur).pos as int, index_size),
        ),
{
    let indices = four_indices(cur, index_size)?;
    let weights = four_weights(cur)?;
    Ok(Skinning::QDef { indices, weights })
}

/// The binding that follows the kind byte `kind`.
pub open spec fn binding_layout(data: Seq<u8>, at: int, kind: u8, w: u8) -> Result<
    (Skinning, int),
    DecodeError,
> {
    if kind == 0 {
        bdef1_layout(data, at, w)
    } else if kind == 1 {
        bdef2_layout(data, at, w)
    } else if kind == 2 {
        bdef4_layout(data, at, w)
    } else if kind == 3 {
        sdef_layout(data, at, w)
    } else {
        qdef_layout(data, at, w)
    }
}

/// The kind of binding, a byte from 0 to 4, and the binding of that kind.
pub open spec fn skinning_layout(
    data: Seq<u8>,
    at: int,
    w: u8,
) -> Result<(Skinning, int), DecodeError> {
    let t1 = Trail::start(at).fixed(data, 1).within(data[at] as u32, 0, 4);
    let body = binding_layout(data, at + 1, data[at], w);
    t1.past(body).finish(part(body))
}

/// Reads the binding of a vertex to its bones.
pub fn skinning(cur: &mut Cursor, index_size: u8) -> (r: Result<Skinning, DecodeError>)
    ensures
        reads(
            *old(cur),
            *final(cur),
            r,
            skinning_layout(old(cur).buf@, old(cur).pos as int, index_size),
        ),
{
    let kind = cur.read_u8()?;
    if kind == 0 {
        bdef1(cur, index_size)
    } else if kind == 1 {
        bdef2(cur, index_size)
    } else if kind == 2 {
        bdef4(cur, index_size)
    } else if kind == 3 {
        sdef(cur, index_size)
    } else if kind == 4 {
        qdef(cur, index_size)
    } else {
        Err(
            DecodeError::UnsupportedVersion {
                got: kind as u32,
                supported_range: VersionRange { min: 0, max: 4 },
            },
        )
    }
}

/// A vertex.
#[derive(Clone, Debug, PartialEq, Eq)]
pub struct Vertex {
    pub position: Vector3<Float32>,
    pub normal: Vector3<Float32>,
    pub uv: Vector2<Float32>,
    pub uva: Vec<Vector4<Float32>>,
    pub skinning: Skinning,
    pub edge: Float32,
}

/// What a `Vertex` stands for.
pub struct VertexView {
    pub position: Vector3<Float32>,
    pub normal: Vector3<Float32>,
    pub uv: Vector2<Float32>,
    pub uva: Seq<Vector4<Float32>>,
    pub skinning: Skinning,
    pub edge: Float32,
}

impl View for Vertex {
    type V = VertexView;

    open spec fn view(&self) -> VertexView {
        VertexView {
            position: self.position,
            normal: self.normal,
            uv: self.uv,
            uva: seq_views(self.uva@),
            skinning: self.skinning,
            edge: self.edge,
        }
    }
}

impl Wire for Vertex {
    /// Position, normal and texture coordinate; as many additional
    /// texture coordinates as the settings say; the binding to bones; the
    /// scale of the outline.
    open spec fn layout(data: Seq<u8>, at: int, settings: Settings) -> Result<
        (Self::V, int),
        DecodeError,
    > {
        let t1 = Trail::start(at).fixed(data, 32);
        let uva = layout_many::<Vector4<Float32>>(data, t1.at, settings.uv as nat, settings);
        let t2 = t1.past(uva);
        let binding = skinning_layout(data, t2.at, settings.bone_index_size);
        let t3 = t2.past(binding);
        let t4 = t3.fixed(data, 4);
        t4.finish(
            VertexView {
                position: v3f_at(data, at, ByteOrder::Little),
                normal: v3f_at(data, at + 12, ByteOrder::Little),
                uv: v2f_at(data, at + 24, ByteOrder::Little),
                uva: part(uva),
                skinning: part(binding),
                edge: f32_at(data, t3.at, ByteOrder::Little),
            },
        )
    }

    fn read(cur: &mut Cursor, settings: &Settings) -> (r: Result<Self, DecodeError>) {
        if !cur.has(32) {
            return Err(DecodeError::UnexpectedEof);
        }
        let position = read_v3f(cur, ByteOrder::Little)?;
        let normal = read_v3f(cur, ByteOrder::Little)?;
        let uv = read_v2f(cur, ByteOrder::Little)?;
        let uva = read_many::<Vector4<Float32>>(cur, settings.uv as u32, settings)?;
        let skinning = skinning(cur, settings.bone_index_size)?;
        let edge = cur.read_f32(ByteOrder::Little)?;
        Ok(Vertex { position, normal, uv, uva, skinning, edge })
    }
}

/// Reads a vertex.
pub fn vertex(cur: &mut Cursor, settings: &Settings) -> (r: Result<Vertex, DecodeError>)
    ensures
        reads(
            *old(cur),
            *final(cur),
            r,
            Vertex::layout(old(cur).buf@, old(cur).pos as int, *settings),
        ),
{
    Vertex::read(cur, settings)
}

// ---------------------------------------------------------------------
// Materials
// ---------------------------------------------------------------------

/// How the environment texture of a material is blended.
#[derive(Clone, Copy, Debug, PartialEq, Eq, Structural)]
pub enum BlendMode {
    Disabled,
    Multiply,
    Additive,
    AdditionalVec4,
}

/// Where the toon shading of a material comes from.
#[derive(Clone, Copy, Debug, PartialEq, Eq, Structural)]
pub enum ToonReference {
    Texture,
    Internal,
}

/// The blend mode that the byte `code` names.
pub open spec fn blend_mode_of(code: u8) -> BlendMode {
    if code == 0 {
        BlendMode::Disabled
    } else if code == 1 {
        BlendMode::Multiply
    } else if code == 2 {
        BlendMode::Additive
    } else {
        BlendMode::AdditionalVec4
    }
}

/// The toon reference that the byte `code` names.
pub open spec fn toon_reference_of(code: u8) -> ToonReference {
    if code == 0 {
        ToonReference::Texture
    } else {
        ToonReference::Internal
    }
}

/// A material.
#[derive(Clone, Debug, PartialEq, Eq)]
pub struct Material {
    pub name_local: Text,
    pub name_global: Text,
    pub diffuse: ColorF,
    pub specular: ColorF,
    pub specularity: Float32,
    pub ambient: ColorF,
    pub flags: MaterialFlags,
    pub edge_color: ColorF,
    pub edge_scale: Float32,
    pub texture: i32,
    pub environment: i32,
    pub environment_blend_mode: BlendMode,
    pub toon_reference: ToonReference,
    pub toon: i32,
    pub comment: Text,
    pub surface_count: u32,
}

/// What a `Material` stands for.
pub struct MaterialView {
    pub name_local: TextView,
    pub name_global: TextView,
    pub diffuse: ColorF,
    pub specular: ColorF,
    pub specularity: Float32,
    pub ambient: ColorF,
    pub flags: MaterialFlags,
    pub edge_color: ColorF,
    pub edge_scale: Float32,
    pub texture: i32,
    pub environment: i32,
    pub environment_blend_mode: BlendMode,
    pub toon_reference: ToonReference,
    pub toon: i32,
    pub comment: TextView,
    pub surface_count: u32,
}

impl View for Material {
    type V = MaterialView;

    open spec fn view(&self) -> MaterialView {
        MaterialView {
            name_local: self.name_local@,
            name_global: self.name_global@,
            diffuse: self.diffuse,
            specular: self.specular,
            specularity: self.specularity,
            ambient: self.ambient,
            flags: self.flags,
            edge_color: self.edge_color,
            edge_scale: self.edge_scale,
            texture: self.texture,
            environment: self.environment,
            environment_blend_mode: self.environment_blend_mode,
            toon_reference: self.toon_reference,
            toon: self.toon,
            comment: self.comment@,
            surface_count: self.surface_count,
        }
    }
}

impl Wire for Material {
    /// The two names; 65 bytes of colors, flags and outline; the indices
    /// of texture and environment texture; the blend mode (0 to 3); the
    /// toon reference (0 or 1) and the toon value, one byte where the
    /// reference is 0 and a texture index where it is 1; the comment; the
    /// number of surfaces.
    open spec fn layout(data: Seq<u8>, at: int, settings: Settings) -> Result<
        (Self::V, int),
        DecodeError,
    > {
        let w = settings.texture_index_size;
        let t1 = Trail::start(at).string(data);
        let t2 = t1.string(data);
        let t3 = t2.fixed(data, 65);
        let t4 = t3.index(data, w);
        let t5 = t4.index(data, w);
        let t6 = t5.fixed(data, 1).within(data[t5.at] as u32, 0, 3);
        let t7 = t6.fixed(data, 1).within(data[t6.at] as u32, 0, 1);
        let t8 = if data[t6.at] == 0 {
            t7.fixed(data, 1)
        } else {
            t7.index(data, w)
        };
        let t9 = t8.string(data);
        let t10 = t9.fixed(data, 4);
        t10.finish(
            MaterialView {
                name_local: decoded(string_bytes_at(data, at), settings.encoding, at as u64),
                name_global: decoded(string_bytes_at(data, t1.at), settings.encoding, t1.at as u64),
                diffuse: rgba_f_at(data, t2.at, ByteOrder::Little),
                specular: rgb_f_at(data, t2.at + 16, ByteOrder::Little),
                specularity: f32_at(data, t2.at + 28, ByteOrder::Little),
                ambient: rgb_f_at(data, t2.at + 32, ByteOrder::Little),
                flags: MaterialFlags { bits: data[t2.at + 44] },
                edge_color: rgba_f_at(data, t2.at + 45, ByteOrder::Little),
                edge_scale: f32_at(data, t2.at + 61, ByteOrder::Little),
                texture: index_at(data, t3.at, w, true),
                environment: index_at(data, t4.at, w, true),
                environment_blend_mode: blend_mode_of(data[t5.at]),
                toon_reference: toon_reference_of(data[t6.at]),
                toon: if data[t6.at] == 0 {
                    data[t7.at] as i32
                } else {
                    index_at(data, t7.at, w, true)
                },
                comment: decoded(string_bytes_at(data, t8.at), settings.encoding, t8.at as u64),
                surface_count: le_u32_at(data, t9.at),
            },
        )
    }

    #[verifier::spinoff_prover]
    #[verifier::rlimit(100)]
    fn read(cur: &mut Cursor, settings: &Settings) -> (r: Result<Self, DecodeError>) {
        let w = settings.texture_index_size;
        let name_local = Text::read(cur, settings)?;
        let name_global = Text::read(cur, settings)?;
        if !cur.has(65) {
            return Err(DecodeError::UnexpectedEof);
        }
        let diffuse = read_rgba_f(cur, ByteOrder::Little)?;
        let specular = read_rgb_f(cur, ByteOrder::Little)?;
        let specularity = cur.read_f32(ByteOrder::Little)?;
        let ambient = read_rgb_f(cur, ByteOrder::Little)?;
        let flags = MaterialFlags::from_bits_retain(cur.read_u8()?);
        let edge_color = read_rgba_f(cur, ByteOrder::Little)?;
        let edge_scale = cur.read_f32(ByteOrder::Little)?;
        let texture = read_index(cur, w, true)?;
        let environment = read_index(cur, w, true)?;
        let blend = cur.read_u8()?;
        let environment_blend_mode = if blend == 0 {
            BlendMode::Disabled
        } else if blend == 1 {
            BlendMode::Multiply
        } else if blend == 2 {
            BlendMode::Additive
        } else if blend == 3 {
            BlendMode::AdditionalVec4
        } else {
            return Err(
                DecodeError::UnsupportedVersion {
                    got: blend as u32,
                    supported_range: VersionRange { min: 0, max: 3 },
                },
            );
        };
        let reference = cur.read_u8()?;
        let toon_reference = if reference == 0 {
            ToonReference::Texture
        } else if reference == 1 {
            ToonReference::Internal
        } else {
            return Err(
                DecodeError::UnsupportedVersion {
                    got: reference as u32,
                    supported_range: VersionRange { min: 0, max: 1 },
                },
            );
        };
        let toon = if reference == 0 {
            cur.read_u8()? as i32
        } else {
            read_index(cur, w, true)?
        };
        let comment = Text::read(cur, settings)?;
        let surface_count = cur.read_u32(ByteOrder::Little)?;
        Ok(
            Material {
                name_local,
                name_global,
                diffuse,
                specular,
                specularity,
                ambient,
                flags,
                edge_color,
                edge_scale,
                texture,
                environment,
                environment_blend_mode,
                toon_reference,
                toon,
                comment,
                surface_count,
            },
        )
    }
}

/// Reads a material.
pub fn material(cur: &mut Cursor, settings: &Settings) -> (r: Result<Material, DecodeError>)
    ensures
        reads(
            *old(cur),
            *final(cur),
            r,
            Material::layout(old(cur).buf@, old(cur).pos as int, *settings),
        ),
{
    Material::read(cur, settings)
}

// ---------------------------------------------------------------------
// Bones
// ---------------------------------------------------------------------

/// Where the tail of a bone lies: at a point relative to the bone, or at
/// another bone.
#[derive(Clone, Copy, Debug, PartialEq, Eq)]
pub enum TailPosition {
    Vector3(Vector3<Float32>),
    Index(i32),
}

/// The bone from which rotation or translation is inherited, and how
/// strongly.
#[derive(Clone, Copy, Debug, PartialEq, Eq)]
pub struct InheritBone {
    pub index: i32,
    pub weight: Float32,
}

/// The local coordinate frame of a bone.
#[derive(Clone, Copy, Debug, PartialEq, Eq)]
pub struct LocalCoordinate {
    pub x: Vector3<Float32>,
    pub z: Vector3<Float32>,
}

/// One link of an inverse-kinematics chain.
#[derive(Clone, Debug, PartialEq, Eq)]
pub struct Link {
    pub bone_index: i32,
    pub has_limits: bool,
    pub limits: Vec<Bounds32>,
}

/// What a `Link` stands for.
pub struct LinkView {
    pub bone_index: i32,
    pub has_limits: bool,
    pub limits: Seq<Bounds32>,
}

impl View for Link {
    type V = LinkView;

    open spec fn view(&self) -> LinkView {
        LinkView {
            bone_index: self.bone_index,
            has_limits: self.has_limits,
            limits: seq_views(self.limits@),
        }
    }
}

/// An inverse-kinematics chain.
#[derive(Clone, Debug, PartialEq, Eq)]
pub struct InverseKinematic {
    pub target: i32,
    pub loop_count: u32,
    pub angle_limit: Float32,
    pub links: Vec<Link>,
}

/// What an `InverseKinematic` stands for.
pub struct InverseKinematicView {
    pub target: i32,
    pub loop_count: u32,
    pub angle_limit: Float32,
    pub links: Seq<LinkView>,
}

impl View for InverseKinematic {
    type V = InverseKinematicView;

    open spec fn view(&self) -> InverseKinematicView {
        InverseKinematicView {
            target: self.target,
            loop_count: self.loop_count,
            angle_limit: self.angle_limit,
            links: seq_views(self.links@),
        }
    }
}

/// A tail that is a point: three numbers.
pub open spec fn tail_position_layout(data: Seq<u8>, at: int) -> Result<
    (TailPosition, int),
    DecodeError,
> {
    Trail::start(at).fixed(data, 12).finish(
        TailPosition::Vector3(v3f_at(data, at, ByteOrder::Little)),
    )
}

/// A tail that is a bone: one bone index.
pub open spec fn tail_position_indexed_layout(data: Seq<u8>, at: int, w: u8) -> Result<
    (TailPosition, int),
    DecodeError,
> {
    Trail::start(at).index(data, w).finish(TailPosition::Index(index_at(data, at, w, true)))
}

/// A bone index and a weight.
pub open spec fn inherit_bone_layout(data: Seq<u8>, at: int, w: u8) -> Result<
    (InheritBone, int),
    DecodeError,
> {
    Trail::start(at).index(data, w).fixed(data, 4).finish(
        InheritBone {
            index: index_at(data, at, w, true),
            weight: f32_at(data, at + w, ByteOrder::Little),
        },
    )
}

/// Two vectors: the x axis and the z axis.
pub open spec fn local_coordinate_layout(data: Seq<u8>, at: int) -> Result<
    (LocalCoordinate, int),
    DecodeError,
> {
    Trail::start(at).fixed(data, 24).finish(
        LocalCoordinate {
            x: v3f_at(data, at, ByteOrder::Little),
            z: v3f_at(data, at + 12, ByteOrder::Little),
        },
    )
}

impl View for TailPosition {
    type V = TailPosition;

    open spec fn view(&self) -> TailPosition {
        *self
    }
}

impl View for InheritBone {
    type V = InheritBone;

    open spec fn view(&self) -> InheritBone {
        *self
    }
}

impl View for LocalCoordinate {
    type V = LocalCoordinate;

    open spec fn view(&self) -> LocalCoordinate {
        *self
    }
}

/// Reads a tail that is a point.
pub fn tail_position(cur: &mut Cursor) -> (r: Result<TailPosition, DecodeError>)
    ensures
        reads(*old(cur), *final(cur), r, tail_position_layout(old(cur).buf@, old(cur).pos as int)),
{
    let v3 = read_v3f(cur, ByteOrder::Little)?;
    Ok(TailPosition::Vector3(v3))
}

/// Reads a tail that is a bone.
pub fn tail_position_indexed(cur: &mut Cursor, index_size: u8) -> (r: Result<
    TailPosition,
    DecodeError,
>)
    ensures
        reads(
            *old(cur),
            *final(cur),
            r,
            tail_position_indexed_layout(old(cur).buf@, old(cur).pos as int, index_size),
        ),
{
    let index = read_index(cur, index_size, true)?;
    Ok(TailPosition::Index(index))
}

/// Reads the bone from which a bone inherits.
pub fn inherit_bone(cur: &mut Cursor, index_size: u8) -> (r: Result<InheritBone, DecodeError>)
    ensures
        reads(
            *old(cur),
            *final(cur),
            r,
            inherit_bone_layout(old(cur).buf@, old(cur).pos as int, index_size),
        ),
{
    let index = read_index(cur, index_size, true)?;
    let weight = cur.read_f32(ByteOrder::Little)?;
    Ok(InheritBone { index, weight })
}

/// Reads the local coordinate frame of a bone.
pub fn local_coordinate(cur: &mut Cursor) -> (r: Result<LocalCoordinate, DecodeError>)
    ensures
        reads(
            *old(cur),
            *final(cur),
            r,
            local_coordinate_layout(old(cur).buf@, old(cur).pos as int),
        ),
{
    if !cur.has(24) {
        return Err(DecodeError::UnexpectedEof);
    }
    let x = read_v3f(cur, ByteOrder::Little)?;
    let z = read_v3f(cur, ByteOrder::Little)?;
    Ok(LocalCoordinate { x, z })
}

impl Wire for Link {
    /// The index of the linked bone; a byte that says whether the link
    /// has limits; the number of limits and the limits themselves, each
    /// the two corners of a box.
    open spec fn layout(data: Seq<u8>, at: int, settings: Settings) -> Result<
        (Self::V, int),
        DecodeError,
    > {
        let w = settings.bone_index_size;
        let t1 = Trail::start(at).index(data, w);
        let t2 = t1.fixed(data, 1);
        let t3 = t2.fixed(data, 4);
        let limits = layout_many::<Bounds32>(data, t3.at, le_u32_at(data, t2.at) as nat, settings);
        t3.past(limits).finish(
            LinkView {
                bone_index: index_at(data, at, w, true),
                has_limits: data[t1.at] != 0,
                limits: part(limits),
            },
        )
    }

    fn read(cur: &mut Cursor, settings: &Settings) -> (r: Result<Self, DecodeError>) {
        let bone_index = read_index(cur, settings.bone_index_size, true)?;
        let has_limits = cur.read_u8()?;
        let limit_count = cur.read_u32(ByteOrder::Little)?;
        let limits = read_many::<Bounds32>(cur, limit_count, settings)?;
        Ok(Link { bone_index, has_limits: has_limits != 0, limits })
    }
}

/// Reads one link of an inverse-kinematics chain.
pub fn link(cur: &mut Cursor, settings: &Settings) -> (r: Result<Link, DecodeError>)
    ensures
        reads(
            *old(cur),
            *final(cur),
            r,
            Link::layout(old(cur).buf@, old(cur).pos as int, *settings),
        ),
{
    Link::read(cur, settings)
}

/// The index of the target bone; the number of iterations; the angle
/// limit; the number of links and the links themselves.
pub open spec fn ik_layout(data: Seq<u8>, at: int, settings: Settings) -> Result<
    (InverseKinematicView, int),
    DecodeError,
> {
    let w = settings.bone_index_size;
    let t1 = Trail::start(at).index(data, w);
    let t2 = t1.fixed(data, 4);
    let t3 = t2.fixed(data, 4);
    let t4 = t3.fixed(data, 4);
    let links = layout_many::<Link>(data, t4.at, le_u32_at(data, t3.at) as nat, settings);
    t4.past(links).finish(
        InverseKinematicView {
            target: index_at(data, at, w, true),
            loop_count: le_u32_at(data, t1.at),
            angle_limit: f32_at(data, t2.at, ByteOrder::Little),
            links: part(links),
        },
    )
}

/// Reads an inverse-kinematics chain.
pub fn ik(cur: &mut Cursor, settings: &Settings) -> (r: Result<InverseKinematic, DecodeError>)
    ensures
        reads(*old(cur), *final(cur), r, ik_layout(old(cur).buf@, old(cur).pos as int, *settings)),
{
    let target = read_index(cur, settings.bone_index_size, true)?;
    let loop_count = cur.read_u32(ByteOrder::Little)?;
    let angle_limit = cur.read_f32(ByteOrder::Little)?;
    let link_count = cur.read_u32(ByteOrder::Little)?;
    let links = read_many::<Link>(cur, link_count, settings)?;
    Ok(InverseKinematic { target, loop_count, angle_limit, links })
}

/// A bone. Which of its optional fields are there is said by its flags.
#[derive(Clone, Debug, PartialEq, Eq)]
pub struct Bone {
    pub name_local: Text,
    pub name_global: Text,
    pub position: Vector3<Float32>,
    pub parent: i32,
    pub layer: i32,
    pub flags: JointFlags,
    pub tail_position: TailPosition,
    pub inherit_bone: Option<InheritBone>,
    pub fixed_axis: Option<Vector3<Float32>>,
    pub local_coordinate: Option<LocalCoordinate>,
    pub key: Option<i32>,
    pub ik: Option<InverseKinematic>,
}

/// What an optional inverse-kinematics chain stands for.
pub open spec fn chain_view(chain: Option<InverseKinematic>) -> Option<InverseKinematicView> {
    match chain {
        Some(chain) => Some(chain@),
        None => None,
    }
}

/// What a `Bone` stands for.
pub struct BoneView {
    pub name_local: TextView,
    pub name_global: TextView,
    pub position: Vector3<Float32>,
    pub parent: i32,
    pub layer: i32,
    pub flags: JointFlags,
    pub tail_position: TailPosition,
    pub inherit_bone: Option<InheritBone>,
    pub fixed_axis: Option<Vector3<Float32>>,
    pub local_coordinate: Option<LocalCoordinate>,
    pub key: Option<i32>,
    pub ik: Option<InverseKinematicView>,
}

impl View for Bone {
    type V = BoneView;

    open spec fn view(&self) -> BoneView {
        BoneView {
            name_local: self.name_local@,
            name_global: self.name_global@,
            position: self.position,
            parent: self.parent,
            layer: self.layer,
            flags: self.flags,
            tail_position: self.tail_position,
            inherit_bone: self.inherit_bone,
            fixed_axis: self.fixed_axis,
            local_coordinate: self.local_coordinate,
            key: self.key,
            ik: chain_view(self.ik),
        }
    }
}

/// Whether the flags of a bone announce a bone to inherit from.
pub open spec fn inherits(flags: JointFlags) -> bool {
    flags.spec_contains(JointFlags::INHERIT_ROTATION) || flags.spec_contains(
        JointFlags::INHERIT_TRANSLATION,
    )
}

/// The tail of a bone: a bone index where the flags say so, a point
/// otherwise.
pub open spec fn tail_layout(data: Seq<u8>, at: int, flags: JointFlags, w: u8) -> Result<
    (TailPosition, int),
    DecodeError,
> {
    if flags.spec_contains(JointFlags::INDEXED_TAIL_POSITION) {
        tail_position_indexed_layout(data, at, w)
    } else {
        tail_position_layout(data, at)
    }
}

/// A number of four bytes.
pub open spec fn key_layout(data: Seq<u8>, at: int) -> Result<(i32, int), DecodeError> {
    Trail::start(at).fixed(data, 4).finish(signed32(le_u32_at(data, at)))
}

/// A vector of twelve bytes.
pub open spec fn axis_layout(
    data: Seq<u8>,
    at: int,
) -> Result<(Vector3<Float32>, int), DecodeError> {
    Trail::start(at).fixed(data, 12).finish(v3f_at(data, at, ByteOrder::Little))
}

/// Reads the tail of a bone.
fn tail(cur: &mut Cursor, flags: JointFlags, w: u8) -> (r: Result<TailPosition, DecodeError>)
    ensures
        reads(*old(cur), *final(cur), r, tail_layout(old(cur).buf@, old(cur).pos as int, flags, w)),
{
    if flags.indexed_tail_position() {
        tail_position_indexed(cur, w)
    } else {
        tail_position(cur)
    }
}

/// Reads the bone to inherit from where the flags announce one.
fn optional_inherit(cur: &mut Cursor, flags: JointFlags, w: u8) -> (r: Result<
    Option<InheritBone>,
    DecodeError,
>)
    ensures
        reads(
            *old(cur),
            *final(cur),
            r,
            optional(
                inherits(flags),
                old(cur).pos as int,
                inherit_bone_layout(old(cur).buf@, old(cur).pos as int, w),
            ),
        ),
{
    if flags.inherit_rotation() || flags.inherit_translation() {
        Ok(Some(inherit_bone(cur, w)?))
    } else {
        Ok(None)
    }
}

/// Reads the fixed axis where the flags announce one.
fn optional_axis(cur: &mut Cursor, present: bool) -> (r: Result<
    Option<Vector3<Float32>>,
    DecodeError,
>)
    ensures
        reads(
            *old(cur),
            *final(cur),
            r,
            optional(present, old(cur).pos as int, axis_layout(old(cur).buf@, old(cur).pos as int)),
        ),
{
    if present {
        Ok(Some(read_v3f(cur, ByteOrder::Little)?))
    } else {
        Ok(None)
    }
}

/// Reads the local coordinate frame where the flags announce one.
fn optional_frame(cur: &mut Cursor, present: bool) -> (r: Result<
    Option<LocalCoordinate>,
    DecodeError,
>)
    ensures
        reads(
            *old(cur),
            *final(cur),
            r,
            optional(
                present,
                old(cur).pos as int,
                local_coordinate_layout(old(cur).buf@, old(cur).pos as int),
            ),
        ),
{
    if present {
        Ok(Some(local_coordinate(cur)?))
    } else {
        Ok(None)
    }
}

/// Reads the key of the external parent where the flags announce one.
fn optional_key(cur: &mut Cursor, present: bool) -> (r: Result<Option<i32>, DecodeError>)
    ensures
        reads(
            *old(cur),
            *final(cur),
            r,
            optional(present, old(cur).pos as int, key_layout(old(cur).buf@, old(cur).pos as int)),
        ),
{
    if present {
        Ok(Some(cur.read_i32(ByteOrder::Little)?))
    } else {
        Ok(None)
    }
}

/// Reads the inverse-kinematics chain where the flags announce one.
fn optional_ik(cur: &mut Cursor, present: bool, settings: &Settings) -> (r: Result<
    Option<InverseKinematic>,
    DecodeError,
>)
    ensures
        final(cur).buf == old(cur).buf,
        match r {
            Ok(chain) => optional(
                present,
                old(cur).pos as int,
                ik_layout(old(cur).buf@, old(cur).pos as int, *settings),
            ) == Ok::<(Option<InverseKinematicView>, int), DecodeError>(
                (chain_view(chain), final(cur).pos as int),
            ),
            Err(e) => optional(
                present,
                old(cur).pos as int,
                ik_layout(old(cur).buf@, old(cur).pos as int, *settings),
            ) == Err::<(Option<InverseKinematicView>, int), DecodeError>(e),
        },
{
    if present {
        Ok(Some(ik(cur, settings)?))
    } else {
        Ok(None)
    }
}

impl Wire for Bone {
    /// The two names; position, parent, layer and flags; the tail, a bone
    /// index where the flags say so and a point otherwise; then, each only
    /// where its flag is set: the bone to inherit from, the fixed axis,
    /// the local coordinate frame, the key of an external parent, and the
    /// inverse-kinematics chain.
    open spec fn layout(data: Seq<u8>, at: int, settings: Settings) -> Result<
        (Self::V, int),
        DecodeError,
    > {
        let w = settings.bone_index_size;
        let t1 = Trail::start(at).string(data);
        let t2 = t1.string(data);
        let t3 = t2.fixed(data, 22);
        let flags = JointFlags { bits: le_u16_at(data, t2.at + 20) };
        let tail = tail_layout(data, t3.at, flags, w);
        let t4 = t3.past(tail);
        let inherit = optional(inherits(flags), t4.at, inherit_bone_layout(data, t4.at, w));
        let t5 = t4.past(inherit);
        let axis = optional(
            flags.spec_contains(JointFlags::FIXED_AXIS),
            t5.at,
            axis_layout(data, t5.at),
        );
        let t6 = t5.past(axis);
        let frame = optional(
            flags.spec_contains(JointFlags::LOCAL_COORDINATE),
            t6.at,
            local_coordinate_layout(data, t6.at),
        );
        let t7 = t6.past(frame);
        let key = optional(
            flags.spec_contains(JointFlags::EXTERNAL_PARENT_DEFORM),
            t7.at,
            key_layout(data, t7.at),
        );
        let t8 = t7.past(key);
        let chain = optional(
            flags.spec_contains(JointFlags::USE_IK),
            t8.at,
            ik_layout(data, t8.at, settings),
        );
        let t9 = t8.past(chain);
        t9.finish(
            BoneView {
                name_local: decoded(string_bytes_at(data, at), settings.encoding, at as u64),
                name_global: decoded(string_bytes_at(data, t1.at), settings.encoding, t1.at as u64),
                position: v3f_at(data, t2.at, ByteOrder::Little),
                parent: signed32(le_u32_at(data, t2.at + 12)),
                layer: signed32(le_u32_at(data, t2.at + 16)),
                flags,
                tail_position: part(tail),
                inherit_bone: part(inherit),
                fixed_axis: part(axis),
                local_coordinate: part(frame),
                key: part(key),
                ik: part(chain),
            },
        )
    }

    #[verifier::spinoff_prover]
    #[verifier::rlimit(100)]
    fn read(cur: &mut Cursor, settings: &Settings) -> (r: Result<Self, DecodeError>) {
        let w = settings.bone_index_size;
        let name_local = Text::read(cur, settings)?;
        let name_global = Text::read(cur, settings)?;
        if !cur.has(22) {
            return Err(DecodeError::UnexpectedEof);
        }
        let position = read_v3f(cur, ByteOrder::Little)?;
        let parent = cur.read_i32(ByteOrder::Little)?;
        let layer = cur.read_i32(ByteOrder::Little)?;
        let flags = JointFlags::from_bits_retain(cur.read_u16(ByteOrder::Little)?);
        let tail_position = tail(cur, flags, w)?;
        let inherit_bone = optional_inherit(cur, flags, w)?;
        let fixed_axis = optional_axis(cur, flags.fixed_axis())?;
        let local_coordinate = optional_frame(cur, flags.local_coordinate())?;
        let key = optional_key(cur, flags.external_parent_deform())?;
        let ik = optional_ik(cur, flags.use_ik(), settings)?;
        Ok(
            Bone {
                name_local,
                name_global,
                position,
                parent,
                layer,
                flags,
                tail_position,
                inherit_bone,
                fixed_axis,
                local_coordinate,
                key,
                ik,
            },
        )
    }
}

/// Reads a bone.
pub fn bone(cur: &mut Cursor, settings: &Settings) -> (r: Result<Bone, DecodeError>)
    ensures
        reads(
            *old(cur),
            *final(cur),
            r,
            Bone::layout(old(cur).buf@, old(cur).pos as int, *settings),
        ),
{
    Bone::read(cur, settings)
}

// ---------------------------------------------------------------------
// The model
// ---------------------------------------------------------------------

/// The first half of a file: the header, the geometry, the materials and
/// the bones.
#[derive(Clone, Debug, PartialEq, Eq)]
pub struct Body {
    pub header: Header,
    pub vertices: Vec<Vertex>,
    pub indices: Vec<i32>,
    pub textures: Vec<Text>,
    pub materials: Vec<Material>,
    pub bones: Vec<Bone>,
}

/// What a `Body` stands for.
pub struct BodyView {
    pub header: HeaderView,
    pub vertices: Seq<VertexView>,
    pub indices: Seq<i32>,
    pub textures: Seq<TextView>,
    pub materials: Seq<MaterialView>,
    pub bones: Seq<BoneView>,
}

impl View for Body {
    type V = BodyView;

    open spec fn view(&self) -> BodyView {
        BodyView {
            header: self.header@,
            vertices: seq_views(self.vertices@),
            indices: self.indices@,
            textures: seq_views(self.textures@),
            materials: seq_views(self.materials@),
            bones: seq_views(self.bones@),
        }
    }
}

/// The run of `count` vertex indices of `w` bytes each at `at`. A run of
/// no indices is empty whatever the width.
pub open spec fn indices_layout(data: Seq<u8>, at: int, count: u32, w: u8) -> Result<
    (Seq<i32>, int),
    DecodeError,
> {
    if count == 0 {
        Ok((Seq::empty(), at))
    } else if !valid_width(w) {
        Err(DecodeError::InvalidWidth)
    } else if at + count * w > data.len() {
        Err(DecodeError::UnexpectedEof)
    } else {
        Ok((Seq::new(count as nat, |i: int| index_at(data, at + i * w, w, true)), at + count * w))
    }
}

/// Reads the vertex indices of the faces.
fn face_indices(cur: &mut Cursor, count: u32, w: u8) -> (r: Result<Vec<i32>, DecodeError>)
    ensures
        final(cur).buf == old(cur).buf,
        match r {
            Ok(indices) => indices_layout(old(cur).buf@, old(cur).pos as int, count, w) == Ok::<
                (Seq<i32>, int),
                DecodeError,
            >((indices@, final(cur).pos as int)),
            Err(e) => indices_layout(old(cur).buf@, old(cur).pos as int, count, w) == Err::<
                (Seq<i32>, int),
                DecodeError,
            >(e),
        },
{
    let ghost data = cur.buf@;
    let ghost at = cur.pos as int;
    let indices = read_indices(cur, count, w, true)?;
    proof {
        if count == 0 {
            assert(indices@ =~= Seq::<i32>::empty());
        } else {
            assert(
                indices@ =~= Seq::new(count as nat, |i: int| index_at(data, at + i * w, w, true))
            );
        }
    }
    Ok(indices)
}

/// What the first half of a file holds: the header; then, each behind its
/// count, the vertices, the vertex indices of the faces, the texture
/// paths, the materials and the bones.
pub open spec fn body_layout(data: Seq<u8>, at: int) -> Result<(BodyView, int), DecodeError> {
    let head = header_layout(data, at);
    let settings = part(head).settings;
    let t1 = Trail::start(at).past(head);
    let t2 = t1.fixed(data, 4);
    let vertices = layout_many::<Vertex>(data, t2.at, le_u32_at(data, t1.at) as nat, settings);
    let t3 = t2.past(vertices);
    let t4 = t3.fixed(data, 4);
    let indices = indices_layout(data, t4.at, le_u32_at(data, t3.at), settings.vertex_index_size);
    let t5 = t4.past(indices);
    let t6 = t5.fixed(data, 4);
    let textures = layout_many::<Text>(data, t6.at, le_u32_at(data, t5.at) as nat, settings);
    let t7 = t6.past(textures);
    let t8 = t7.fixed(data, 4);
    let materials = layout_many::<Material>(data, t8.at, le_u32_at(data, t7.at) as nat, settings);
    let t9 = t8.past(materials);
    let t10 = t9.fixed(data, 4);
    let bones = layout_many::<Bone>(data, t10.at, le_u32_at(data, t9.at) as nat, settings);
    let t11 = t10.past(bones);
    t11.finish(
        BodyView {
            header: part(head),
            vertices: part(vertices),
            indices: part(indices),
            textures: part(textures),
            materials: part(materials),
            bones: part(bones),
        },
    )
}

/// Reads the first half of a file.
#[verifier::spinoff_prover]
#[verifier::rlimit(100)]
pub fn body(cur: &mut Cursor) -> (r: Result<Body, DecodeError>)
    ensures
        reads(*old(cur), *final(cur), r, body_layout(old(cur).buf@, old(cur).pos as int)),
{
    let header = header(cur)?;
    let settings = header.settings;
    let vertex_count = cur.read_u32(ByteOrder::Little)?;
    let vertices = read_many::<Vertex>(cur, vertex_count, &settings)?;
    let index_count = cur.read_u32(ByteOrder::Little)?;
    let indices = face_indices(cur, index_count, settings.vertex_index_size)?;
    let texture_count = cur.read_u32(ByteOrder::Little)?;
    let textures = read_many::<Text>(cur, texture_count, &settings)?;
    let material_count = cur.read_u32(ByteOrder::Little)?;
    let materials = read_many::<Material>(cur, material_count, &settings)?;
    let bone_count = cur.read_u32(ByteOrder::Little)?;
    let bones = read_many::<Bone>(cur, bone_count, &settings)?;
    Ok(Body { header, vertices, indices, textures, materials, bones })
}

/// The second half of a file: the morphs, the display frames and the
/// physics.
#[derive(Clone, Debug, PartialEq, Eq)]
pub struct Extras {
    pub morphs: Vec<Morph>,
    pub frames: Vec<Frame>,
    pub rigid_bodies: Vec<RigidBody>,
    pub joints: Vec<Joint>,
    pub soft_bodies: Vec<SoftBody>,
}

/// What an `Extras` stands for.
pub struct ExtrasView {
    pub morphs: Seq<MorphView>,
    pub frames: Seq<FrameView>,
    pub rigid_bodies: Seq<RigidBodyView>,
    pub joints: Seq<JointView>,
    pub soft_bodies: Seq<SoftBodyView>,
}

impl View for Extras {
    type V = ExtrasView;

    open spec fn view(&self) -> ExtrasView {
        ExtrasView {
            morphs: seq_views(self.morphs@),
            frames: seq_views(self.frames@),
            rigid_bodies: seq_views(self.rigid_bodies@),
            joints: seq_views(self.joints@),
            soft_bodies: seq_views(self.soft_bodies@),
        }
    }
}

/// The bit pattern of the version number 2.1, the first to store soft
/// bodies.
pub const VERSION_2_1: u32 = 0x4006_6666;

/// Whether files of the version `version` store soft bodies.
pub open spec fn has_soft_bodies(version: Float32) -> bool {
    version.bits == VERSION_2_1
}

/// The soft bodies of a file, behind their count; a file of a version
/// that stores none holds nothing here.
pub open spec fn soft_bodies_layout(
    data: Seq<u8>,
    at: int,
    settings: Settings,
    soft: bool,
) -> Result<
    (Seq<SoftBodyView>, int),
    DecodeError,
> {
    if soft {
        let t1 = Trail::start(at).fixed(data, 4);
        let bodies = layout_many::<SoftBody>(data, t1.at, le_u32_at(data, at) as nat, settings);
        t1.past(bodies).finish(part(bodies))
    } else {
        Ok((Seq::empty(), at))
    }
}

/// Reads the soft bodies of a file that stores them.
fn soft_bodies(cur: &mut Cursor, settings: &Settings, soft: bool) -> (r: Result<
    Vec<SoftBody>,
    DecodeError,
>)
    ensures
        final(cur).buf == old(cur).buf,
        match r {
            Ok(bodies) => soft_bodies_layout(old(cur).buf@, old(cur).pos as int, *settings, soft)
                == Ok::<(Seq<SoftBodyView>, int), DecodeError>(
                (seq_views(bodies@), final(cur).pos as int),
            ),
            Err(e) => soft_bodies_layout(old(cur).buf@, old(cur).pos as int, *settings, soft)
                == Err::<(Seq<SoftBodyView>, int), DecodeError>(e),
        },
{
    if soft {
        let count = cur.read_u32(ByteOrder::Little)?;
        read_many::<SoftBody>(cur, count, settings)
    } else {
        let none: Vec<SoftBody> = Vec::new();
        assert(seq_views(none@) =~= Seq::<SoftBodyView>::empty());
        Ok(none)
    }
}

/// What the second half of a file holds, each behind its count: the
/// morphs, the display frames, the rigid bodies, the joints and, where
/// `soft` holds, the soft bodies.
pub open spec fn extras_layout(data: Seq<u8>, at: int, settings: Settings, soft: bool) -> Result<
    (ExtrasView, int),
    DecodeError,
> {
    let t1 = Trail::start(at).fixed(data, 4);
    let morphs = layout_many::<Morph>(data, t1.at, le_u32_at(data, at) as nat, settings);
    let t2 = t1.past(morphs);
    let t3 = t2.fixed(data, 4);
    let frames = layout_many::<Frame>(data, t3.at, le_u32_at(data, t2.at) as nat, settings);
    let t4 = t3.past(frames);
    let t5 = t4.fixed(data, 4);
    let rigid_bodies = layout_many::<RigidBody>(
        data,
        t5.at,
        le_u32_at(data, t4.at) as nat,
        settings,
    );
    let t6 = t5.past(rigid_bodies);
    let t7 = t6.fixed(data, 4);
    let joints = layout_many::<Joint>(data, t7.at, le_u32_at(data, t6.at) as nat, settings);
    let t8 = t7.past(joints);
    let bodies = soft_bodies_layout(data, t8.at, settings, soft);
    t8.past(bodies).finish(
        ExtrasView {
            morphs: part(morphs),
            frames: part(frames),
            rigid_bodies: part(rigid_bodies),
            joints: part(joints),
            soft_bodies: part(bodies),
        },
    )
}

/// Reads the second half of a file.
#[verifier::spinoff_prover]
#[verifier::rlimit(100)]
pub fn extras(cur: &mut Cursor, settings: &Settings, soft: bool) -> (r: Result<Extras, DecodeError>)
    ensures
        reads(
            *old(cur),
            *final(cur),
            r,
            extras_layout(old(cur).buf@, old(cur).pos as int, *settings, soft),
        ),
{
    let morph_count = cur.read_u32(ByteOrder::Little)?;
    let morphs = read_many::<Morph>(cur, morph_count, settings)?;
    let frame_count = cur.read_u32(ByteOrder::Little)?;
    let frames = read_many::<Frame>(cur, frame_count, settings)?;
    let body_count = cur.read_u32(ByteOrder::Little)?;
    let rigid_bodies = read_many::<RigidBody>(cur, body_count, settings)?;
    let joint_count = cur.read_u32(ByteOrder::Little)?;
    let joints = read_many::<Joint>(cur, joint_count, settings)?;
    let soft_bodies = soft_bodies(cur, settings, soft)?;
    Ok(Extras { morphs, frames, rigid_bodies, joints, soft_bodies })
}

/// A decoded file.
#[derive(Clone, Debug, PartialEq, Eq)]
pub struct Model {
    pub header: Header,
    pub vertices: Vec<Vertex>,
    pub indices: Vec<i32>,
    pub textures: Vec<Text>,
    pub materials: Vec<Material>,
    pub bones: Vec<Bone>,
    pub morphs: Vec<Morph>,
    pub frames: Vec<Frame>,
    pub rigid_bodies: Vec<RigidBody>,
    pub joints: Vec<Joint>,
    pub soft_bodies: Vec<SoftBody>,
}

/// What a `Model` stands for.
pub struct ModelView {
    pub body: BodyView,
    pub extras: ExtrasView,
}

impl View for Model {
    type V = ModelView;

    open spec fn view(&self) -> ModelView {
        ModelView {
            body: BodyView {
                header: self.header@,
                vertices: seq_views(self.vertices@),
                indices: self.indices@,
                textures: seq_views(self.textures@),
                materials: seq_views(self.materials@),
                bones: seq_views(self.bones@),
            },
            extras: ExtrasView {
                morphs: seq_views(self.morphs@),
                frames: seq_views(self.frames@),
                rigid_bodies: seq_views(self.rigid_bodies@),
                joints: seq_views(self.joints@),
                soft_bodies: seq_views(self.soft_bodies@),
            },
        }
    }
}

/// What a file holds: its first half and, decoded under the settings of
/// the header, its second half.
pub open spec fn model_layout(data: Seq<u8>, at: int) -> Result<(ModelView, int), DecodeError> {
    match body_layout(data, at) {
        Err(e) => Err(e),
        Ok((body, mid)) => match extras_layout(
            data,
            mid,
            body.header.settings,
            has_soft_bodies(body.header.version),
        ) {
            Err(e) => Err(e),
            Ok((extras, end)) => Ok((ModelView { body, extras }, end)),
        },
    }
}

/// Reads a model.
pub fn model(cur: &mut Cursor) -> (r: Result<Model, DecodeError>)
    ensures
        reads(*old(cur), *final(cur), r, model_layout(old(cur).buf@, old(cur).pos as int)),
{
    let body = body(cur)?;
    let soft = body.header.version.bits == VERSION_2_1;
    let extras = extras(cur, &body.header.settings, soft)?;
    Ok(
        Model {
            header: body.header,
            vertices: body.vertices,
            indices: body.indices,
            textures: body.textures,
            materials: body.materials,
            bones: body.bones,
            morphs: extras.morphs,
            frames: extras.frames,
            rigid_bodies: extras.rigid_bodies,
            joints: extras.joints,
            soft_bodies: extras.soft_bodies,
        },
    )
}

// ---------------------------------------------------------------------
// Warnings
// ---------------------------------------------------------------------

/// The warning that a text gives: one where malformed input was replaced.
pub open spec fn text_warning(text: TextView) -> Seq<Warning> {
    if text.substituted {
        seq![Warning::TextSubstitution { position: text.offset }]
    } else {
        Seq::empty()
    }
}

/// The warnings of the first `k` texture paths.
pub open spec fn texture_warnings(textures: Seq<TextView>, k: nat) -> Seq<Warning>
    decreases k,
{
    if k == 0 {
        Seq::empty()
    } else {
        texture_warnings(textures, (k - 1) as nat) + text_warning(textures[k - 1])
    }
}

/// The warnings of the first `k` materials: for each its two names and
/// its comment.
pub open spec fn material_warnings(materials: Seq<MaterialView>, k: nat) -> Seq<Warning>
    decreases k,
{
    if k == 0 {
        Seq::empty()
    } else {
        let m = materials[k - 1];
        material_warnings(materials, (k - 1) as nat) + text_warning(m.name_local) + text_warning(
            m.name_global,
        ) + text_warning(m.comment)
    }
}

/// The warning that the flags of a bone give: one where bits outside the
/// declared mask are set.
pub open spec fn flag_warning(flags: JointFlags) -> Seq<Warning> {
    if flags.spec_is_valid() {
        Seq::empty()
    } else {
        seq![Warning::ReservedFlags { value: flags.bits as u32, mask: JointFlags::MASK as u32 }]
    }
}

/// The warnings of the first `k` bones: for each its two names and its
/// flags.
pub open spec fn bone_warnings(bones: Seq<BoneView>, k: nat) -> Seq<Warning>
    decreases k,
{
    if k == 0 {
        Seq::empty()
    } else {
        let b = bones[k - 1];
        bone_warnings(bones, (k - 1) as nat) + text_warning(b.name_local) + text_warning(
            b.name_global,
        ) + flag_warning(b.flags)
    }
}

/// A record with a name in the local and one in the global language.
pub trait Labelled: Sized + View {
    /// The two names of what a record stands for.
    spec fn labels(view: Self::V) -> (TextView, TextView);

    /// The name in the local language.
    fn local(&self) -> (r: &Text)
        ensures
            r@ == Self::labels(self@).0,
    ;

    /// The name in the global language.
    fn global(&self) -> (r: &Text)
        ensures
            r@ == Self::labels(self@).1,
    ;
}

impl Labelled for Morph {
    open spec fn labels(view: Self::V) -> (TextView, TextView) {
        (view.name_local, view.name_global)
    }

    fn local(&self) -> (r: &Text) {
        &self.name_local
    }

    fn global(&self) -> (r: &Text) {
        &self.name_global
    }
}

impl Labelled for Frame {
    open spec fn labels(view: Self::V) -> (TextView, TextView) {
        (view.name_local, view.name_global)
    }

    fn local(&self) -> (r: &Text) {
        &self.name_local
    }

    fn global(&self) -> (r: &Text) {
        &self.name_global
    }
}

impl Labelled for RigidBody {
    open spec fn labels(view: Self::V) -> (TextView, TextView) {
        (view.name_local, view.name_global)
    }

    fn local(&self) -> (r: &Text) {
        &self.name_local
    }

    fn global(&self) -> (r: &Text) {
        &self.name_global
    }
}

impl Labelled for Joint {
    open spec fn labels(view: Self::V) -> (TextView, TextView) {
        (view.name_local, view.name_global)
    }

    fn local(&self) -> (r: &Text) {
        &self.name_local
    }

    fn global(&self) -> (r: &Text) {
        &self.name_global
    }
}

impl Labelled for SoftBody {
    open spec fn labels(view: Self::V) -> (TextView, TextView) {
        (view.name_local, view.name_global)
    }

    fn local(&self) -> (r: &Text) {
        &self.name_local
    }

    fn global(&self) -> (r: &Text) {
        &self.name_global
    }
}

/// The warnings of the names of the first `k` records.
pub open spec fn label_warnings<T: Labelled>(items: Seq<T::V>, k: nat) -> Seq<Warning>
    decreases k,
{
    if k == 0 {
        Seq::empty()
    } else {
        label_warnings::<T>(items, (k - 1) as nat) + text_warning(T::labels(items[k - 1]).0)
            + text_warning(T::labels(items[k - 1]).1)
    }
}

/// The warnings `before`, followed by those of the first half of a model
/// in the order of the file: the four strings of the header, the texture
/// paths, the materials, the bones.
pub open spec fn body_warnings(before: Seq<Warning>, body: BodyView) -> Seq<Warning> {
    before + text_warning(body.header.name_local) + text_warning(body.header.name_global)
        + text_warning(body.header.comment_local) + text_warning(body.header.comment_global)
        + texture_warnings(body.textures, body.textures.len()) + material_warnings(
        body.materials,
        body.materials.len(),
    ) + bone_warnings(body.bones, body.bones.len())
}

/// The warnings `before`, followed by those of the second half of a model
/// in the order of the file: the names of the morphs, the display frames,
/// the rigid bodies, the joints and the soft bodies.
pub open spec fn extras_warnings(before: Seq<Warning>, extras: ExtrasView) -> Seq<Warning> {
    before + label_warnings::<Morph>(extras.morphs, extras.morphs.len()) + label_warnings::<Frame>(
        extras.frames,
        extras.frames.len(),
    ) + label_warnings::<RigidBody>(extras.rigid_bodies, extras.rigid_bodies.len())
        + label_warnings::<Joint>(extras.joints, extras.joints.len()) + label_warnings::<SoftBody>(
        extras.soft_bodies,
        extras.soft_bodies.len(),
    )
}

/// The warnings `before`, followed by those of a model in the order of
/// the file.
pub open spec fn model_warnings(before: Seq<Warning>, model: ModelView) -> Seq<Warning> {
    extras_warnings(body_warnings(before, model.body), model.extras)
}

/// Appends the warning of one text.
fn warn_text(text: &Text, warnings: &mut Vec<Warning>)
    ensures
        final(warnings)@ == old(warnings)@ + text_warning(text@),
{
    if text.substituted {
        warnings.push(Warning::TextSubstitution { position: text.offset });
    }
    assert(warnings@ =~= old(warnings)@ + text_warning(text@));
}

/// Appends the warnings of the texture paths.
fn warn_textures(textures: &Vec<Text>, warnings: &mut Vec<Warning>)
    ensures
        final(warnings)@ == old(warnings)@ + texture_warnings(
            seq_views(textures@),
            textures@.len(),
        ),
{
    let ghost views = seq_views(textures@);
    let mut i: usize = 0;
    assert(warnings@ =~= old(warnings)@ + texture_warnings(views, 0));
    while i < textures.len()
        invariant
            i <= textures@.len(),
            views == seq_views(textures@),
            warnings@ == old(warnings)@ + texture_warnings(views, i as nat),
        decreases textures@.len() - i,
    {
        warn_text(&textures[i], warnings);
        assert(warnings@ =~= old(warnings)@ + texture_warnings(views, (i + 1) as nat));
        i = i + 1;
    }
}

/// Appends the warnings of the materials.
fn warn_materials(materials: &Vec<Material>, warnings: &mut Vec<Warning>)
    ensures
        final(warnings)@ == old(warnings)@ + material_warnings(
            seq_views(materials@),
            materials@.len(),
        ),
{
    let ghost views = seq_views(materials@);
    let mut i: usize = 0;
    assert(warnings@ =~= old(warnings)@ + material_warnings(views, 0));
    while i < materials.len()
        invariant
            i <= materials@.len(),
            views == seq_views(materials@),
            warnings@ == old(warnings)@ + material_warnings(views, i as nat),
        decreases materials@.len() - i,
    {
        let m = &materials[i];
        warn_text(&m.name_local, warnings);
        warn_text(&m.name_global, warnings);
        warn_text(&m.comment, warnings);
        assert(warnings@ =~= old(warnings)@ + material_warnings(views, (i + 1) as nat));
        i = i + 1;
    }
}

/// Appends the warnings of the bones.
fn warn_bones(bones: &Vec<Bone>, warnings: &mut Vec<Warning>)
    ensures
        final(warnings)@ == old(warnings)@ + bone_warnings(seq_views(bones@), bones@.len()),
{
    let ghost views = seq_views(bones@);
    let mut i: usize = 0;
    assert(warnings@ =~= old(warnings)@ + bone_warnings(views, 0));
    while i < bones.len()
        invariant
            i <= bones@.len(),
            views == seq_views(bones@),
            warnings@ == old(warnings)@ + bone_warnings(views, i as nat),
        decreases bones@.len() - i,
    {
        let b = &bones[i];
        warn_text(&b.name_local, warnings);
        warn_text(&b.name_global, warnings);
        if !b.flags.is_valid() {
            warnings.push(
                Warning::ReservedFlags {
                    value: b.flags.bits as u32,
                    mask: JointFlags::MASK as u32,
                },
            );
        }
        assert(warnings@ =~= old(warnings)@ + bone_warnings(views, (i + 1) as nat));
        i = i + 1;
    }
}

/// Appends the warnings of the names of `items`.
fn warn_labels<T: Labelled>(items: &Vec<T>, warnings: &mut Vec<Warning>)
    ensures
        final(warnings)@ == old(warnings)@ + label_warnings::<T>(seq_views(items@), items@.len()),
{
    let ghost views = seq_views(items@);
    let mut i: usize = 0;
    assert(warnings@ =~= old(warnings)@ + label_warnings::<T>(views, 0));
    while i < items.len()
        invariant
            i <= items@.len(),
            views == seq_views(items@),
            warnings@ == old(warnings)@ + label_warnings::<T>(views, i as nat),
        decreases items@.len() - i,
    {
        let item = &items[i];
        assert(views[i as int] == item@);
        warn_text(item.local(), warnings);
        warn_text(item.global(), warnings);
        assert(warnings@ =~= old(warnings)@ + label_warnings::<T>(views, (i + 1) as nat));
        i = i + 1;
    }
}

/// Appends the warnings of a model to `warnings`.
pub fn collect_warnings(model: &Model, warnings: &mut Vec<Warning>)
    ensures
        final(warnings)@ == model_warnings(old(warnings)@, model@),
{
    warn_text(&model.header.name_local, warnings);
    warn_text(&model.header.name_global, warnings);
    warn_text(&model.header.comment_local, warnings);
    warn_text(&model.header.comment_global, warnings);
    warn_textures(&model.textures, warnings);
    warn_materials(&model.materials, warnings);
    warn_bones(&model.bones, warnings);
    warn_labels::<Morph>(&model.morphs, warnings);
    warn_labels::<Frame>(&model.frames, warnings);
    warn_labels::<RigidBody>(&model.rigid_bodies, warnings);
    warn_labels::<Joint>(&model.joints, warnings);
    warn_labels::<SoftBody>(&model.soft_bodies, warnings);
}

/// What decoding a whole file gives: the model and its warnings, or the
/// error of the first field that cannot be read. Bytes behind the model
/// are not looked at.
pub open spec fn decoding(data: Seq<u8>) -> Result<(ModelView, Seq<Warning>), DecodeError> {
    match model_layout(data, 0) {
        Ok((model, _)) => Ok((model, model_warnings(Seq::empty(), model))),
        Err(e) => Err(e),
    }
}

/// Decodes a file.
pub fn decode(bytes: &[u8]) -> (r: Result<(Model, Vec<Warning>), DecodeError>)
    ensures
        match r {
            Ok((model, warnings)) => decoding(bytes@) == Ok::<
                (ModelView, Seq<Warning>),
                DecodeError,
            >((model@, warnings@)),
            Err(e) => decoding(bytes@) == Err::<(ModelView, Seq<Warning>), DecodeError>(e),
        },
{
    let mut cur = Cursor::new(bytes);
    let model = model(&mut cur)?;
    let mut warnings: Vec<Warning> = Vec::new();
    collect_warnings(&model, &mut warnings);
    Ok((model, warnings))
}

/// Decoding is a function of the bytes: two decodes of one buffer give
/// the same model and the same warnings, or the same error.
pub proof fn lemma_decode_deterministic(
    data: Seq<u8>,
    first: Result<(ModelView, Seq<Warning>), DecodeError>,
    second: Result<(ModelView, Seq<Warning>), DecodeError>,
)
    requires
        first == decoding(data),
        second == decoding(data),
    ensures
        first == second,
{
}

} // verus!
