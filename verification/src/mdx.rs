//! Files of the chunked model format that start with `MDLX`.
//!
//! Behind the magic tag a file is a run of chunks. A chunk is a tag of
//! four bytes, the size of its data, and the data. The data of a chunk
//! that is known is a run of records of fixed size, as many as the size of
//! the chunk holds; a chunk that is not known is kept as raw bytes and
//! reported. All numbers are little-endian.

use vstd::prelude::*;
use vstd::slice::{slice_subrange, slice_to_vec};
use crate::bounds::{Bounds, Bounds32};
use crate::error::{DecodeError, VersionRange, Warning};
use crate::flags::SequenceFlags;
use crate::primitives::{
    f32_at, get_f32, get_quad, get_u32, le_u32_at, quad_at, starts_with, ByteOrder, Cursor,
    Float32,
};
use crate::text::{decoded, field_bytes, field_text, Encoding, Text, TextView};
use crate::vector::{v3f_at, Vector3};

verus! {

/// The one version of the format that is decoded.
pub const VERSION: u32 = 800;

/// The size in bytes of the model chunk's record.
pub const MODEL_SIZE: usize = 372;

/// The size in bytes of a sequence.
pub const SEQUENCE_SIZE: usize = 132;

/// The size in bytes of a texture.
pub const TEXTURE_SIZE: usize = 268;

/// The magic tag of the format: `MDLX`.
pub open spec fn magic() -> Seq<u8> {
    seq![0x4Du8, 0x44, 0x4C, 0x58]
}

/// The tag of the version chunk: `VERS`.
pub open spec fn version_tag() -> Seq<u8> {
    seq![0x56u8, 0x45, 0x52, 0x53]
}

/// The tag of the model chunk: `MODL`.
pub open spec fn model_tag() -> Seq<u8> {
    seq![0x4Du8, 0x4F, 0x44, 0x4C]
}

/// The tag of the sequences chunk: `SEQS`.
pub open spec fn sequences_tag() -> Seq<u8> {
    seq![0x53u8, 0x45, 0x51, 0x53]
}

/// The tag of the textures chunk: `TEXS`.
pub open spec fn textures_tag() -> Seq<u8> {
    seq![0x54u8, 0x45, 0x58, 0x53]
}

// ---------------------------------------------------------------------
// Records
// ---------------------------------------------------------------------

/// The name field of `budget` bytes found at `at`.
pub open spec fn field_at(data: Seq<u8>, at: int, budget: nat) -> TextView {
    decoded(field_bytes(data.subrange(at, at + budget), budget), Encoding::Utf8, at as u64)
}

/// The extent found at `at`: the radius first, then the two corners.
pub open spec fn extent_at(data: Seq<u8>, at: int) -> Bounds32 {
    Bounds {
        min: v3f_at(data, at + 4, ByteOrder::Little),
        max: v3f_at(data, at + 16, ByteOrder::Little),
        radius: Some(f32_at(data, at, ByteOrder::Little)),
    }
}

/// Decodes the name field of `budget` bytes at `at`.
fn get_field(buf: &[u8], at: usize, budget: usize) -> (r: Text)
    requires
        at + budget <= buf@.len() <= usize::MAX,
    ensures
        r@ == field_at(buf@, at as int, budget as nat),
{
    field_text(slice_subrange(buf, at, at + budget), budget, at as u64)
}

/// Decodes the extent at `at`.
fn get_extent(buf: &[u8], at: usize) -> (r: Bounds32)
    requires
        at + 28 <= buf@.len() <= usize::MAX,
    ensures
        r == extent_at(buf@, at as int),
{
    let o = ByteOrder::Little;
    Bounds {
        min: Vector3 {
            x: get_f32(buf, at + 4, o),
            y: get_f32(buf, at + 8, o),
            z: get_f32(buf, at + 12, o),
        },
        max: Vector3 {
            x: get_f32(buf, at + 16, o),
            y: get_f32(buf, at + 20, o),
            z: get_f32(buf, at + 24, o),
        },
        radius: Some(get_f32(buf, at, o)),
    }
}

/// What the model chunk says of the model as a whole.
#[derive(Clone, Debug, PartialEq, Eq)]
pub struct ModelData {
    pub name: Text,
    pub animation_filename: Text,
    pub extent: Bounds32,
    pub blend_time: u32,
}

/// What a `ModelData` stands for.
pub struct ModelDataView {
    pub name: TextView,
    pub animation_filename: TextView,
    pub extent: Bounds32,
    pub blend_time: u32,
}

impl View for ModelData {
    type V = ModelDataView;

    open spec fn view(&self) -> ModelDataView {
        ModelDataView {
            name: self.name@,
            animation_filename: self.animation_filename@,
            extent: self.extent,
            blend_time: self.blend_time,
        }
    }
}

/// The model record found at `at`: a name of 80 bytes, a file name of
/// 260 bytes, the extent, and the blend time.
pub open spec fn model_data_at(data: Seq<u8>, at: int) -> ModelDataView {
    ModelDataView {
        name: field_at(data, at, 80),
        animation_filename: field_at(data, at + 80, 260),
        extent: extent_at(data, at + 340),
        blend_time: le_u32_at(data, at + 368),
    }
}

/// Decodes the model record at `at`.
pub fn model_data(buf: &[u8], at: usize) -> (r: ModelData)
    requires
        at + MODEL_SIZE <= buf@.len() <= usize::MAX,
    ensures
        r@ == model_data_at(buf@, at as int),
{
    ModelData {
        name: get_field(buf, at, 80),
        animation_filename: get_field(buf, at + 80, 260),
        extent: get_extent(buf, at + 340),
        blend_time: get_u32(buf, at + 368, ByteOrder::Little),
    }
}

/// An animation sequence.
#[derive(Clone, Debug, PartialEq, Eq)]
pub struct Sequence {
    pub name: Text,
    pub interval: [u32; 2],
    pub move_speed: Float32,
    pub flags: SequenceFlags,
    pub rarity: Float32,
    pub sync_point: u32,
    pub extent: Bounds32,
}

/// What a `Sequence` stands for.
pub struct SequenceView {
    pub name: TextView,
    pub interval: [u32; 2],
    pub move_speed: Float32,
    pub flags: SequenceFlags,
    pub rarity: Float32,
    pub sync_point: u32,
    pub extent: Bounds32,
}

impl View for Sequence {
    type V = SequenceView;

    open spec fn view(&self) -> SequenceView {
        SequenceView {
            name: self.name@,
            interval: self.interval,
            move_speed: self.move_speed,
            flags: self.flags,
            rarity: self.rarity,
            sync_point: self.sync_point,
            extent: self.extent,
        }
    }
}

/// The sequence found at `at`: a name of 80 bytes, the first and the last
/// frame, the speed of movement, the flags, the rarity, the sync point,
/// and the extent.
pub open spec fn sequence_at(data: Seq<u8>, at: int) -> SequenceView {
    SequenceView {
        name: field_at(data, at, 80),
        interval: [le_u32_at(data, at + 80), le_u32_at(data, at + 84)],
        move_speed: f32_at(data, at + 88, ByteOrder::Little),
        flags: SequenceFlags { bits: le_u32_at(data, at + 92) },
        rarity: f32_at(data, at + 96, ByteOrder::Little),
        sync_point: le_u32_at(data, at + 100),
        extent: extent_at(data, at + 104),
    }
}

/// Decodes the sequence at `at`.
pub fn sequence(buf: &[u8], at: usize) -> (r: Sequence)
    requires
        at + SEQUENCE_SIZE <= buf@.len() <= usize::MAX,
    ensures
        r@ == sequence_at(buf@, at as int),
{
    let o = ByteOrder::Little;
    Sequence {
        name: get_field(buf, at, 80),
        interval: [get_u32(buf, at + 80, o), get_u32(buf, at + 84, o)],
        move_speed: get_f32(buf, at + 88, o),
        flags: SequenceFlags { bits: get_u32(buf, at + 92, o) },
        rarity: get_f32(buf, at + 96, o),
        sync_point: get_u32(buf, at + 100, o),
        extent: get_extent(buf, at + 104),
    }
}

/// A texture.
#[derive(Clone, Debug, PartialEq, Eq)]
pub struct Texture {
    pub replaceable_id: u32,
    pub filename: Text,
    pub flags: u32,
}

/// What a `Texture` stands for.
pub struct TextureView {
    pub replaceable_id: u32,
    pub filename: TextView,
    pub flags: u32,
}

impl View for Texture {
    type V = TextureView;

    open spec fn view(&self) -> TextureView {
        TextureView {
            replaceable_id: self.replaceable_id,
            filename: self.filename@,
            flags: self.flags,
        }
    }
}

/// The texture found at `at`: the replaceable id, a file name of 260
/// bytes, and the flags.
pub open spec fn texture_at(data: Seq<u8>, at: int) -> TextureView {
    TextureView {
        replaceable_id: le_u32_at(data, at),
        filename: field_at(data, at + 4, 260),
        flags: le_u32_at(data, at + 264),
    }
}

/// Decodes the texture at `at`.
pub fn texture(buf: &[u8], at: usize) -> (r: Texture)
    requires
        at + TEXTURE_SIZE <= buf@.len() <= usize::MAX,
    ensures
        r@ == texture_at(buf@, at as int),
{
    Texture {
        replaceable_id: get_u32(buf, at, ByteOrder::Little),
        filename: get_field(buf, at + 4, 260),
        flags: get_u32(buf, at + 264, ByteOrder::Little),
    }
}

/// The views of a sequence of sequences.
pub open spec fn sequence_views(items: Seq<Sequence>) -> Seq<SequenceView> {
    Seq::new(items.len(), |i: int| items[i]@)
}

/// The views of a sequence of textures.
pub open spec fn texture_views(items: Seq<Texture>) -> Seq<TextureView> {
    Seq::new(items.len(), |i: int| items[i]@)
}

/// The `count` sequences that lie one after the other from `at` on.
pub open spec fn sequences_at(data: Seq<u8>, at: int, count: nat) -> Seq<SequenceView> {
    Seq::new(count, |i: int| sequence_at(data, at + i * 132))
}

/// The `count` textures that lie one after the other from `at` on.
pub open spec fn textures_at(data: Seq<u8>, at: int, count: nat) -> Seq<TextureView> {
    Seq::new(count, |i: int| texture_at(data, at + i * 268))
}

/// Decodes the sequences that `size` bytes from `at` on hold.
fn sequences(buf: &[u8], at: usize, size: usize) -> (r: Vec<Sequence>)
    requires
        at + size <= buf@.len() <= usize::MAX,
    ensures
        sequence_views(r@) == sequences_at(buf@, at as int, (size / 132) as nat),
{
    let count = size / SEQUENCE_SIZE;
    let mut out: Vec<Sequence> = Vec::new();
    let mut i: usize = 0;
    while i < count
        invariant
            i <= count,
            count == size / 132,
            at + size <= buf@.len() <= usize::MAX,
            out@.len() == i,
            forall|k: int| 0 <= k < i ==> (#[trigger] out@[k])@ == sequence_at(buf@, at + k * 132),
        decreases count - i,
    {
        out.push(sequence(buf, at + i * SEQUENCE_SIZE));
        i = i + 1;
    }
    assert(sequence_views(out@) =~= sequences_at(buf@, at as int, count as nat));
    out
}

/// Decodes the textures that `size` bytes from `at` on hold.
fn textures(buf: &[u8], at: usize, size: usize) -> (r: Vec<Texture>)
    requires
        at + size <= buf@.len() <= usize::MAX,
    ensures
        texture_views(r@) == textures_at(buf@, at as int, (size / 268) as nat),
{
    let count = size / TEXTURE_SIZE;
    let mut out: Vec<Texture> = Vec::new();
    let mut i: usize = 0;
    while i < count
        invariant
            i <= count,
            count == size / 268,
            at + size <= buf@.len() <= usize::MAX,
            out@.len() == i,
            forall|k: int| 0 <= k < i ==> (#[trigger] out@[k])@ == texture_at(buf@, at + k * 268),
        decreases count - i,
    {
        out.push(texture(buf, at + i * TEXTURE_SIZE));
        i = i + 1;
    }
    assert(texture_views(out@) =~= textures_at(buf@, at as int, count as nat));
    out
}

// ---------------------------------------------------------------------
// The model
// ---------------------------------------------------------------------

/// A chunk that was not decoded, kept as the bytes of its data.
#[derive(Clone, Debug, PartialEq, Eq)]
pub struct RawChunk {
    pub tag: [u8; 4],
    pub bytes: Vec<u8>,
}

/// What a `RawChunk` stands for.
pub struct RawChunkView {
    pub tag: [u8; 4],
    pub bytes: Seq<u8>,
}

impl View for RawChunk {
    type V = RawChunkView;

    open spec fn view(&self) -> RawChunkView {
        RawChunkView { tag: self.tag, bytes: self.bytes@ }
    }
}

/// The views of a sequence of raw chunks.
pub open spec fn raw_views(items: Seq<RawChunk>) -> Seq<RawChunkView> {
    Seq::new(items.len(), |i: int| items[i]@)
}

/// A decoded file. Where a chunk occurs more than once, the version and
/// the model record are those of its last occurrence, and sequences and
/// textures are those of all occurrences in the order of the file.
#[derive(Clone, Debug, PartialEq, Eq)]
pub struct Model {
    pub version: Option<u32>,
    pub data: Option<ModelData>,
    pub sequences: Vec<Sequence>,
    pub textures: Vec<Texture>,
    pub raw: Vec<RawChunk>,
}

/// What a `Model` stands for.
pub struct ModelView {
    pub version: Option<u32>,
    pub data: Option<ModelDataView>,
    pub sequences: Seq<SequenceView>,
    pub textures: Seq<TextureView>,
    pub raw: Seq<RawChunkView>,
}

/// What an optional model record stands for.
pub open spec fn data_view(data: Option<ModelData>) -> Option<ModelDataView> {
    match data {
        Some(data) => Some(data@),
        None => None,
    }
}

impl View for Model {
    type V = ModelView;

    open spec fn view(&self) -> ModelView {
        ModelView {
            version: self.version,
            data: data_view(self.data),
            sequences: sequence_views(self.sequences@),
            textures: texture_views(self.textures@),
            raw: raw_views(self.raw@),
        }
    }
}

/// Where a walk through the chunks of a file stands.
pub struct Walk {
    pub model: ModelView,
    pub warnings: Seq<Warning>,
}

/// Where the chunk that starts at `at` ends.
pub open spec fn chunk_end(data: Seq<u8>, at: int) -> int {
    at + 8 + le_u32_at(data, at + 4)
}

/// The walk after the chunk at `at`, which lies inside the buffer.
///
/// The version chunk holds the version, which has to be the one that is
/// decoded (`UnsupportedVersion`). The model chunk holds one model record.
/// The chunks of sequences and textures hold as many records as fit into
/// their size. A known chunk that is too small for its record fails the
/// decode with `UnexpectedEof`. Any other chunk is kept raw and reported.
pub open spec fn chunk_step(data: Seq<u8>, at: int, w: Walk) -> Result<Walk, DecodeError> {
    let tag = quad_at(data, at);
    let size = le_u32_at(data, at + 4);
    let body = at + 8;
    let m = w.model;
    if tag@ == version_tag() {
        if size < 4 {
            Err(DecodeError::UnexpectedEof)
        } else if le_u32_at(data, body) != VERSION {
            Err(
                DecodeError::UnsupportedVersion {
                    got: le_u32_at(data, body),
                    supported_range: VersionRange { min: VERSION, max: VERSION },
                },
            )
        } else {
            Ok(
                Walk {
                    model: ModelView {
                        version: Some(VERSION),
                        data: m.data,
                        sequences: m.sequences,
                        textures: m.textures,
                        raw: m.raw,
                    },
                    warnings: w.warnings,
                },
            )
        }
    } else if tag@ == model_tag() {
        if size < MODEL_SIZE {
            Err(DecodeError::UnexpectedEof)
        } else {
            Ok(
                Walk {
                    model: ModelView {
                        version: m.version,
                        data: Some(model_data_at(data, body)),
                        sequences: m.sequences,
                        textures: m.textures,
                        raw: m.raw,
                    },
                    warnings: w.warnings,
                },
            )
        }
    } else if tag@ == sequences_tag() {
        Ok(
            Walk {
                model: ModelView {
                    version: m.version,
                    data: m.data,
                    sequences: m.sequences + sequences_at(data, body, (size as int / 132) as nat),
                    textures: m.textures,
                    raw: m.raw,
                },
                warnings: w.warnings,
            },
        )
    } else if tag@ == textures_tag() {
        Ok(
            Walk {
                model: ModelView {
                    version: m.version,
                    data: m.data,
                    sequences: m.sequences,
                    textures: m.textures + textures_at(data, body, (size as int / 268) as nat),
                    raw: m.raw,
                },
                warnings: w.warnings,
            },
        )
    } else {
        Ok(
            Walk {
                model: ModelView {
                    version: m.version,
                    data: m.data,
                    sequences: m.sequences,
                    textures: m.textures,
                    raw: m.raw.push(RawChunkView { tag, bytes: data.subrange(body, body + size) }),
                },
                warnings: w.warnings.push(
                    Warning::UnknownSection { section_type: le_u32_at(tag@, 0), offset: at as u64 },
                ),
            },
        )
    }
}

/// The walk through the chunks from `at` to the end of the buffer.
///
/// A chunk whose tag and size are not all there, or whose data the buffer
/// does not hold in full, fails the decode with `UnexpectedEof`.
pub open spec fn chunks_from(data: Seq<u8>, at: int, w: Walk) -> Result<Walk, DecodeError>
    decreases data.len() - at,
{
    if at < 0 || at >= data.len() {
        Ok(w)
    } else if at + 8 > data.len() || chunk_end(data, at) > data.len() {
        Err(DecodeError::UnexpectedEof)
    } else {
        match chunk_step(data, at, w) {
            Err(e) => Err(e),
            Ok(next) => chunks_from(data, chunk_end(data, at), next),
        }
    }
}

/// The model of a file without a chunk.
pub open spec fn empty_model() -> ModelView {
    ModelView {
        version: None,
        data: None,
        sequences: Seq::empty(),
        textures: Seq::empty(),
        raw: Seq::empty(),
    }
}

/// Compares a tag with the four bytes `a`, `b`, `c`, `d`.
fn is_tag(tag: &[u8; 4], a: u8, b: u8, c: u8, d: u8) -> (r: bool)
    ensures
        r == (tag@ == seq![a, b, c, d]),
{
    let r = tag[0] == a && tag[1] == b && tag[2] == c && tag[3] == d;
    assert(r ==> tag@ =~= seq![a, b, c, d]);
    if !r {
        assert(seq![a, b, c, d][0] == a && seq![a, b, c, d][1] == b && seq![a, b, c, d][2] == c
            && seq![a, b, c, d][3] == d);
    }
    r
}

/// Decodes the chunk at `at`, whose data of `size` bytes the buffer holds
/// in full, into the model.
fn decode_chunk(
    buf: &[u8],
    at: usize,
    size: u32,
    model: &mut Model,
    warnings: &mut Vec<Warning>,
) -> (r: Result<(), DecodeError>)
    requires
        at + 8 + size <= buf@.len() <= usize::MAX,
        size == le_u32_at(buf@, at + 4),
    ensures
        match r {
            Ok(_) => chunk_step(
                buf@,
                at as int,
                Walk { model: old(model)@, warnings: old(warnings)@ },
            ) == Ok::<Walk, DecodeError>(
                Walk { model: final(model)@, warnings: final(warnings)@ },
            ),
            Err(e) => chunk_step(
                buf@,
                at as int,
                Walk { model: old(model)@, warnings: old(warnings)@ },
            ) == Err::<Walk, DecodeError>(e),
        },
{
    let tag = get_quad(buf, at);
    let body = at + 8;
    let length = size as usize;
    if is_tag(&tag, 0x56, 0x45, 0x52, 0x53) {
        if size < 4 {
            return Err(DecodeError::UnexpectedEof);
        }
        let version = get_u32(buf, body, ByteOrder::Little);
        if version != VERSION {
            return Err(
                DecodeError::UnsupportedVersion {
                    got: version,
                    supported_range: VersionRange { min: VERSION, max: VERSION },
                },
            );
        }
        model.version = Some(version);
        Ok(())
    } else if is_tag(&tag, 0x4D, 0x4F, 0x44, 0x4C) {
        if length < MODEL_SIZE {
            return Err(DecodeError::UnexpectedEof);
        }
        model.data = Some(model_data(buf, body));
        Ok(())
    } else if is_tag(&tag, 0x53, 0x45, 0x51, 0x53) {
        let mut more = sequences(buf, body, length);
        let ghost before = model.sequences@;
        let ghost added = more@;
        model.sequences.append(&mut more);
        assert(sequence_views(model.sequences@) =~= sequence_views(before) + sequence_views(added));
        Ok(())
    } else if is_tag(&tag, 0x54, 0x45, 0x58, 0x53) {
        let mut more = textures(buf, body, length);
        let ghost before = model.textures@;
        let ghost added = more@;
        model.textures.append(&mut more);
        assert(texture_views(model.textures@) =~= texture_views(before) + texture_views(added));
        Ok(())
    } else {
        let bytes = slice_to_vec(slice_subrange(buf, body, body + length));
        let section_type = tag[0] as u32 + 0x100 * (tag[1] as u32) + 0x1_0000 * (tag[2] as u32)
            + 0x100_0000 * (tag[3] as u32);
        let ghost before = model.raw@;
        let raw = RawChunk { tag, bytes };
        model.raw.push(raw);
        assert(raw_views(model.raw@) =~= raw_views(before).push(raw@));
        warnings.push(Warning::UnknownSection { section_type, offset: at as u64 });
        Ok(())
    }
}

/// The warning that a text gives: one where malformed input was replaced.
pub open spec fn text_warning(text: TextView) -> Seq<Warning> {
    if text.substituted {
        seq![Warning::TextSubstitution { position: text.offset }]
    } else {
        Seq::empty()
    }
}

/// The warnings of the first `k` sequences: for each its name, then its
/// flags where bits outside the declared mask are set.
pub open spec fn sequence_warnings(items: Seq<SequenceView>, k: nat) -> Seq<Warning>
    decreases k,
{
    if k == 0 {
        Seq::empty()
    } else {
        let s = items[k - 1];
        let named = sequence_warnings(items, (k - 1) as nat) + text_warning(s.name);
        if s.flags.spec_is_valid() {
            named
        } else {
            named.push(Warning::ReservedFlags { value: s.flags.bits, mask: SequenceFlags::MASK })
        }
    }
}

/// The warnings of the first `k` textures: for each its file name.
pub open spec fn texture_warnings(items: Seq<TextureView>, k: nat) -> Seq<Warning>
    decreases k,
{
    if k == 0 {
        Seq::empty()
    } else {
        texture_warnings(items, (k - 1) as nat) + text_warning(items[k - 1].filename)
    }
}

/// The warnings of the model record, if there is one: for its name and
/// its file name.
pub open spec fn data_warnings(data: Option<ModelDataView>) -> Seq<Warning> {
    match data {
        Some(data) => text_warning(data.name) + text_warning(data.animation_filename),
        None => Seq::empty(),
    }
}

/// The warnings `before`, followed by those of the texts and flags of a
/// model: of the model record, the sequences and the textures.
pub open spec fn model_warnings(before: Seq<Warning>, model: ModelView) -> Seq<Warning> {
    before + data_warnings(model.data) + sequence_warnings(model.sequences, model.sequences.len())
        + texture_warnings(model.textures, model.textures.len())
}

/// Appends the warning of one text.
fn warn_text(text: &Text, warnings: &mut Vec<Warning>)
    ensures
        final(warnings)@ == old(warnings)@ + text_warning(text@),
{
    if text.substituted {
        warnings.push(Warning::TextSubstitution { position: text.offset });
    }
    assert(warnings@ =~= old(warnings)@ + text_warning(text@));
}

/// Appends the warnings of the model record.
fn warn_data(data: &Option<ModelData>, warnings: &mut Vec<Warning>)
    ensures
        final(warnings)@ == old(warnings)@ + data_warnings(data_view(*data)),
{
    match data {
        Some(data) => {
            warn_text(&data.name, warnings);
            warn_text(&data.animation_filename, warnings);
            assert(warnings@ =~= old(warnings)@ + (text_warning(data.name@) + text_warning(
                data.animation_filename@,
            )));
        },
        None => {
            assert(warnings@ =~= old(warnings)@ + Seq::<Warning>::empty());
        },
    }
}

/// Appends the warnings of the sequences.
fn warn_sequences(items: &Vec<Sequence>, warnings: &mut Vec<Warning>)
    ensures
        final(warnings)@ == old(warnings)@ + sequence_warnings(
            sequence_views(items@),
            items@.len(),
        ),
{
    let ghost views = sequence_views(items@);
    let mut i: usize = 0;
    assert(warnings@ =~= old(warnings)@ + sequence_warnings(views, 0));
    while i < items.len()
        invariant
            i <= items@.len(),
            views == sequence_views(items@),
            warnings@ == old(warnings)@ + sequence_warnings(views, i as nat),
        decreases items@.len() - i,
    {
        let s = &items[i];
        assert(views[i as int] == s@);
        warn_text(&s.name, warnings);
        if !s.flags.is_valid() {
            warnings.push(
                Warning::ReservedFlags { value: s.flags.bits, mask: SequenceFlags::MASK },
            );
        }
        assert(warnings@ =~= old(warnings)@ + sequence_warnings(views, (i + 1) as nat));
        i = i + 1;
    }
}

/// Appends the warnings of the textures.
fn warn_textures(items: &Vec<Texture>, warnings: &mut Vec<Warning>)
    ensures
        final(warnings)@ == old(warnings)@ + texture_warnings(texture_views(items@), items@.len()),
{
    let ghost views = texture_views(items@);
    let mut i: usize = 0;
    assert(warnings@ =~= old(warnings)@ + texture_warnings(views, 0));
    while i < items.len()
        invariant
            i <= items@.len(),
            views == texture_views(items@),
            warnings@ == old(warnings)@ + texture_warnings(views, i as nat),
        decreases items@.len() - i,
    {
        assert(views[i as int] == items@[i as int]@);
        warn_text(&items[i].filename, warnings);
        assert(warnings@ =~= old(warnings)@ + texture_warnings(views, (i + 1) as nat));
        i = i + 1;
    }
}

/// What decoding `data` gives: the model and the warnings, or the error
/// that ends the decode. The file has to start with the magic tag
/// (`BadMagic`). The warnings of the chunks come first; those of texts and
/// flags follow.
pub open spec fn decoding(data: Seq<u8>) -> Result<(ModelView, Seq<Warning>), DecodeError> {
    if !starts_with(data, magic()) {
        Err(DecodeError::BadMagic)
    } else {
        match chunks_from(data, 4, Walk { model: empty_model(), warnings: Seq::empty() }) {
            Err(e) => Err(e),
            Ok(w) => Ok((w.model, model_warnings(w.warnings, w.model))),
        }
    }
}

/// Decodes a file into a model.
pub fn decode(bytes: &[u8]) -> (r: Result<(Model, Vec<Warning>), DecodeError>)
    ensures
        match r {
            Ok((model, warnings)) => decoding(bytes@) == Ok::<
                (ModelView, Seq<Warning>),
                DecodeError,
            >((model@, warnings@)),
            Err(e) => decoding(bytes@) == Err::<(ModelView, Seq<Warning>), DecodeError>(e),
        },
{
    let mut cur = Cursor::new(bytes);
    let tag: [u8; 4] = [0x4D, 0x44, 0x4C, 0x58];
    assert(tag@ =~= magic());
    cur.expect_tag(tag.as_slice())?;
    let length = bytes.len();
    let mut model = Model {
        version: None,
        data: None,
        sequences: Vec::new(),
        textures: Vec::new(),
        raw: Vec::new(),
    };
    let mut warnings: Vec<Warning> = Vec::new();
    let ghost start = Walk { model: empty_model(), warnings: Seq::empty() };
    assert(model@.sequences =~= Seq::empty() && model@.textures =~= Seq::empty() && model@.raw
        =~= Seq::empty());
    let mut at: usize = 4;
    while at < length
        invariant
            4 <= at <= length,
            length == bytes@.len(),
            starts_with(bytes@, magic()),
            start == (Walk { model: empty_model(), warnings: Seq::empty() }),
            chunks_from(bytes@, 4, start) == chunks_from(
                bytes@,
                at as int,
                Walk { model: model@, warnings: warnings@ },
            ),
        decreases length - at,
    {
        let ghost here = Walk { model: model@, warnings: warnings@ };
        if length - at < 8 {
            assert(chunks_from(bytes@, at as int, here) == Err::<Walk, DecodeError>(
                DecodeError::UnexpectedEof,
            ));
            return Err(DecodeError::UnexpectedEof);
        }
        let size = get_u32(bytes, at + 4, ByteOrder::Little);
        if size as usize > length - at - 8 {
            assert(chunks_from(bytes@, at as int, here) == Err::<Walk, DecodeError>(
                DecodeError::UnexpectedEof,
            ));
            return Err(DecodeError::UnexpectedEof);
        }
        decode_chunk(bytes, at, size, &mut model, &mut warnings)?;
        at = at + 8 + size as usize;
    }
    warn_data(&model.data, &mut warnings);
    warn_sequences(&model.sequences, &mut warnings);
    warn_textures(&model.textures, &mut warnings);
    Ok((model, warnings))
}

/// Decoding is a function of the bytes: two decodes of one buffer give
/// the same model and the same warnings, or the same error.
pub proof fn lemma_decode_deterministic(
    data: Seq<u8>,
    first: Result<(ModelView, Seq<Warning>), DecodeError>,
    second: Result<(ModelView, Seq<Warning>), DecodeError>,
)
    requires
        first == decoding(data),
        second == decoding(data),
    ensures
        first == second,
{
}

} // verus!
