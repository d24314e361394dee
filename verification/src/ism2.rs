//! The sectioned model format whose files start with `ISM2`: its section
//! types and its header.
//!
//! The format has no published description; the layout of the header is
//! provisional.

use vstd::prelude::*;
use crate::error::DecodeError;
use crate::primitives::{le_u32_at, quad_at, ByteOrder, Cursor};
use crate::wire::Trail;

verus! {

/// The types of section that a file may hold.
#[derive(Clone, Copy, Debug, PartialEq, Eq, Structural)]
pub enum SectionType {
    Unknown,
    BoneData,
    MeshHeader,
    MeshBlockData,
    BoneTranslation,
    BoneScale,
    StringData,
    TextureData,
    BoneMatrixData,
    PolygonData,
    PolygonBlock,
    SurfaceOffsets,
    VertexBlockData,
    BoneTransforms,
    BoneParenting,
    BoneTransformX,
    BoneTransformY,
    BoneTransformZ,
    MaterialData,
    JointOrientX,
    JointOrientY,
    JointOrientZ,
    BoundingBox,
    CollisionFlag,
    CollisionRadius,
    PhysicsFlag,
    PhysicsRadius,
    PhysicsCost,
    PhysicsMass,
    PhysicsExpand,
    PhysicsShapeMemory,
}

impl SectionType {
    /// The number that stands for the section type in a file.
    pub open spec fn spec_code(self) -> u32 {
        match self {
            SectionType::Unknown => 0,
            SectionType::BoneData => 3,
            SectionType::MeshHeader => 10,
            SectionType::MeshBlockData => 11,
            SectionType::BoneTranslation => 20,
            SectionType::BoneScale => 21,
            SectionType::StringData => 33,
            SectionType::TextureData => 46,
            SectionType::BoneMatrixData => 50,
            SectionType::PolygonData => 69,
            SectionType::PolygonBlock => 70,
            SectionType::SurfaceOffsets => 76,
            SectionType::VertexBlockData => 89,
            SectionType::BoneTransforms => 91,
            SectionType::BoneParenting => 92,
            SectionType::BoneTransformX => 93,
            SectionType::BoneTransformY => 94,
            SectionType::BoneTransformZ => 95,
            SectionType::MaterialData => 97,
            SectionType::JointOrientX => 103,
            SectionType::JointOrientY => 104,
            SectionType::JointOrientZ => 105,
            SectionType::BoundingBox => 110,
            SectionType::CollisionFlag => 112,
            SectionType::CollisionRadius => 113,
            SectionType::PhysicsFlag => 114,
            SectionType::PhysicsRadius => 115,
            SectionType::PhysicsCost => 116,
            SectionType::PhysicsMass => 117,
            SectionType::PhysicsExpand => 118,
            SectionType::PhysicsShapeMemory => 119,
        }
    }

    /// The section type that `code` stands for; `Unknown` for a number
    /// that stands for none.
    pub open spec fn spec_from_code(code: u32) -> SectionType {
        if code == 3 {
            SectionType::BoneData
        } else if code == 10 {
            SectionType::MeshHeader
        } else if code == 11 {
            SectionType::MeshBlockData
        } else if code == 20 {
            SectionType::BoneTranslation
        } else if code == 21 {
            SectionType::BoneScale
        } else if code == 33 {
            SectionType::StringData
        } else if code == 46 {
            SectionType::TextureData
        } else if code == 50 {
            SectionType::BoneMatrixData
        } else if code == 69 {
            SectionType::PolygonData
        } else if code == 70 {
            SectionType::PolygonBlock
        } else if code == 76 {
            SectionType::SurfaceOffsets
        } else if code == 89 {
            SectionType::VertexBlockData
        } else if code == 91 {
            SectionType::BoneTransforms
        } else if code == 92 {
            SectionType::BoneParenting
        } else if code == 93 {
            SectionType::BoneTransformX
        } else if code == 94 {
            SectionType::BoneTransformY
        } else if code == 95 {
            SectionType::BoneTransformZ
        } else if code == 97 {
            SectionType::MaterialData
        } else if code == 103 {
            SectionType::JointOrientX
        } else if code == 104 {
            SectionType::JointOrientY
        } else if code == 105 {
            SectionType::JointOrientZ
        } else if code == 110 {
            SectionType::BoundingBox
        } else if code == 112 {
            SectionType::CollisionFlag
        } else if code == 113 {
            SectionType::CollisionRadius
        } else if code == 114 {
            SectionType::PhysicsFlag
        } else if code == 115 {
            SectionType::PhysicsRadius
        } else if code == 116 {
            SectionType::PhysicsCost
        } else if code == 117 {
            SectionType::PhysicsMass
        } else if code == 118 {
            SectionType::PhysicsExpand
        } else if code == 119 {
            SectionType::PhysicsShapeMemory
        } else {
            SectionType::Unknown
        }
    }

    /// The number that stands for the section type in a file.
    #[verifier::when_used_as_spec(spec_code)]
    pub fn code(self) -> (code: u32)
        ensures
            code == self.spec_code(),
    {
        match self {
            SectionType::Unknown => 0,
            SectionType::BoneData => 3,
            SectionType::MeshHeader => 10,
            SectionType::MeshBlockData => 11,
            SectionType::BoneTranslation => 20,
            SectionType::BoneScale => 21,
            SectionType::StringData => 33,
            SectionType::TextureData => 46,
            SectionType::BoneMatrixData => 50,
            SectionType::PolygonData => 69,
            SectionType::PolygonBlock => 70,
            SectionType::SurfaceOffsets => 76,
            SectionType::VertexBlockData => 89,
            SectionType::BoneTransforms => 91,
            SectionType::BoneParenting => 92,
            SectionType::BoneTransformX => 93,
            SectionType::BoneTransformY => 94,
            SectionType::BoneTransformZ => 95,
            SectionType::MaterialData => 97,
            SectionType::JointOrientX => 103,
            SectionType::JointOrientY => 104,
            SectionType::JointOrientZ => 105,
            SectionType::BoundingBox => 110,
            SectionType::CollisionFlag => 112,
            SectionType::CollisionRadius => 113,
            SectionType::PhysicsFlag => 114,
            SectionType::PhysicsRadius => 115,
            SectionType::PhysicsCost => 116,
            SectionType::PhysicsMass => 117,
            SectionType::PhysicsExpand => 118,
            SectionType::PhysicsShapeMemory => 119,
        }
    }

    /// The section type that `code` stands for.
    #[verifier::when_used_as_spec(spec_from_code)]
    pub fn from_code(code: u32) -> (section: SectionType)
        ensures
            section == Self::spec_from_code(code),
    {
        match code {
            3 => SectionType::BoneData,
            10 => SectionType::MeshHeader,
            11 => SectionType::MeshBlockData,
            20 => SectionType::BoneTranslation,
            21 => SectionType::BoneScale,
            33 => SectionType::StringData,
            46 => SectionType::TextureData,
            50 => SectionType::BoneMatrixData,
            69 => SectionType::PolygonData,
            70 => SectionType::PolygonBlock,
            76 => SectionType::SurfaceOffsets,
            89 => SectionType::VertexBlockData,
            91 => SectionType::BoneTransforms,
            92 => SectionType::BoneParenting,
            93 => SectionType::BoneTransformX,
            94 => SectionType::BoneTransformY,
            95 => SectionType::BoneTransformZ,
            97 => SectionType::MaterialData,
            103 => SectionType::JointOrientX,
            104 => SectionType::JointOrientY,
            105 => SectionType::JointOrientZ,
            110 => SectionType::BoundingBox,
            112 => SectionType::CollisionFlag,
            113 => SectionType::CollisionRadius,
            114 => SectionType::PhysicsFlag,
            115 => SectionType::PhysicsRadius,
            116 => SectionType::PhysicsCost,
            117 => SectionType::PhysicsMass,
            118 => SectionType::PhysicsExpand,
            119 => SectionType::PhysicsShapeMemory,
            _ => SectionType::Unknown,
        }
    }

    /// The four bytes that stand for the section type in a tag index.
    pub fn tag(self) -> (tag: [u8; 4])
        ensures
            tag@ == seq![self.spec_code() as u8, 0u8, 0u8, 0u8],
            le_u32_at(tag@, 0) == self.spec_code(),
    {
        let tag = [self.code() as u8, 0, 0, 0];
        assert(tag@ =~= seq![self.spec_code() as u8, 0u8, 0u8, 0u8]);
        tag
    }
}

/// Every section type is the one that its own number stands for.
pub proof fn lemma_section_code_round_trip(section: SectionType)
    ensures
        SectionType::spec_from_code(section.spec_code()) == section,
{
}

/// A number that stands for a section type is the number of that type.
pub proof fn lemma_section_code_known(code: u32)
    requires
        SectionType::spec_from_code(code) != SectionType::Unknown,
    ensures
        SectionType::spec_from_code(code).spec_code() == code,
{
}

/// What a file starts with: the header fields, and the table of its
/// sections as two lists of equal length.
#[derive(Clone, Debug, PartialEq, Eq)]
pub struct Header {
    pub version: [u8; 4],
    pub unknown3: u32,
    pub unknown4: u32,
    pub file_size: u32,
    pub unknown7: u32,
    pub unknown8: u32,
    pub section_types: Vec<SectionType>,
    pub section_offsets: Vec<u32>,
}

/// What a `Header` stands for.
pub struct HeaderView {
    pub version: [u8; 4],
    pub unknown3: u32,
    pub unknown4: u32,
    pub file_size: u32,
    pub unknown7: u32,
    pub unknown8: u32,
    pub section_types: Seq<SectionType>,
    pub section_offsets: Seq<u32>,
}

impl View for Header {
    type V = HeaderView;

    open spec fn view(&self) -> HeaderView {
        HeaderView {
            version: self.version,
            unknown3: self.unknown3,
            unknown4: self.unknown4,
            file_size: self.file_size,
            unknown7: self.unknown7,
            unknown8: self.unknown8,
            section_types: self.section_types@,
            section_offsets: self.section_offsets@,
        }
    }
}

/// The magic tag of the format: `ISM2`.
pub open spec fn magic() -> Seq<u8> {
    seq![0x49u8, 0x53, 0x4D, 0x32]
}

/// The size in bytes of the header without its section table.
pub const HEADER_SIZE: usize = 32;

/// What the header at the start of `data` holds: the magic tag
/// (`BadMagic` without it), seven fields of four bytes, the sixth of which
/// is the number of sections, and for each section its type and its
/// offset.
pub open spec fn header_layout(data: Seq<u8>) -> Result<(HeaderView, int), DecodeError> {
    if !(4 <= data.len() && data.subrange(0, 4) == magic()) {
        Err(DecodeError::BadMagic)
    } else {
        let count = le_u32_at(data, 20);
        Trail::start(4).fixed(data, 28).fixed(data, (count * 8) as nat).finish(
            HeaderView {
                version: quad_at(data, 4),
                unknown3: le_u32_at(data, 8),
                unknown4: le_u32_at(data, 12),
                file_size: le_u32_at(data, 16),
                unknown7: le_u32_at(data, 24),
                unknown8: le_u32_at(data, 28),
                section_types: Seq::new(
                    count as nat,
                    |i: int| SectionType::spec_from_code(le_u32_at(data, 32 + 8 * i)),
                ),
                section_offsets: Seq::new(count as nat, |i: int| le_u32_at(data, 36 + 8 * i)),
            },
        )
    }
}

/// Reads the header of a file and the table of its sections.
pub fn header(bytes: &[u8]) -> (r: Result<Header, DecodeError>)
    ensures
        match r {
            Ok(h) => header_layout(bytes@).is_ok() && header_layout(bytes@).unwrap().0 == h@,
            Err(e) => header_layout(bytes@) == Err::<(HeaderView, int), DecodeError>(e),
        },
{
    let mut cur = Cursor::new(bytes);
    let tag: [u8; 4] = [0x49, 0x53, 0x4D, 0x32];
    assert(tag@ =~= magic());
    cur.expect_tag(tag.as_slice())?;
    if !cur.has(28) {
        return Err(DecodeError::UnexpectedEof);
    }
    let version = cur.read_quad()?;
    let unknown3 = cur.read_u32(ByteOrder::Little)?;
    let unknown4 = cur.read_u32(ByteOrder::Little)?;
    let file_size = cur.read_u32(ByteOrder::Little)?;
    let count = cur.read_u32(ByteOrder::Little)?;
    let unknown7 = cur.read_u32(ByteOrder::Little)?;
    let unknown8 = cur.read_u32(ByteOrder::Little)?;
    if count as u64 * 8 > cur.left() as u64 {
        return Err(DecodeError::UnexpectedEof);
    }
    let mut section_types: Vec<SectionType> = Vec::new();
    let mut section_offsets: Vec<u32> = Vec::new();
    let mut i: u32 = 0;
    while i < count
        invariant
            i <= count,
            cur.buf == bytes,
            cur.pos == 32 + 8 * i,
            32 + 8 * count <= bytes@.len(),
            section_types@.len() == i,
            section_offsets@.len() == i,
            forall|k: int|
                0 <= k < i ==> section_types@[k] == SectionType::spec_from_code(
                    le_u32_at(bytes@, 32 + 8 * k),
                ),
            forall|k: int| 0 <= k < i ==> section_offsets@[k] == le_u32_at(bytes@, 36 + 8 * k),
        decreases count - i,
    {
        let code = match cur.read_u32(ByteOrder::Little) {
            Ok(code) => code,
            Err(e) => {
                return Err(e);
            },
        };
        let offset = match cur.read_u32(ByteOrder::Little) {
            Ok(offset) => offset,
            Err(e) => {
                return Err(e);
            },
        };
        section_types.push(SectionType::from_code(code));
        section_offsets.push(offset);
        i = i + 1;
    }
    let h = Header {
        version,
        unknown3,
        unknown4,
        file_size,
        unknown7,
        unknown8,
        section_types,
        section_offsets,
    };
    proof {
        let v = header_layout(bytes@).unwrap().0;
        assert(h@.section_types =~= v.section_types);
        assert(h@.section_offsets =~= v.section_offsets);
    }
    Ok(h)
}

} // verus!
