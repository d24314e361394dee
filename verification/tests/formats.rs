use meshio::color::Color;
use meshio::error::DecodeError;
use meshio::ism2::{header as ism2_header, SectionType};
use meshio::m2::{Array, GlobalFlags, LodData, TrackBase};
use meshio::number::{decimal_upto, int32, uint, uint16, uint32, uint8};
use meshio::object::{Node, Object};
use meshio::pmd::header as pmd_header;
use meshio::primitives::Cursor;
use meshio::reference::{decode_record, resolve, Budget, Record, Reference};
use meshio::scene::Scene;
use meshio::text::{field_text, fixed_utf16};
use meshio::vector::{Vector2, Vector3, Vector4};
use meshio::vertex::{Face, Vertex};
use meshio::xps::{header as xps_header, string as xps_string, Header as XpsHeader};
use meshio::{Language, LocalizedStringMap};

#[test]
fn section_codes_round_trip() {
    let all = [
        (SectionType::Unknown, 0),
        (SectionType::BoneData, 3),
        (SectionType::MeshHeader, 10),
        (SectionType::MeshBlockData, 11),
        (SectionType::BoneTranslation, 20),
        (SectionType::BoneScale, 21),
        (SectionType::StringData, 33),
        (SectionType::TextureData, 46),
        (SectionType::BoneMatrixData, 50),
        (SectionType::PolygonData, 69),
        (SectionType::PolygonBlock, 70),
        (SectionType::SurfaceOffsets, 76),
        (SectionType::VertexBlockData, 89),
        (SectionType::BoneTransforms, 91),
        (SectionType::BoneParenting, 92),
        (SectionType::BoneTransformX, 93),
        (SectionType::BoneTransformY, 94),
        (SectionType::BoneTransformZ, 95),
        (SectionType::MaterialData, 97),
        (SectionType::JointOrientX, 103),
        (SectionType::JointOrientY, 104),
        (SectionType::JointOrientZ, 105),
        (SectionType::BoundingBox, 110),
        (SectionType::CollisionFlag, 112),
        (SectionType::CollisionRadius, 113),
        (SectionType::PhysicsFlag, 114),
        (SectionType::PhysicsRadius, 115),
        (SectionType::PhysicsCost, 116),
        (SectionType::PhysicsMass, 117),
        (SectionType::PhysicsExpand, 118),
        (SectionType::PhysicsShapeMemory, 119),
    ];
    for (section, code) in all {
        assert_eq!(section.code(), code);
        assert_eq!(SectionType::from_code(code), section);
        assert_eq!(section.tag(), [code as u8, 0, 0, 0]);
    }
    for code in [1u32, 2, 4, 34, 111, 120, 0x0300, u32::MAX] {
        assert_eq!(SectionType::from_code(code), SectionType::Unknown);
    }
}

fn ism2_bytes(sections: &[(u32, u32)]) -> Vec<u8> {
    let mut out = Vec::new();
    out.extend_from_slice(b"ISM2");
    out.extend_from_slice(&[1, 0, 0, 2]);
    for v in [0x33u32, 0x44, 1234, sections.len() as u32, 0x77, 0x88] {
        out.extend_from_slice(&v.to_le_bytes());
    }
    for (kind, offset) in sections {
        out.extend_from_slice(&kind.to_le_bytes());
        out.extend_from_slice(&offset.to_le_bytes());
    }
    out
}

#[test]
fn sectioned_header_lists_types_and_offsets() {
    let bytes = ism2_bytes(&[(3, 0x100), (33, 0x200), (999, 0x300)]);
    let h = ism2_header(&bytes).unwrap();
    assert_eq!(h.version, [1, 0, 0, 2]);
    assert_eq!((h.unknown3, h.unknown4, h.file_size), (0x33, 0x44, 1234));
    assert_eq!((h.unknown7, h.unknown8), (0x77, 0x88));
    assert_eq!(
        h.section_types,
        vec![SectionType::BoneData, SectionType::StringData, SectionType::Unknown]
    );
    assert_eq!(h.section_offsets, vec![0x100, 0x200, 0x300]);
    let none = ism2_header(&ism2_bytes(&[])).unwrap();
    assert!(none.section_types.is_empty() && none.section_offsets.is_empty());
}

#[test]
fn sectioned_header_failures() {
    let bytes = ism2_bytes(&[(3, 0x100), (33, 0x200)]);
    assert_eq!(ism2_header(&bytes[..bytes.len() - 1]), Err(DecodeError::UnexpectedEof));
    assert_eq!(ism2_header(&bytes[..31]), Err(DecodeError::UnexpectedEof));
    assert_eq!(ism2_header(&bytes[..3]), Err(DecodeError::BadMagic));
    assert_eq!(ism2_header(b"ISM3aaaaaaaaaaaaaaaaaaaaaaaaaaaaaaaa"), Err(DecodeError::BadMagic));
    let mut lying = ism2_bytes(&[]);
    lying[20..24].copy_from_slice(&u32::MAX.to_le_bytes());
    assert_eq!(ism2_header(&lying), Err(DecodeError::UnexpectedEof));
}

#[test]
fn pose_format_header_and_tangents() {
    let bytes = [160u8, 238, 4, 0, 2, 0, 15, 0, 9];
    let mut c = Cursor::new(&bytes);
    let h = xps_header(&mut c).unwrap();
    assert_eq!(h, XpsHeader { version_major: 2, version_minor: 15 });
    assert_eq!(c.position(), 8);
    assert!(!h.is_tangent());
    assert!(XpsHeader { version_major: 1, version_minor: 12 }.is_tangent());
    assert!(XpsHeader { version_major: 0, version_minor: 0 }.is_tangent());
    assert!(!XpsHeader { version_major: 1, version_minor: 13 }.is_tangent());
    assert!(!XpsHeader { version_major: 2, version_minor: 1 }.is_tangent());
    assert_eq!(xps_header(&mut Cursor::new(&bytes[..7])), Err(DecodeError::UnexpectedEof));
    assert_eq!(
        xps_header(&mut Cursor::new(&[160, 238, 4, 1, 0, 0, 0, 0])),
        Err(DecodeError::BadMagic),
    );
}

#[test]
fn pose_format_strings_have_a_seven_bit_prefix() {
    let mut bytes = vec![3u8];
    bytes.extend_from_slice(b"abcd");
    let mut c = Cursor::new(&bytes);
    assert_eq!(xps_string(&mut c).unwrap().value, "abc");
    assert_eq!(c.position(), 4);
    let mut long = vec![0x80 | 2, 1];
    long.extend(std::iter::repeat(b'z').take(130));
    long.push(b'!');
    let mut d = Cursor::new(&long);
    let text = xps_string(&mut d).unwrap();
    assert_eq!(text.value, "z".repeat(130));
    assert_eq!(d.position(), 132);
    assert_eq!(xps_string(&mut Cursor::new(&long[..131])), Err(DecodeError::UnexpectedEof));
    assert_eq!(xps_string(&mut Cursor::new(&[0x80])), Err(DecodeError::UnexpectedEof));
    assert_eq!(xps_string(&mut Cursor::new(&[])), Err(DecodeError::UnexpectedEof));
    assert_eq!(xps_string(&mut Cursor::new(&[0])).unwrap().value, "");
}

#[test]
fn arrays_are_references_by_byte_offset() {
    let mut bytes = Vec::new();
    bytes.extend_from_slice(&2u32.to_le_bytes());
    bytes.extend_from_slice(&8u32.to_le_bytes());
    bytes.extend_from_slice(&[1, 0, 2, 0, 0x11, 0, 0, 0, 0x22, 0, 0, 0, 0x33, 0, 0, 0]);
    let array: Array = decode_record(&mut Cursor::new(&bytes), 0).unwrap();
    assert_eq!(array, Array { size: 2, offset: 8 });
    assert_eq!(array.reference(), Reference { entries: 2, index: 8, flags: 0 });
    let mut budget = Budget::new(10);
    let lods: Vec<LodData> =
        resolve(
            &bytes,
            &Array { size: 1, offset: 8 }.reference(),
            Array::addressing(),
            0,
            &mut budget,
        )
            .unwrap();
    assert_eq!(lods, vec![LodData { unk0: 1, count: 2, unk2: 0x11, unk3: 0x22, unk4: 0x33 }]);
}

#[test]
fn track_bases_in_both_versions() {
    let bytes: Vec<u8> = (0..20).collect();
    assert_eq!(TrackBase::width(1), Some(20));
    assert_eq!(TrackBase::width(2), Some(12));
    assert_eq!(TrackBase::width(0), None);
    assert_eq!(TrackBase::width(3), None);
    let old: TrackBase = decode_record(&mut Cursor::new(&bytes), 1).unwrap();
    assert_eq!(
        old,
        TrackBase::V1 {
            interpolation_type: 0x0100,
            global_sequence: 0x0302,
            interpolation_ranges: Array { size: 0x0706_0504, offset: 0x0B0A_0908 },
            timestamps: Array { size: 0x0F0E_0D0C, offset: 0x1312_1110 },
        }
    );
    let new: TrackBase = decode_record(&mut Cursor::new(&bytes), 2).unwrap();
    assert_eq!(
        new,
        TrackBase::V2 {
            interpolation_type: 0x0100,
            global_sequence: 0x0302,
            timestamps: Array { size: 0x0706_0504, offset: 0x0B0A_0908 },
        }
    );
    assert!(GlobalFlags { bits: 0x21 }.tilt_x());
    assert!(GlobalFlags { bits: 0x21 }.load_phys_data());
    assert!(!GlobalFlags { bits: 0x21 }.tilt_y());
    assert!(!GlobalFlags { bits: 4 }.is_valid());
}

#[test]
fn localized_strings() {
    let mut names = LocalizedStringMap::new();
    assert_eq!(names.len(), 0);
    assert_eq!(names.get(Language::English), None);
    assert_eq!(names.insert(Language::Japanese, "初音".to_string()), None);
    assert_eq!(names.insert(Language::English, "Miku".to_string()), None);
    assert_eq!(names.insert(Language::English, "Hatsune".to_string()), Some("Miku".to_string()));
    assert_eq!(names.get(Language::English), Some(&"Hatsune".to_string()));
    assert_eq!(names.get(Language::Japanese), Some(&"初音".to_string()));
    assert_eq!(names.len(), 2);
}

#[test]
fn faces_and_their_bounds() {
    let tri = Face::Triangle(Vector3 { x: 0, y: 1, z: 2 });
    let quad = Face::Quad(Vector4 { x: 0, y: 1, z: 2, w: 3 });
    let ngon = Face::Ngon(vec![4, 3, 2, 1, 0]);
    assert_eq!((tri.corner_count(), quad.corner_count(), ngon.corner_count()), (3, 4, 5));
    assert!(tri.in_bounds(3) && !tri.in_bounds(2));
    assert!(quad.in_bounds(4) && !quad.in_bounds(3));
    assert!(ngon.in_bounds(5) && !ngon.in_bounds(4));
    assert!(Face::Ngon(vec![]).in_bounds(0));
    assert!(!tri.in_bounds(0));
}

#[test]
fn scenes_hold_objects_of_nodes() {
    let vertex = Vertex {
        position: Vector3 { x: 1u32, y: 2, z: 3 },
        normals: [Vector3 { x: 0u32, y: 0, z: 1 }, Vector3 { x: 0, y: 1, z: 0 }],
        uv: Vector2 { x: 5u32, y: 6 },
        color: Color { red: 1u8, green: 2, blue: 3, alpha: 4 },
    };
    let mut name = LocalizedStringMap::new();
    name.insert(Language::English, "arm".to_string());
    let node = Node { name: name.clone(), vertices: vec![vertex; 3] };
    let object = Object { name: LocalizedStringMap::new(), nodes: vec![node.clone(), node] };
    let scene = Scene { name, objects: vec![object.clone(), object] };
    assert_eq!(scene.objects.len(), 2);
    assert_eq!(scene.objects[1].nodes[0].vertices[2].uv, Vector2 { x: 5, y: 6 });
    assert_eq!(scene.objects[0].nodes[1].name.get(Language::English), Some(&"arm".to_string()));
    assert_eq!(scene.name.get(Language::Japanese), None);
}

#[test]
fn decimal_numbers() {
    assert_eq!(uint8(b"255,"), Some((255, 3)));
    assert_eq!(uint8(b"256"), None);
    assert_eq!(uint8(b"007x"), Some((7, 3)));
    assert_eq!(uint8(b""), None);
    assert_eq!(uint8(b"x1"), None);
    assert_eq!(uint8(b"-1"), None);
    assert_eq!(uint16(b"65535"), Some((65535, 5)));
    assert_eq!(uint16(b"65536"), None);
    assert_eq!(uint32(b"4294967295 "), Some((4294967295, 10)));
    assert_eq!(uint32(b"4294967296"), None);
    assert_eq!(uint32(b"99999999999999999999999999"), None);
    assert_eq!(uint(b"0"), Some((0, 1)));
    assert_eq!(uint(b"12ab"), Some((12, 2)));
    assert_eq!(int32(b"-2147483648"), Some((i32::MIN, 11)));
    assert_eq!(int32(b"-2147483649"), None);
    assert_eq!(int32(b"2147483647"), Some((i32::MAX, 10)));
    assert_eq!(int32(b"2147483648"), None);
    assert_eq!(int32(b"-0"), Some((0, 2)));
    assert_eq!(int32(b"-"), None);
    assert_eq!(int32(b"--1"), None);
    assert_eq!(int32(b"42}"), Some((42, 2)));
    assert_eq!(decimal_upto(b"18446744073709551615", u64::MAX), Some((u64::MAX, 20)));
    assert_eq!(decimal_upto(b"18446744073709551616", u64::MAX), None);
    assert_eq!(decimal_upto(b"9", 5), None);
    assert_eq!(decimal_upto(b"5", 5), Some((5, 1)));
}

#[test]
fn older_polygon_model_header() {
    let mut bytes = b"Pmd".to_vec();
    bytes.extend_from_slice(&1.0f32.to_le_bytes());
    let mut name: Vec<u8> = "ミク".encode_utf16().flat_map(|u| u.to_le_bytes()).collect();
    name.resize(20, 0);
    bytes.extend_from_slice(&name);
    let mut comment: Vec<u8> = [
        0x41u16,
        0,
        0x42,
        0xD800,
    ].iter().flat_map(|u| u.to_le_bytes()).collect();
    comment.resize(256, 0);
    bytes.extend_from_slice(&comment);
    bytes.push(0x99);
    let mut c = Cursor::new(&bytes);
    let h = pmd_header(&mut c).unwrap();
    assert_eq!(c.position(), 283);
    assert_eq!(f32::from_bits(h.version.bits), 1.0);
    assert_eq!(h.name.value, "ミク");
    assert!(!h.name.substituted);
    assert_eq!(h.name.offset, 7);
    assert_eq!(h.comment.value, "A\0B\u{FFFD}");
    assert!(h.comment.substituted);
    assert_eq!(h.comment.offset, 27);
    assert_eq!(pmd_header(&mut Cursor::new(&bytes[..282])), Err(DecodeError::UnexpectedEof));
    assert_eq!(pmd_header(&mut Cursor::new(b"PMD")), Err(DecodeError::BadMagic));
    assert_eq!(pmd_header(&mut Cursor::new(b"Pm")), Err(DecodeError::BadMagic));
}

#[test]
fn fixed_fields_of_utf16() {
    assert_eq!(fixed_utf16(&[0x41, 0, 0, 0, 0, 0], 3).value, "A");
    assert_eq!(fixed_utf16(&[0, 0, 0, 0], 3).value, "");
    assert_eq!(fixed_utf16(&[], 3).value, "");
    let odd = fixed_utf16(&[0x41, 0, 0], 9);
    assert_eq!(odd.value, "A\u{FFFD}");
    assert!(odd.substituted);
    assert_eq!(odd.offset, 9);
    let field = field_text(b"name\0\0\0\0rest", 8, 5);
    assert_eq!((field.value.as_str(), field.substituted, field.offset), ("name", false, 5));
}
