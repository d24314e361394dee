use meshio::error::{Collection, DecodeError, VersionRange, Warning};
use meshio::m3::{Bat, MaterialReference, Region, Vertex};
use meshio::md34::{check_indices, check_model, decode};
use meshio::modl::{ModelData, ModelFlags, VertexFlags};
use meshio::reference::{Record, Reference};

/// A file under construction: its sections, in the order of the tag index.
struct File {
    sections: Vec<([u8; 4], u32, u32, Vec<u8>)>,
}

fn put32(out: &mut Vec<u8>, v: u32) {
    out.extend_from_slice(&v.to_le_bytes());
}

fn put16(out: &mut Vec<u8>, v: u16) {
    out.extend_from_slice(&v.to_le_bytes());
}

fn reference(entries: u32, index: u32) -> Vec<u8> {
    let mut out = Vec::new();
    put32(&mut out, entries);
    put32(&mut out, index);
    put32(&mut out, 0);
    out
}

impl File {
    fn new() -> File {
        File { sections: Vec::new() }
    }

    /// Adds a section and returns the reference to it.
    fn add(&mut self, tag: &[u8; 4], count: u32, version: u32, body: Vec<u8>) -> Vec<u8> {
        self.sections.push((*tag, count, version, body));
        reference(count, self.sections.len() as u32 - 1)
    }

    fn bytes(&self, model: &[u8]) -> Vec<u8> {
        let mut out = Vec::new();
        out.extend_from_slice(b"43DM");
        let bodies: usize = self.sections.iter().map(|s| s.3.len()).sum();
        put32(&mut out, 24 + bodies as u32);
        put32(&mut out, self.sections.len() as u32);
        out.extend_from_slice(model);
        let mut offsets = Vec::new();
        for (_, _, _, body) in &self.sections {
            offsets.push(out.len() as u32);
            out.extend_from_slice(body);
        }
        for (k, (tag, count, version, _)) in self.sections.iter().enumerate() {
            out.extend_from_slice(tag);
            put32(&mut out, offsets[k]);
            put32(&mut out, *count);
            put32(&mut out, *version);
        }
        out
    }
}

fn bone(parent: i16, flags: u32, name: &[u8]) -> Vec<u8> {
    let mut out = vec![0u8; 160];
    out[4..16].copy_from_slice(name);
    out[16..20].copy_from_slice(&flags.to_le_bytes());
    out[20..22].copy_from_slice(&parent.to_le_bytes());
    out
}

fn region(vertices: u32) -> Vec<u8> {
    let mut out = vec![0u8; 36];
    out[12..16].copy_from_slice(&vertices.to_le_bytes());
    out
}

fn object(region: u16, material: u16) -> Vec<u8> {
    let mut out = Vec::new();
    put32(&mut out, 0);
    put16(&mut out, region);
    put32(&mut out, 0);
    put16(&mut out, material);
    put16(&mut out, 0xFFFF);
    out
}

fn model_record(patches: &[(usize, &[u8])]) -> Vec<u8> {
    let mut out = vec![0u8; 788];
    for (at, bytes) in patches {
        out[*at..*at + bytes.len()].copy_from_slice(bytes);
    }
    out
}

const NAME: usize = 0;
const BONES: usize = 80;
const VFLAGS: usize = 96;
const VERTICES: usize = 100;
const DIVISIONS: usize = 112;
const LOOKUP: usize = 124;
const ATTACHMENTS: usize = 232;
const MATERIALS: usize = 304;

fn whole() -> Vec<u8> {
    let mut f = File::new();
    let name = f.add(b"RAHC", 6, 0, b"Zergl\0".to_vec());
    let root = f.add(b"RAHC", 5, 0, b"Root\0".to_vec());
    let arm = f.add(b"RAHC", 4, 0, b"Arm\0".to_vec());
    let mut bones = bone(-1, 0x2A07, &root);
    bones.extend(bone(0, 0x0200, &arm));
    let bones = f.add(b"ENOB", 2, 1, bones);
    let lookup = f.add(b"_61U", 3, 0, vec![0, 0, 1, 0, 1, 0]);
    let vertices: Vec<u8> = (0..64).collect();
    let vertices = f.add(b"__8U", 64, 0, vertices);
    let faces = f.add(b"_61U", 3, 0, vec![0, 0, 1, 0, 1, 0]);
    let regions = f.add(b"NGER", 1, 3, region(2));
    let objects = f.add(b"_TAB", 1, 1, object(0, 0));
    let mut division = Vec::new();
    division.extend(&faces);
    division.extend(&regions);
    division.extend(&objects);
    division.extend(reference(0, 0));
    put32(&mut division, 77);
    let divisions = f.add(b"_VID", 1, 2, division);
    let hook = f.add(b"RAHC", 5, 0, b"Hook\0".to_vec());
    let mut attachment = Vec::new();
    put32(&mut attachment, 0xFFFF_FFFF);
    attachment.extend(&hook);
    put32(&mut attachment, 1);
    let attachments = f.add(b"_TTA", 1, 1, attachment);
    let mut material = Vec::new();
    put32(&mut material, 1);
    put32(&mut material, 0);
    let materials = f.add(b"MTAM", 1, 0, material);
    let record = model_record(&[
        (NAME, &name),
        (12, &0x10_0000u32.to_le_bytes()),
        (BONES, &bones),
        (VFLAGS, &0x182007Du32.to_le_bytes()),
        (VERTICES, &vertices),
        (DIVISIONS, &divisions),
        (LOOKUP, &lookup),
        (ATTACHMENTS, &attachments),
        (MATERIALS, &materials),
    ]);
    let model = f.add(b"LDOM", 1, 23, record);
    f.bytes(&model)
}

#[test]
fn model_record_sizes() {
    assert_eq!(ModelData::width(23), Some(788));
    assert_eq!(ModelData::width(24), None);
    assert_eq!(ModelData::width(25), Some(812));
    assert_eq!(ModelData::width(26), Some(824));
    assert_eq!(ModelData::width(27), None);
    assert_eq!(ModelData::width(28), Some(848));
    assert_eq!(ModelData::width(29), Some(860));
    assert_eq!(ModelData::range(), VersionRange { min: 23, max: 29 });
    assert_eq!(Region::width(3), Some(36));
    assert_eq!(Region::width(4), Some(40));
    assert_eq!(Region::width(5), Some(48));
    assert_eq!(Bat::width(1), Some(14));
    assert_eq!(Vertex::width(0x182007D), Some(32));
}

#[test]
fn a_whole_model_is_walked() {
    let bytes = whole();
    let (model, warnings) = decode(&bytes, 10_000).unwrap();
    assert!(warnings.is_empty());
    assert_eq!(model.name, "Zergl");
    assert!(matches!(model.data, ModelData::V23 { .. }));
    assert_eq!(model.data.vflags(), VertexFlags { bits: 0x182007D });
    match model.data {
        ModelData::V23 { flags, unique_unknown_number, .. } => {
            assert_eq!(flags, ModelFlags { bits: 0x10_0000 });
            assert!(flags.has_mesh());
            assert_eq!(unique_unknown_number, 0);
        }
        _ => panic!("version 23"),
    }
    assert_eq!(model.bones.len(), 2);
    assert_eq!(model.bones[0].name, "Root");
    assert_eq!(model.bones[1].name, "Arm");
    assert_eq!(model.bones[1].record.parent, 0);
    assert_eq!(model.bone_lookup, vec![0, 1, 1]);
    assert_eq!(model.vertices.len(), 2);
    assert_eq!(model.vertices[1].normalize().position.x.bits, 0x2322_2120);
    assert_eq!(model.divisions.len(), 1);
    assert_eq!(model.divisions[0].data.unknown, 77);
    assert_eq!(model.divisions[0].faces, vec![0, 1, 1]);
    assert_eq!(model.divisions[0].regions.len(), 1);
    assert!(matches!(model.divisions[0].regions[0], Region::V3 { vertices: 2, .. }));
    assert_eq!(
        model.divisions[0].objects,
        vec![Bat {
            unknown0: 0,
            region_index: 0,
            unknown1: 0,
            material_reference_index: 0,
            unknown2: -1
        }]
    );
    assert_eq!(model.attachments.len(), 1);
    assert_eq!(model.attachments[0].name, "Hook");
    assert_eq!(model.attachments[0].record.bone, 1);
    assert_eq!(model.attachments[0].record.unknown, -1);
    assert_eq!(model.material_references, vec![MaterialReference { kind: 1, index: 0 }]);
    assert_eq!(decode(&bytes, 10_000), decode(&bytes, 10_000));
}

#[test]
fn the_ceiling_counts_every_resolved_record() {
    let bytes = whole();
    // 14 lines of the index, 1 model record, 6 + 5 + 4 + 5 bytes of names,
    // 2 bones, 3 lookups, 2 vertices, 1 division, 3 faces, 1 region,
    // 1 object, 1 attachment, 1 material reference
    let needed = 14 + 1 + 20 + 2 + 3 + 2 + 1 + 3 + 1 + 1 + 1 + 1;
    assert!(decode(&bytes, needed).is_ok());
    assert_eq!(
        decode(&bytes, needed - 1),
        Err(DecodeError::RecordLimitExceeded { limit: needed - 1 }),
    );
    assert_eq!(decode(&bytes, 13), Err(DecodeError::RecordLimitExceeded { limit: 13 }));
}

#[test]
fn files_without_a_body_fail() {
    let f = File::new();
    assert_eq!(decode(&f.bytes(&reference(0, 0)), 100), Err(DecodeError::UnexpectedEof));
    assert_eq!(
        decode(&f.bytes(&reference(1, 0)), 100),
        Err(DecodeError::ReferenceOutOfBounds { offset: 0, length: 0 })
    );
    assert_eq!(decode(b"MD34", 100), Err(DecodeError::BadMagic));
    assert_eq!(decode(b"43DM\0\0\0\0", 100), Err(DecodeError::UnexpectedEof));
}

#[test]
fn an_unsupported_body_fails_the_decode() {
    let mut f = File::new();
    let model = f.add(b"LDOM", 1, 24, vec![0; 900]);
    assert_eq!(
        decode(&f.bytes(&model), 100),
        Err(DecodeError::UnsupportedVersion {
            got: 24,
            supported_range: VersionRange { min: 23, max: 29 }
        })
    );
    let mut short = File::new();
    let model = short.add(b"LDOM", 1, 29, vec![0; 860]);
    let mut bytes = short.bytes(&model);
    assert!(decode(&bytes, 100).is_ok());
    let line = bytes.len() - 16;
    bytes[line + 4..line + 8].copy_from_slice(&41u32.to_le_bytes());
    assert_eq!(
        decode(&bytes, 100),
        Err(DecodeError::ReferenceOutOfBounds { offset: 41, length: 24 + 860 + 16 })
    );
}

#[test]
fn later_versions_hold_the_same_references() {
    for (version, size) in [(25u32, 812usize), (26, 824), (28, 848), (29, 860)] {
        let mut f = File::new();
        let name = f.add(b"RAHC", 3, 0, b"ab\0".to_vec());
        let mut record = vec![0u8; size];
        record[..12].copy_from_slice(&name);
        let model = f.add(b"LDOM", 1, version, record);
        let (m, warnings) = decode(&f.bytes(&model), 100).unwrap();
        assert_eq!(m.name, "ab");
        assert!(warnings.is_empty());
        assert_eq!(m.data.name(), Reference { entries: 3, index: 0, flags: 0 });
        assert_eq!(m.data.bones(), Reference { entries: 0, index: 0, flags: 0 });
        let tag = match m.data {
            ModelData::V23 { .. } => 23,
            ModelData::V25 { .. } => 25,
            ModelData::V26 { .. } => 26,
            ModelData::V28 { .. } => 28,
            ModelData::V29 { .. } => 29,
        };
        assert_eq!(tag, version);
    }
}

#[test]
fn unknown_vertex_layouts_fail_the_decode() {
    let mut f = File::new();
    let vertices = f.add(b"__8U", 64, 0, (0..64).collect());
    let record = model_record(&[(VFLAGS, &0x1234u32.to_le_bytes()), (VERTICES, &vertices)]);
    let model = f.add(b"LDOM", 1, 23, record);
    assert_eq!(
        decode(&f.bytes(&model), 1000),
        Err(DecodeError::UnsupportedVersion {
            got: 0x1234,
            supported_range: VersionRange { min: 0x182007D, max: 0x4182007D }
        })
    );
    let empty = model_record(&[(VFLAGS, &0x1234u32.to_le_bytes())]);
    let mut g = File::new();
    let model = g.add(b"LDOM", 1, 23, empty);
    assert!(decode(&g.bytes(&model), 1000).unwrap().0.vertices.is_empty());
}

#[test]
fn vertex_bytes_that_do_not_fill_a_vertex_are_left() {
    let mut f = File::new();
    let vertices = f.add(b"__8U", 71, 0, (0..71).collect());
    let record = model_record(&[(VFLAGS, &0x1860061u32.to_le_bytes()), (VERTICES, &vertices)]);
    let model = f.add(b"LDOM", 1, 23, record);
    let (m, _) = decode(&f.bytes(&model), 1000).unwrap();
    assert_eq!(m.vertices.len(), 1);
    assert!(matches!(m.vertices[0], Vertex::Format1860061 { .. }));
}

#[test]
fn stray_indices_are_warnings() {
    let mut f = File::new();
    let mut bones = bone(1, 0x8000_0000, &reference(0, 0));
    bones.extend(bone(2, 0, &reference(0, 0)));
    let bones = f.add(b"ENOB", 2, 1, bones);
    let lookup = f.add(b"_61U", 3, 0, vec![1, 0, 2, 0, 0xFF, 0xFF]);
    let objects = f.add(b"_TAB", 2, 1, [object(0, 1), object(5, 0)].concat());
    let mut division = Vec::new();
    division.extend(reference(0, 0));
    division.extend(reference(0, 0));
    division.extend(&objects);
    division.extend(reference(0, 0));
    put32(&mut division, 0);
    let divisions = f.add(b"_VID", 1, 2, division);
    let mut attachment = Vec::new();
    put32(&mut attachment, 0);
    attachment.extend(reference(0, 0));
    put32(&mut attachment, 0x8000_0000);
    let attachments = f.add(b"_TTA", 1, 1, attachment);
    let materials = f.add(b"MTAM", 1, 0, vec![0; 8]);
    let record = model_record(&[
        (BONES, &bones),
        (DIVISIONS, &divisions),
        (LOOKUP, &lookup),
        (ATTACHMENTS, &attachments),
        (MATERIALS, &materials),
    ]);
    let model = f.add(b"LDOM", 1, 23, record);
    let (m, warnings) = decode(&f.bytes(&model), 1000).unwrap();
    let dangling = |owner, record, target, index| Warning::DanglingIndex {
        owner,
        record,
        target,
        index,
    };
    assert_eq!(
        warnings,
        vec![
            Warning::ReservedFlags { value: 0x8000_0000, mask: 0x2F57 },
            dangling(Collection::Bones, 1, Collection::Bones, 2),
            dangling(Collection::BoneLookup, 1, Collection::Bones, 2),
            dangling(Collection::BoneLookup, 2, Collection::Bones, 0xFFFF),
            dangling(Collection::Attachments, 0, Collection::Bones, 0x8000_0000),
            dangling(Collection::Objects, 0, Collection::Regions, 0),
            dangling(Collection::Objects, 1, Collection::Regions, 5),
            dangling(Collection::Objects, 0, Collection::MaterialReferences, 1),
        ]
    );
    let mut again = Vec::new();
    check_model(&m, &mut again);
    assert_eq!(again, warnings);
}

#[test]
fn malformed_model_names_are_replaced_and_reported() {
    let mut f = File::new();
    let name = f.add(b"RAHC", 3, 0, vec![0xFF, b'x', 0]);
    let record = model_record(&[(NAME, &name)]);
    let model = f.add(b"LDOM", 1, 23, record);
    let (m, warnings) = decode(&f.bytes(&model), 1000).unwrap();
    assert_eq!(m.name, "\u{FFFD}x");
    assert_eq!(warnings, vec![Warning::TextSubstitution { position: 24 }]);
}

#[test]
fn references_that_point_nowhere_fail_the_decode() {
    let mut f = File::new();
    let record = model_record(&[(BONES, &reference(1, 9))]);
    let model = f.add(b"LDOM", 1, 23, record);
    assert_eq!(
        decode(&f.bytes(&model), 1000),
        Err(DecodeError::ReferenceOutOfBounds { offset: 9, length: 1 })
    );
    let mut g = File::new();
    let faces = g.add(b"_61U", 2, 0, vec![1, 0, 2, 0]);
    let mut division = Vec::new();
    division.extend(reference(3, 0));
    division.extend(reference(0, 0));
    division.extend(reference(0, 0));
    division.extend(reference(0, 0));
    put32(&mut division, 0);
    assert_eq!(faces, reference(2, 0));
    let divisions = g.add(b"_VID", 1, 2, division);
    let record = model_record(&[(DIVISIONS, &divisions)]);
    let model = g.add(b"LDOM", 1, 23, record);
    let bytes = g.bytes(&model);
    // three faces from offset 24 on lie inside the file, so they resolve
    // into the bytes that follow the two that were meant
    assert_eq!(decode(&bytes, 1000).unwrap().0.divisions[0].faces.len(), 3);
    let mut h = File::new();
    let record = model_record(&[(LOOKUP, &reference(2, 0))]);
    let model = h.add(b"LDOM", 1, 5, record);
    assert_eq!(
        decode(&h.bytes(&model), 1000),
        Err(DecodeError::UnsupportedVersion {
            got: 5,
            supported_range: VersionRange { min: 23, max: 29 }
        })
    );
}

#[test]
fn index_checks() {
    let mut warnings = vec![Warning::UnknownSection { section_type: 1, offset: 2 }];
    check_indices(Collection::Objects, Collection::Regions, &vec![0, 3, -1, 2], 3, &mut warnings);
    assert_eq!(
        warnings,
        vec![
            Warning::UnknownSection { section_type: 1, offset: 2 },
            Warning::DanglingIndex {
                owner: Collection::Objects,
                record: 1,
                target: Collection::Regions,
                index: 3
            },
            Warning::DanglingIndex {
                owner: Collection::Objects,
                record: 2,
                target: Collection::Regions,
                index: -1
            },
        ]
    );
}
