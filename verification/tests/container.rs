use meshio::container::{
    decode_model, resolve_indexed, resolve_text, same_tag, tag_number, Schema, SectionKind,
};
use meshio::error::{Collection, DecodeError, Warning};
use meshio::flags::BoneFlags;
use meshio::m3::{AnimationReference, Evnt, IndexEntry};
use meshio::reference::{Budget, Reference};

fn put32(out: &mut Vec<u8>, v: u32) {
    out.extend_from_slice(&v.to_le_bytes());
}

fn put16(out: &mut Vec<u8>, v: u16) {
    out.extend_from_slice(&v.to_le_bytes());
}

fn schema() -> Schema {
    Schema { magic: *b"ABCD", bones: [3, 0, 0, 0], events: *b"TNVE", text: [33, 0, 0, 0] }
}

/// One bone record of 160 bytes whose numbers all derive from `seed`.
fn bone_bytes(seed: u32, parent: i16, flags: u32, name: (u32, u32)) -> Vec<u8> {
    let mut b = Vec::new();
    put32(&mut b, seed); // d
    put32(&mut b, name.0); // name.entries
    put32(&mut b, name.1); // name.index
    put32(&mut b, 0); // name.flags
    put32(&mut b, flags);
    put16(&mut b, parent as u16);
    put16(&mut b, (seed + 1) as u16); // s
    // location: header, two vectors, unknown
    put16(&mut b, 1);
    put16(&mut b, 2);
    put32(&mut b, seed + 2);
    for k in 0..6 {
        put32(&mut b, (seed as f32 + k as f32).to_bits());
    }
    put32(&mut b, 0xFFFF_FFFF);
    // rotation: header, two quaternions, unknown
    put16(&mut b, 0);
    put16(&mut b, 0);
    put32(&mut b, seed + 3);
    for k in 0..8 {
        put32(&mut b, (0.5f32 * k as f32).to_bits());
    }
    put32(&mut b, 7);
    // scale
    put16(&mut b, 1);
    put16(&mut b, 0);
    put32(&mut b, seed + 4);
    for _ in 0..6 {
        put32(&mut b, 1.0f32.to_bits());
    }
    put32(&mut b, 0);
    // ar
    put16(&mut b, 0);
    put16(&mut b, 6);
    put32(&mut b, seed + 5);
    put32(&mut b, 11);
    put32(&mut b, 12);
    put32(&mut b, 13);
    assert_eq!(b.len(), 160);
    b
}

fn container(sections: &[([u8; 4], u32, u32, Vec<u8>)]) -> Vec<u8> {
    let mut out = Vec::new();
    out.extend_from_slice(b"ABCD");
    put32(&mut out, 24);
    put32(&mut out, sections.len() as u32);
    put32(&mut out, 0);
    put32(&mut out, 0);
    put32(&mut out, 0);
    let mut offset = 24 + 16 * sections.len() as u32;
    for (tag, count, version, body) in sections {
        out.extend_from_slice(tag);
        put32(&mut out, offset);
        put32(&mut out, *count);
        put32(&mut out, *version);
        offset += body.len() as u32;
    }
    for (_, _, _, body) in sections {
        out.extend_from_slice(body);
    }
    out
}

#[test]
fn two_bones_in_one_section() {
    let mut body = bone_bytes(100, -1, 0x2A07, (0, 0));
    body.extend(bone_bytes(200, 0, 0x0200, (0, 0)));
    let bytes = container(&[([3, 0, 0, 0], 2, 1, body)]);
    let (model, warnings) = decode_model(&bytes, &schema(), 1000).unwrap();
    assert_eq!(model.bones.len(), 2);
    assert!(warnings.is_empty());
    let first = &model.bones[0].record;
    assert_eq!(first.d, 100);
    assert_eq!(first.parent, -1);
    assert_eq!(first.s, 101);
    assert_eq!(first.flags, BoneFlags { bits: 0x2A07 });
    assert!(first.flags.is_real());
    assert!(first.flags.animated());
    assert!(!first.flags.billboard1());
    match first.location {
        AnimationReference::Vector3 { header, init, null, unknown } => {
            assert_eq!(header.interpolation_type, 1);
            assert_eq!(header.anim_flags, 2);
            assert_eq!(header.anim_id, 102);
            assert_eq!(f32::from_bits(init.x.bits), 100.0);
            assert_eq!(f32::from_bits(init.y.bits), 101.0);
            assert_eq!(f32::from_bits(init.z.bits), 102.0);
            assert_eq!(f32::from_bits(null.x.bits), 103.0);
            assert_eq!(f32::from_bits(null.z.bits), 105.0);
            assert_eq!(unknown, -1);
        }
        _ => panic!("location is a vector"),
    }
    match first.rotation {
        AnimationReference::Quaternion { header, init, null, unknown } => {
            assert_eq!(header.anim_id, 103);
            assert_eq!(f32::from_bits(init.w.bits), 1.5);
            assert_eq!(f32::from_bits(null.x.bits), 2.0);
            assert_eq!(unknown, 7);
        }
        _ => panic!("rotation is a quaternion"),
    }
    match first.ar {
        AnimationReference::UInt32 { header, init, null, unknown } => {
            assert_eq!(header.anim_flags, 6);
            assert_eq!((init, null, unknown), (11, 12, 13));
        }
        _ => panic!("ar is a number"),
    }
    let second = &model.bones[1].record;
    assert_eq!(second.d, 200);
    assert_eq!(second.parent, 0);
    assert_eq!(model.bones[0].name, "");
    assert_eq!(model.header.index_offset, 24);
    assert_eq!(model.header.index_size, 1);
}

#[test]
fn bad_magic_is_refused() {
    let mut bytes = container(&[]);
    bytes[0] = b'X';
    assert_eq!(decode_model(&bytes, &schema(), 10), Err(DecodeError::BadMagic));
    assert_eq!(decode_model(b"AB", &schema(), 10), Err(DecodeError::BadMagic));
}

#[test]
fn short_header_is_refused() {
    assert_eq!(
        decode_model(b"ABCD\x18\x00\x00\x00", &schema(), 10),
        Err(DecodeError::UnexpectedEof),
    );
}

#[test]
fn unknown_section_is_kept_raw() {
    let bytes = container(&[(*b"WXYZ", 3, 0, vec![1, 2, 3, 4, 5]), ([3, 0, 0, 0], 0, 1, vec![])]);
    let (model, warnings) = decode_model(&bytes, &schema(), 1000).unwrap();
    assert!(model.bones.is_empty());
    assert_eq!(model.raw.len(), 1);
    assert_eq!(model.raw[0].bytes, vec![1, 2, 3, 4, 5]);
    assert_eq!(model.raw[0].entry.repetitions, 3);
    assert_eq!(
        warnings,
        vec![Warning::UnknownSection { section_type: u32::from_le_bytes(*b"WXYZ"), offset: 56 }]
    );
}

fn named_container(name: &[u8], bones: Vec<u8>, count: u32) -> Vec<u8> {
    container(
        &[([33, 0, 0, 0], name.len() as u32, 0, name.to_vec()), ([3, 0, 0, 0], count, 1, bones)],
    )
}

#[test]
fn names_are_resolved_through_the_index() {
    let mut bones = bone_bytes(1, -1, 0, (5, 0));
    bones.extend(bone_bytes(2, 0, 0, (3, 0)));
    bones.extend(bone_bytes(3, 1, 0, (0, 77)));
    let bytes = named_container(b"Root\0", bones, 3);
    let (model, warnings) = decode_model(&bytes, &schema(), 1000).unwrap();
    assert!(warnings.is_empty());
    assert_eq!(model.bones[0].name, "Root");
    assert_eq!(model.bones[1].name, "Roo");
    assert_eq!(model.bones[2].name, "");
    assert!(model.raw.is_empty());
    assert!(model.events.is_empty());
}

#[test]
fn malformed_names_are_replaced_and_reported() {
    let bones = bone_bytes(1, -1, 0, (4, 0));
    let bytes = named_container(&[b'a', 0xFF, b'b', 0], bones, 1);
    let (model, warnings) = decode_model(&bytes, &schema(), 1000).unwrap();
    assert_eq!(model.bones[0].name, "a\u{FFFD}b");
    assert_eq!(warnings, vec![Warning::TextSubstitution { position: 56 }]);
}

#[test]
fn dangling_names_are_refused() {
    let bones = bone_bytes(1, -1, 0, (4, 2));
    let bytes = named_container(b"abcd", bones, 1);
    assert_eq!(
        decode_model(&bytes, &schema(), 1000),
        Err(DecodeError::ReferenceOutOfBounds { offset: 2, length: 2 })
    );
    let long = bone_bytes(1, -1, 0, (400, 0));
    let bytes = named_container(b"abcd", long, 1);
    assert_eq!(
        decode_model(&bytes, &schema(), 1000),
        Err(DecodeError::ReferenceOutOfBounds { offset: 56, length: 220 })
    );
}

#[test]
fn stray_parents_and_flags_are_warnings() {
    let mut bones = bone_bytes(1, 2, 0x8, (0, 0));
    bones.extend(bone_bytes(2, -2, 0x1, (0, 0)));
    bones.extend(bone_bytes(3, 1, 0x2A07, (0, 0)));
    let bytes = container(&[([3, 0, 0, 0], 2, 1, bones.clone()), ([3, 0, 0, 0], 1, 1, vec![])]);
    let mut patched = bytes.clone();
    let second = 24 + 16 + 4;
    patched[second..second + 4].copy_from_slice(&(56u32 + 320).to_le_bytes());
    let (model, warnings) = decode_model(&patched, &schema(), 1000).unwrap();
    assert_eq!(model.bones.len(), 3);
    assert_eq!(model.bones[2].record.d, 3);
    assert_eq!(
        warnings,
        vec![
            Warning::ReservedFlags { value: 0x8, mask: BoneFlags::MASK },
            Warning::DanglingIndex {
                owner: Collection::Bones,
                record: 1,
                target: Collection::Bones,
                index: -2
            },
        ]
    );
    // without the third bone the second section lies outside the file
    let cut = &bytes[..bytes.len() - 160];
    assert_eq!(
        decode_model(cut, &schema(), 1000),
        Err(DecodeError::ReferenceOutOfBounds { offset: 56 + 480, length: 56 + 320 }),
    );
}

#[test]
fn events_of_every_version() {
    let body: Vec<u8> = (0..=255u8).cycle().take(96 + 104 + 108).collect();
    let mut v0 = body[..96].to_vec();
    let mut v1 = body[..104].to_vec();
    let mut v2 = body[..108].to_vec();
    for b in [&mut v0, &mut v1, &mut v2] {
        b[..12].copy_from_slice(&[0; 12]);
    }
    let bytes = container(&[(*b"TNVE", 1, 0, v0), (*b"TNVE", 1, 1, v1), (*b"TNVE", 1, 2, v2)]);
    let (model, warnings) = decode_model(&bytes, &schema(), 1000).unwrap();
    assert!(warnings.is_empty());
    assert_eq!(model.events.len(), 3);
    assert!(matches!(model.events[0].record, Evnt::V0 { .. }));
    assert!(matches!(model.events[1].record, Evnt::V1 { .. }));
    assert!(matches!(model.events[2].record, Evnt::V2 { .. }));
    assert_eq!(model.events[2].record.normalize().unknown_e5f1b2a7, 0x6B6A_6968);
}

#[test]
fn sections_of_unsupported_versions_are_kept_raw() {
    let bytes = container(&[
        (*b"TNVE", 1, 3, vec![9; 10]),
        ([3, 0, 0, 0], 1, 2, vec![8; 6]),
        ([33, 0, 0, 0], 2, 0, b"ab".to_vec()),
    ]);
    let (model, warnings) = decode_model(&bytes, &schema(), 1000).unwrap();
    assert!(model.bones.is_empty() && model.events.is_empty());
    assert_eq!(model.raw.len(), 2);
    assert_eq!(model.raw[0].bytes, vec![9; 10]);
    assert_eq!(model.raw[1].bytes, vec![8; 6]);
    assert_eq!(
        warnings,
        vec![
            Warning::UnsupportedSection { section_type: u32::from_le_bytes(*b"TNVE"), version: 3 },
            Warning::UnsupportedSection { section_type: 3, version: 2 },
        ]
    );
}

#[test]
fn the_last_raw_section_runs_to_the_end() {
    let mut bytes = container(&[(*b"????", 1, 0, vec![1, 2]), (*b"!!!!", 1, 0, vec![3])]);
    bytes.extend_from_slice(&[4, 5]);
    let (model, _) = decode_model(&bytes, &schema(), 1000).unwrap();
    assert_eq!(model.raw[0].bytes, vec![1, 2]);
    assert_eq!(model.raw[1].bytes, vec![3, 4, 5]);
    let mut far = container(&[(*b"????", 1, 0, vec![])]);
    far[28..32].copy_from_slice(&1000u32.to_le_bytes());
    let (model, warnings) = decode_model(&far, &schema(), 1000).unwrap();
    assert!(model.raw[0].bytes.is_empty());
    assert_eq!(
        warnings,
        vec![Warning::UnknownSection { section_type: u32::from_le_bytes(*b"????"), offset: 1000 }]
    );
}

#[test]
fn truncated_sections_are_refused() {
    let body = bone_bytes(1, -1, 0, (0, 0));
    let bytes = container(&[([3, 0, 0, 0], 2, 1, body)]);
    assert_eq!(
        decode_model(&bytes, &schema(), 1000),
        Err(DecodeError::ReferenceOutOfBounds { offset: 40, length: 200 })
    );
    let mut table = container(&[]);
    table[8..12].copy_from_slice(&1u32.to_le_bytes());
    assert_eq!(
        decode_model(&table, &schema(), 1000),
        Err(DecodeError::ReferenceOutOfBounds { offset: 24, length: 24 })
    );
    table[4..8].copy_from_slice(&25u32.to_le_bytes());
    table[8..12].copy_from_slice(&0u32.to_le_bytes());
    assert_eq!(
        decode_model(&table, &schema(), 1000),
        Err(DecodeError::ReferenceOutOfBounds { offset: 25, length: 24 })
    );
}

#[test]
fn the_ceiling_covers_index_records_and_names() {
    let bones = bone_bytes(1, -1, 0, (5, 0));
    let bytes = named_container(b"Root\0", bones, 1);
    // two lines of the index, one bone, five bytes of name
    assert!(decode_model(&bytes, &schema(), 8).is_ok());
    assert_eq!(
        decode_model(&bytes, &schema(), 7),
        Err(DecodeError::RecordLimitExceeded { limit: 7 }),
    );
    assert_eq!(
        decode_model(&bytes, &schema(), 2),
        Err(DecodeError::RecordLimitExceeded { limit: 2 }),
    );
    assert_eq!(
        decode_model(&bytes, &schema(), 1),
        Err(DecodeError::RecordLimitExceeded { limit: 1 }),
    );
    assert_eq!(
        decode_model(&bytes, &schema(), 0),
        Err(DecodeError::RecordLimitExceeded { limit: 0 }),
    );
}

#[test]
fn decoding_twice_gives_the_same() {
    let mut bones = bone_bytes(1, 5, 0x8, (5, 0));
    bones.extend(bone_bytes(2, 0, 0, (3, 0)));
    let bytes = container(&[
        ([33, 0, 0, 0], 5, 0, vec![0xC0, b'o', b'o', b't', 0]),
        (*b"WHAT", 1, 0, vec![1, 2, 3]),
        ([3, 0, 0, 0], 2, 1, bones),
    ]);
    let first = decode_model(&bytes, &schema(), 1000);
    let second = decode_model(&bytes, &schema(), 1000);
    assert_eq!(first, second);
    let (model, warnings) = first.unwrap();
    assert_eq!(model.bones.len(), 2);
    assert_eq!(warnings.len(), 5);
    assert_eq!(
        decode_model(&bytes[..90], &schema(), 1000),
        decode_model(&bytes[..90], &schema(), 1000),
    );
}

#[test]
fn the_schema_decides_what_a_section_is() {
    let s = schema();
    assert_eq!(s.kind_of([3, 0, 0, 0]), SectionKind::Bones);
    assert_eq!(s.kind_of(*b"TNVE"), SectionKind::Events);
    assert_eq!(s.kind_of([33, 0, 0, 0]), SectionKind::Text);
    assert_eq!(s.kind_of([3, 0, 0, 1]), SectionKind::Unknown);
    assert_eq!(tag_number(b"\x01\x02\x03\x04"), 0x0403_0201);
    assert!(same_tag(b"ABCD", b"ABCD"));
    assert!(!same_tag(b"ABCD", b"ABCE"));
    let twice = Schema { magic: *b"ABCD", bones: *b"SAME", events: *b"SAME", text: *b"SAME" };
    assert_eq!(twice.kind_of(*b"SAME"), SectionKind::Bones);
}

#[test]
fn references_into_the_index() {
    let table = vec![
        IndexEntry { tag: *b"__8U", offset: 2, repetitions: 4, version: 0 },
        IndexEntry { tag: *b"_23U", offset: 0, repetitions: 1, version: 0 },
        IndexEntry { tag: *b"TNVE", offset: 0, repetitions: 1, version: 9 },
    ];
    let bytes = [1u8, 2, 3, 4, 5, 6];
    let mut budget = Budget::new(10);
    let r = Reference { entries: 3, index: 0, flags: 0 };
    assert_eq!(resolve_indexed::<u8>(&bytes, &table, &r, &mut budget), Ok(vec![3, 4, 5]));
    let word = Reference { entries: 1, index: 1, flags: 0 };
    assert_eq!(resolve_indexed::<u32>(&bytes, &table, &word, &mut budget), Ok(vec![0x0403_0201]));
    assert_eq!(budget.used, 4);
    let null = Reference { entries: 0, index: 99, flags: 0 };
    assert_eq!(resolve_indexed::<u32>(&bytes, &table, &null, &mut budget), Ok(vec![]));
    let stray = Reference { entries: 1, index: 3, flags: 0 };
    assert_eq!(
        resolve_indexed::<u8>(&bytes, &table, &stray, &mut budget),
        Err(DecodeError::ReferenceOutOfBounds { offset: 3, length: 3 })
    );
    let old = Reference { entries: 1, index: 2, flags: 0 };
    assert_eq!(
        resolve_indexed::<Evnt>(&bytes, &table, &old, &mut budget).err(),
        Some(DecodeError::UnsupportedVersion {
            got: 9,
            supported_range: meshio::error::VersionRange { min: 0, max: 2 }
        })
    );
    let text = resolve_text(
        &bytes,
        &table,
        &Reference { entries: 4, index: 0, flags: 0 },
        &mut budget,
    );
    assert_eq!(text.unwrap().value, "\u{3}\u{4}\u{5}\u{6}");
    assert_eq!(budget.used, 8);
}

