use meshio::error::{DecodeError, VersionRange};
use meshio::flags::{
    is_two_sided_keyword, is_unshaded_keyword, shading, BoneFlags, JointFlags, MaterialFlags,
    Shading,
};
use meshio::m3::{
    AnimationBlock, AnimationReference, AnimationReferenceHeader, Bnds, Col, Event, Evnt,
    IndexEntry, Matrix44, Stc, Vec2, Vec3, Vec4, Vector2AsInt16, Vector3AsFixed8, Vertex,
};
use meshio::primitives::{Cursor, Float32};
use meshio::reference::{decode_record, resolve, Addressing, Budget, Record, Reference};

fn f(v: f32) -> Float32 {
    Float32 { bits: v.to_bits() }
}

fn counting(n: usize) -> Vec<u8> {
    (0..n).map(|k| k as u8).collect()
}

#[test]
fn reference_is_three_numbers() {
    let mut bytes = Vec::new();
    for v in [7u32, 0x0102_0304, 0xFFFF_FFFF] {
        bytes.extend_from_slice(&v.to_le_bytes());
    }
    let mut c = Cursor::new(&bytes);
    let r: Reference = decode_record(&mut c, 0).unwrap();
    assert_eq!(r, Reference { entries: 7, index: 0x0102_0304, flags: 0xFFFF_FFFF });
    assert_eq!(c.position(), 12);
    assert_eq!(Reference::width(0), Some(12));
    assert_eq!(Reference::width(1), None);
    assert_eq!(Reference::range(), VersionRange { min: 0, max: 0 });
}

#[test]
fn unsupported_versions_are_refused() {
    let bytes = counting(200);
    let mut c = Cursor::new(&bytes);
    assert_eq!(
        decode_record::<Evnt>(&mut c, 3),
        Err(DecodeError::UnsupportedVersion {
            got: 3,
            supported_range: VersionRange { min: 0, max: 2 }
        })
    );
    assert_eq!(c.position(), 0);
    assert_eq!(
        decode_record::<Vertex>(&mut c, 0x182007C),
        Err(DecodeError::UnsupportedVersion {
            got: 0x182007C,
            supported_range: VersionRange { min: 0x182007D, max: 0x4182007D }
        })
    );
    assert_eq!(
        decode_record::<AnimationReference>(&mut c, 11),
        Err(DecodeError::UnsupportedVersion {
            got: 11,
            supported_range: VersionRange { min: 0, max: 10 }
        })
    );
    assert_eq!(
        decode_record::<Reference>(&mut Cursor::new(&[]), 9),
        Err(DecodeError::UnsupportedVersion {
            got: 9,
            supported_range: VersionRange { min: 0, max: 0 }
        })
    );
}

#[test]
fn every_event_version_has_its_variant() {
    let bytes = counting(120);
    let widths = [96usize, 104, 108];
    for version in 0..3u32 {
        let mut c = Cursor::new(&bytes);
        let event: Evnt = decode_record(&mut c, version).unwrap();
        assert_eq!(c.position(), widths[version as usize]);
        assert_eq!(Evnt::width(version), Some(widths[version as usize]));
        let tag = match event {
            Evnt::V0 { .. } => 0,
            Evnt::V1 { .. } => 1,
            Evnt::V2 { .. } => 2,
        };
        assert_eq!(tag, version);
        let mut short = Cursor::new(&bytes[..widths[version as usize] - 1]);
        assert_eq!(decode_record::<Evnt>(&mut short, version), Err(DecodeError::UnexpectedEof));
        assert_eq!(short.position(), 0);
    }
}

#[test]
fn event_fields_follow_the_layout() {
    let bytes = counting(120);
    let v0: Evnt = decode_record(&mut Cursor::new(&bytes), 0).unwrap();
    match v0 {
        Evnt::V0 {
            name,
            unknown_76ff2940,
            unknown_97b2ea12,
            unknown_294cc515,
            matrix,
            unknown_7275bfa0,
            unknown_a20de85,
            unknown_76cf1db0,
        } => {
            assert_eq!(
                name,
                Reference { entries: 0x0302_0100, index: 0x0706_0504, flags: 0x0B0A_0908 }
            );
            assert_eq!(unknown_76ff2940, 0x0F0E_0D0C);
            assert_eq!(unknown_97b2ea12, 0x1110);
            assert_eq!(unknown_294cc515, 0x1312);
            assert_eq!(matrix.x.x.bits, 0x1716_1514);
            assert_eq!(matrix.w.w.bits, 0x5352_5150);
            assert_eq!(unknown_7275bfa0, 0x5756_5554);
            assert_eq!(unknown_a20de85, 0x5B5A_5958);
            assert_eq!(unknown_76cf1db0, 0x5F5E_5D5C);
        }
        _ => panic!("version 0 is the first variant"),
    }
    let v2: Evnt = decode_record(&mut Cursor::new(&bytes), 2).unwrap();
    match v2 {
        Evnt::V2 { unknown_2a403b40, unknown_76cf1db0, unknown_e5f1b2a7, .. } => {
            assert_eq!(
                unknown_2a403b40,
                Reference { entries: 0x5B5A_5958, index: 0x5F5E_5D5C, flags: 0x6362_6160 }
            );
            assert_eq!(unknown_76cf1db0, 0x6766_6564);
            assert_eq!(unknown_e5f1b2a7, 0x6B6A_6968);
        }
        _ => panic!("version 2 is the third variant"),
    }
}

#[test]
fn events_normalize_without_loss() {
    let bytes = counting(120);
    for version in 0..3u32 {
        let event: Evnt = decode_record(&mut Cursor::new(&bytes), version).unwrap();
        let normal: Event = event.normalize();
        assert_eq!(normal.version, version);
        assert_eq!(normal.variant(), event);
        if version == 0 {
            assert_eq!(normal.unknown_2a403b40, Reference { entries: 0, index: 0, flags: 0 });
            assert_eq!(normal.unknown_a20de85, 0x5B5A_5958);
        } else {
            assert_eq!(normal.unknown_a20de85, 0);
        }
        if version < 2 {
            assert_eq!(normal.unknown_e5f1b2a7, 0);
        }
    }
}

#[test]
fn every_vertex_format_has_its_layout() {
    let formats: [(u32, usize, bool, u8); 16] = [
        (0x182007D, 32, false, 1),
        (0x1820261, 36, true, 1),
        (0x182027D, 36, true, 1),
        (0x1860061, 36, false, 2),
        (0x186007D, 36, false, 2),
        (0x1860261, 40, true, 2),
        (0x186027D, 40, true, 2),
        (0x18E0061, 40, false, 3),
        (0x18E007D, 40, false, 3),
        (0x18E0261, 44, true, 3),
        (0x18E027D, 44, true, 3),
        (0x19E0061, 44, false, 4),
        (0x19E007D, 44, false, 4),
        (0x19E0261, 48, true, 4),
        (0x19E027D, 48, true, 4),
        (0x4182007D, 36, false, 2),
    ];
    let bytes = counting(64);
    for (format, width, color, uvs) in formats {
        assert_eq!(Vertex::width(format), Some(width));
        let mut c = Cursor::new(&bytes);
        let vertex: Vertex = decode_record(&mut c, format).unwrap();
        assert_eq!(c.position(), width);
        let normal = vertex.normalize();
        assert_eq!(normal.format, format);
        assert_eq!(normal.color.is_some(), color);
        assert_eq!(normal.uv_count, uvs);
        assert_eq!(normal.position.x.bits, 0x0302_0100);
        assert_eq!(normal.bone_weights, [12, 13, 14, 15]);
        assert_eq!(normal.bone_lookup_indices, [16, 17, 18, 19]);
        assert_eq!(normal.normal, Vector3AsFixed8 { x: 20, y: 21, z: 22 });
        assert_eq!(normal.sign, 23);
        let mut at = 24u8;
        if color {
            assert_eq!(normal.color, Some(Col { blue: 24, green: 25, red: 26, alpha: 27 }));
            at += 4;
        }
        for k in 0..4u8 {
            let want = if k < uvs {
                let lo = at + 4 * k;
                Vector2AsInt16 {
                    x: i16::from_le_bytes([lo, lo + 1]),
                    y: i16::from_le_bytes([lo + 2, lo + 3]),
                }
            } else {
                Vector2AsInt16 { x: 0, y: 0 }
            };
            assert_eq!(normal.uvs[k as usize], want);
        }
        let tail = at + 4 * uvs;
        assert_eq!(normal.tangent, Vector3AsFixed8 { x: tail, y: tail + 1, z: tail + 2 });
        assert_eq!(normal.unused, tail + 3);
        let mut short = Cursor::new(&bytes[..width - 1]);
        assert_eq!(decode_record::<Vertex>(&mut short, format), Err(DecodeError::UnexpectedEof));
    }
}

#[test]
fn animation_references_by_kind() {
    let widths = [36usize, 28, 44, 20, 16, 16, 14, 20, 20, 20, 68];
    let bytes = counting(80);
    for (kind, width) in widths.iter().enumerate() {
        assert_eq!(AnimationReference::width(kind as u32), Some(*width));
        let mut c = Cursor::new(&bytes);
        let value: AnimationReference = decode_record(&mut c, kind as u32).unwrap();
        assert_eq!(c.position(), *width);
        let header = AnimationReferenceHeader {
            interpolation_type: 0x0100,
            anim_flags: 0x0302,
            anim_id: 0x0706_0504,
        };
        match (kind, value) {
            (0, AnimationReference::Vector3 { header: h, init, null, unknown }) => {
                assert_eq!(h, header);
                assert_eq!(init.x.bits, 0x0B0A_0908);
                assert_eq!(null.z.bits, 0x1F1E_1D1C);
                assert_eq!(unknown, 0x2322_2120);
            }
            (1, AnimationReference::Vector2 { init, null, .. }) => {
                assert_eq!(
                    init,
                    Vec2 { x: Float32 { bits: 0x0B0A_0908 }, y: Float32 { bits: 0x0F0E_0D0C } },
                );
                assert_eq!(null.y.bits, 0x1716_1514);
            }
            (2, AnimationReference::Quaternion { init, null, unknown, .. }) => {
                assert_eq!(init.w.bits, 0x1716_1514);
                assert_eq!(null.x.bits, 0x1B1A_1918);
                assert_eq!(unknown, 0x2B2A_2928);
            }
            (3, AnimationReference::UInt32 { init, null, unknown, .. }) => {
                assert_eq!((init, null, unknown), (0x0B0A_0908, 0x0F0E_0D0C, 0x1312_1110));
            }
            (4, AnimationReference::UInt16 { init, null, unknown, .. }) => {
                assert_eq!((init, null, unknown), (0x0908, 0x0B0A, 0x0F0E_0D0C));
            }
            (5, AnimationReference::Int16 { init, null, .. }) => {
                assert_eq!((init, null), (0x0908, 0x0B0A));
            }
            (6, AnimationReference::UInt8 { init, null, unknown, .. }) => {
                assert_eq!((init, null, unknown), (8, 9, 0x0D0C_0B0A));
            }
            (7, AnimationReference::Float { init, null, .. }) => {
                assert_eq!((init.bits, null.bits), (0x0B0A_0908, 0x0F0E_0D0C));
            }
            (8, AnimationReference::Unknown4Byte { init, null, .. }) => {
                assert_eq!((init, null), ([8, 9, 10, 11], [12, 13, 14, 15]));
            }
            (9, AnimationReference::Color { init, null, .. }) => {
                assert_eq!(init, Col { blue: 8, green: 9, red: 10, alpha: 11 });
                assert_eq!(null, Col { blue: 12, green: 13, red: 14, alpha: 15 });
            }
            (10, AnimationReference::Bnds { init, null, unknown, .. }) => {
                assert_eq!(init.min.x.bits, 0x0B0A_0908);
                assert_eq!(init.radius.bits, 0x2322_2120);
                assert_eq!(null.radius.bits, 0x3F3E_3D3C);
                assert_eq!(unknown, 0x4342_4140);
            }
            (k, v) => panic!("kind {} decoded as {:?}", k, v),
        }
    }
    assert_eq!(AnimationReference::VECTOR3, 0);
    assert_eq!(AnimationReference::BNDS, 10);
}

#[test]
fn small_records() {
    let bytes = counting(64);
    let v: Vec3 = decode_record(&mut Cursor::new(&bytes), 0).unwrap();
    assert_eq!(v.y.bits, 0x0706_0504);
    let q: Vec4 = decode_record(&mut Cursor::new(&bytes), 0).unwrap();
    assert_eq!(q.w.bits, 0x0F0E_0D0C);
    let m: Matrix44 = decode_record(&mut Cursor::new(&bytes), 0).unwrap();
    assert_eq!(m.y.x.bits, 0x1312_1110);
    let b: Bnds = decode_record(&mut Cursor::new(&bytes), 0).unwrap();
    assert_eq!(b.max.x.bits, 0x0F0E_0D0C);
    assert_eq!(b.radius.bits, 0x1B1A_1918);
    let e: IndexEntry = decode_record(&mut Cursor::new(&bytes), 0).unwrap();
    assert_eq!(
        e,
        IndexEntry {
            tag: [0, 1, 2, 3],
            offset: 0x0706_0504,
            repetitions: 0x0B0A_0908,
            version: 0x0F0E_0D0C,
        }
    );
    let a: AnimationBlock = decode_record(&mut Cursor::new(&bytes), 0).unwrap();
    assert_eq!(a.flags, 0x0F0E_0D0C);
    assert_eq!(a.fend, 0x1312_1110);
    assert_eq!(a.keys.entries, 0x1716_1514);
    assert_eq!(Matrix44::width(0), Some(64));
    assert_eq!(Bnds::width(0), Some(28));
    assert_eq!(f(1.0).bits, 0x3F80_0000);
}

#[test]
fn sequence_collection_has_thirteen_blocks() {
    let bytes = counting(204);
    assert_eq!(Stc::width(4), Some(204));
    assert_eq!(Stc::width(3), None);
    let stc: Stc = decode_record(&mut Cursor::new(&bytes), 4).unwrap();
    assert_eq!(stc.runs_concurrent, 0x0D0C);
    assert_eq!(stc.sts_index_copy, 0x1312);
    assert_eq!(stc.unknown44, 0x2F2E_2D2C);
    assert_eq!(stc.sdev.entries, 0x3332_3130);
    assert_eq!(stc.sdmb.flags, u32::from_le_bytes([200, 201, 202, 203]));
    assert_eq!(
        decode_record::<Stc>(&mut Cursor::new(&bytes[..203]), 4),
        Err(DecodeError::UnexpectedEof)
    );
}

#[test]
fn references_resolve_to_exactly_their_records() {
    let bytes = counting(40);
    let mut budget = Budget::new(100);
    let r = Reference { entries: 3, index: 4, flags: 0 };
    let got: Vec<u32> =
        resolve(&bytes, &r, Addressing::ByteOffset { base: 0 }, 0, &mut budget).unwrap();
    assert_eq!(got, vec![0x0706_0504, 0x0B0A_0908, 0x0F0E_0D0C]);
    assert_eq!(budget, Budget { limit: 100, used: 3 });
    let by_index: Vec<u32> =
        resolve(&bytes, &r, Addressing::RecordIndex { base: 2 }, 0, &mut budget).unwrap();
    assert_eq!(by_index, vec![0x1514_1312, 0x1918_1716, 0x1D1C_1B1A]);
    assert_eq!(budget.used, 6);
    let exact = Reference { entries: 10, index: 0, flags: 0 };
    let all: Vec<u32> =
        resolve(&bytes, &exact, Addressing::ByteOffset { base: 0 }, 0, &mut budget).unwrap();
    assert_eq!(all.len(), 10);
    let none = Reference { entries: 0, index: 40, flags: 0 };
    let empty: Vec<Vec3> =
        resolve(&bytes, &none, Addressing::ByteOffset { base: 0 }, 0, &mut budget).unwrap();
    assert!(empty.is_empty());
    assert_eq!(budget.used, 16);
}

#[test]
fn references_beyond_the_buffer_are_refused() {
    let bytes = counting(40);
    let mut budget = Budget::new(100);
    let over = Reference { entries: 10, index: 1, flags: 0 };
    assert_eq!(
        resolve::<u32>(&bytes, &over, Addressing::ByteOffset { base: 0 }, 0, &mut budget),
        Err(DecodeError::ReferenceOutOfBounds { offset: 1, length: 40 })
    );
    let far = Reference { entries: 0, index: 41, flags: 0 };
    assert_eq!(
        resolve::<u8>(&bytes, &far, Addressing::ByteOffset { base: 0 }, 0, &mut budget),
        Err(DecodeError::ReferenceOutOfBounds { offset: 41, length: 40 })
    );
    let huge = Reference { entries: u32::MAX, index: u32::MAX, flags: 0 };
    assert_eq!(
        resolve::<Stc>(&bytes, &huge, Addressing::RecordIndex { base: u32::MAX }, 4, &mut budget),
        Err(DecodeError::ReferenceOutOfBounds {
            offset: u32::MAX as u64 + u32::MAX as u64 * 204,
            length: 40
        })
    );
    assert_eq!(budget.used, 0);
}

#[test]
fn the_ceiling_stops_resolution() {
    let bytes = counting(40);
    let mut budget = Budget::new(5);
    let r = Reference { entries: 3, index: 0, flags: 0 };
    assert!(resolve::<u8>(&bytes, &r, Addressing::ByteOffset { base: 0 }, 0, &mut budget).is_ok());
    assert_eq!(
        resolve::<u8>(&bytes, &r, Addressing::ByteOffset { base: 0 }, 0, &mut budget),
        Err(DecodeError::RecordLimitExceeded { limit: 5 })
    );
    assert_eq!(budget.used, 3);
    let two = Reference { entries: 2, index: 0, flags: 0 };
    assert!(
        resolve::<u8>(&bytes, &two, Addressing::ByteOffset { base: 0 }, 0, &mut budget).is_ok()
    );
    assert_eq!(budget.used, 5);
    let mut spent = Budget { limit: 1, used: 4 };
    let zero = Reference { entries: 0, index: 0, flags: 0 };
    assert_eq!(
        resolve::<u8>(&bytes, &zero, Addressing::ByteOffset { base: 0 }, 0, &mut spent),
        Err(DecodeError::RecordLimitExceeded { limit: 1 })
    );
}

#[test]
fn resolution_checks_the_version_first() {
    let bytes = counting(4);
    let mut budget = Budget::new(0);
    let r = Reference { entries: 9, index: 9, flags: 0 };
    assert_eq!(
        resolve::<Evnt>(&bytes, &r, Addressing::ByteOffset { base: 0 }, 7, &mut budget),
        Err(DecodeError::UnsupportedVersion {
            got: 7,
            supported_range: VersionRange { min: 0, max: 2 }
        })
    );
}

#[test]
fn flag_words_keep_and_report_reserved_bits() {
    let flags = BoneFlags::from_bits_retain(0x2A0F);
    assert_eq!(flags.bits, 0x2A0F);
    assert!(!flags.is_valid());
    assert_eq!(flags.reserved(), 0x8);
    assert!(flags.inherit_translation() && flags.inherit_scale() && flags.inherit_rotation());
    assert!(flags.animated() && flags.skinned() && flags.is_real());
    assert!(!flags.billboard1() && !flags.inverse_kinematics());
    assert_eq!(BoneFlags::from_bits(0x2A0F), None);
    assert_eq!(BoneFlags::from_bits(0x2A07), Some(BoneFlags { bits: 0x2A07 }));
    assert_eq!(BoneFlags::from_bits_truncate(0xFFFF_FFFF).bits, BoneFlags::MASK);
    assert_eq!(BoneFlags::MASK, 1 | 2 | 4 | 16 | 64 | 256 | 512 | 1024 | 2048 | 8192);
    assert!(BoneFlags { bits: 3 }.contains(BoneFlags::INHERIT_SCALE));
    assert!(!BoneFlags { bits: 1 }.contains(3));
    assert_eq!(MaterialFlags::MASK, 0xFF);
    assert!(MaterialFlags { bits: 0x11 }.has_edge());
    assert_eq!(JointFlags::MASK, 0x3F3F);
    assert_eq!(JointFlags::from_bits(0x0040), None);
    assert!(JointFlags { bits: 0x0020 }.use_ik());
}

#[test]
fn shading_keywords() {
    let words = |names: &[&str]| -> Vec<Vec<u8>> {
        names.iter().map(|n| n.as_bytes().to_vec()).collect()
    };
    assert_eq!(shading(&words(&[])), Shading { bits: 0 });
    assert_eq!(shading(&words(&["Unshaded"])), Shading { bits: 1 });
    assert_eq!(shading(&words(&["TwoSided"])), Shading { bits: 16 });
    assert_eq!(shading(&words(&["TwoSided", "Unshaded", "TwoSided"])), Shading { bits: 17 });
    assert_eq!(shading(&words(&["Unfogged", "unshaded", "TwoSide", ""])), Shading { bits: 0 });
    assert!(shading(&words(&["Unshaded"])).unshaded());
    assert!(shading(&words(&["TwoSided"])).two_sided());
    assert!(is_unshaded_keyword(b"Unshaded"));
    assert!(!is_unshaded_keyword(b"Unshaded "));
    assert!(is_two_sided_keyword(b"TwoSided"));
    assert!(!is_two_sided_keyword(b"Twosided"));
    assert_eq!(Shading::NO_DEPTH_TEST, 48);
}
