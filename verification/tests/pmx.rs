use meshio::error::{DecodeError, VersionRange, Warning};
use meshio::flags::{JointFlags, MaterialFlags};
use meshio::pmx::morph::{
    frame, morph, offset, offsets, Category, FrameElement, FrameFlag, FrameType, MorphType, Offset,
};
use meshio::pmx::physics::{
    joint, rigid_body, soft_body, Aerodynamics, AnchorRigidBody, JointType, Physics, RigidShape,
    SoftShape,
};
use meshio::pmx::{
    bdef1, bdef2, bdef4, body, bone, decode, extras, header, ik, inherit_bone, link,
    local_coordinate, material, model, qdef, read_many, sdef, settings, skinning, tail_position,
    tail_position_indexed, vertex, BlendMode, InheritBone, Settings, Skinning, TailPosition,
    ToonReference,
};
use meshio::primitives::{Cursor, Float32};
use meshio::text::{Encoding, Text};
use meshio::vector::{Vector2, Vector3, Vector4};

fn f(v: f32) -> Float32 {
    Float32 { bits: v.to_bits() }
}

struct Out(Vec<u8>);

impl Out {
    fn u8(&mut self, v: u8) -> &mut Self {
        self.0.push(v);
        self
    }
    fn u16(&mut self, v: u16) -> &mut Self {
        self.0.extend_from_slice(&v.to_le_bytes());
        self
    }
    fn u32(&mut self, v: u32) -> &mut Self {
        self.0.extend_from_slice(&v.to_le_bytes());
        self
    }
    fn i32(&mut self, v: i32) -> &mut Self {
        self.0.extend_from_slice(&v.to_le_bytes());
        self
    }
    fn f32s(&mut self, values: &[f32]) -> &mut Self {
        for v in values {
            self.0.extend_from_slice(&v.to_le_bytes());
        }
        self
    }
    fn text(&mut self, s: &str) -> &mut Self {
        self.u32(s.len() as u32);
        self.0.extend_from_slice(s.as_bytes());
        self
    }
    fn text16(&mut self, units: &[u16]) -> &mut Self {
        self.u32(2 * units.len() as u32);
        for u in units {
            self.0.extend_from_slice(&u.to_le_bytes());
        }
        self
    }
}

fn utf8_settings() -> Settings {
    Settings {
        encoding: Encoding::Utf8,
        uv: 1,
        vertex_index_size: 2,
        texture_index_size: 1,
        material_index_size: 1,
        bone_index_size: 1,
        morph_index_size: 1,
        rigid_body_index_size: 1,
    }
}

fn header_bytes(out: &mut Out, encoding: u8) {
    out.0.extend_from_slice(b"PMX ");
    out.f32s(&[2.0]);
    out.u8(10).u8(encoding).u8(1).u8(2).u8(1).u8(1).u8(1).u8(1).u8(1).u8(0xEE).u8(0xEF);
}

fn material_bytes(out: &mut Out, toon_reference: u8) {
    out.text("mat").text("material");
    out.f32s(&[0.1, 0.2, 0.3, 0.4]); // diffuse
    out.f32s(&[0.5, 0.6, 0.7]); // specular
    out.f32s(&[8.0]); // specularity
    out.f32s(&[0.9, 1.0, 1.1]); // ambient
    out.u8(0x11); // flags
    out.f32s(&[0.0, 0.0, 0.0, 1.0]); // edge color
    out.f32s(&[1.5]); // edge scale
    out.u8(0xFF); // texture: none
    out.u8(2); // environment
    out.u8(1); // blend mode
    out.u8(toon_reference);
    out.u8(7); // toon
    out.text("a comment");
    out.u32(36);
}

fn plain_bone_bytes(out: &mut Out, flags: u16) {
    out.text("bone").text("Bone");
    out.f32s(&[1.0, 2.0, 3.0]);
    out.i32(-1).i32(4).u16(flags);
}

#[test]
fn settings_block() {
    let mut out = Out(vec![]);
    out.u8(9).u8(0).u8(2).u8(4).u8(2).u8(1).u8(2).u8(1).u8(4).u8(0x77).u8(0x99);
    let mut c = Cursor::new(&out.0);
    assert_eq!(
        settings(&mut c),
        Ok(Settings {
            encoding: Encoding::Utf16Le,
            uv: 2,
            vertex_index_size: 4,
            texture_index_size: 2,
            material_index_size: 1,
            bone_index_size: 2,
            morph_index_size: 1,
            rigid_body_index_size: 4,
        })
    );
    assert_eq!(c.position(), 10);
}

#[test]
fn settings_block_failures() {
    let few = [7u8, 0, 0, 0, 0, 0, 0, 0];
    assert_eq!(
        settings(&mut Cursor::new(&few)),
        Err(DecodeError::UnsupportedVersion {
            got: 7,
            supported_range: VersionRange { min: 8, max: 255 }
        })
    );
    let encoding = [8u8, 2, 0, 1, 1, 1, 1, 1, 1];
    assert_eq!(
        settings(&mut Cursor::new(&encoding)),
        Err(DecodeError::UnsupportedVersion {
            got: 2,
            supported_range: VersionRange { min: 0, max: 1 }
        })
    );
    let short = [8u8, 1, 0, 1, 1, 1, 1, 1];
    assert_eq!(settings(&mut Cursor::new(&short)), Err(DecodeError::UnexpectedEof));
    let extra = [9u8, 1, 0, 1, 1, 1, 1, 1, 1];
    assert_eq!(settings(&mut Cursor::new(&extra)), Err(DecodeError::UnexpectedEof));
    assert_eq!(settings(&mut Cursor::new(&[])), Err(DecodeError::UnexpectedEof));
}

#[test]
fn header_with_four_strings() {
    let mut out = Out(vec![]);
    header_bytes(&mut out, 1);
    out.text("名前").text("name").text("").text("comment");
    let mut c = Cursor::new(&out.0);
    let h = header(&mut c).unwrap();
    assert_eq!(f32::from_bits(h.version.bits), 2.0);
    assert_eq!(h.settings, utf8_settings());
    assert_eq!(h.name_local.value, "名前");
    assert_eq!(h.name_local.offset, 19);
    assert_eq!(h.name_global.value, "name");
    assert_eq!(h.comment_local.value, "");
    assert_eq!(h.comment_global.value, "comment");
    assert_eq!(c.left(), 0);
    assert_eq!(header(&mut Cursor::new(b"PMX")), Err(DecodeError::BadMagic));
    assert_eq!(header(&mut Cursor::new(b"Pmx \0\0\0\0")), Err(DecodeError::BadMagic));
    assert_eq!(header(&mut Cursor::new(b"PMX \0\0")), Err(DecodeError::UnexpectedEof));
    assert_eq!(
        header(&mut Cursor::new(&out.0[..out.0.len() - 1])),
        Err(DecodeError::UnexpectedEof),
    );
}

#[test]
fn bindings_to_bones() {
    let mut one = Out(vec![]);
    one.u8(0xFF);
    assert_eq!(bdef1(&mut Cursor::new(&one.0), 1), Ok(Skinning::BDef1 { index: -1 }));
    let mut two = Out(vec![]);
    two.u16(3).u16(0xFFFF).f32s(&[0.25]);
    assert_eq!(
        bdef2(&mut Cursor::new(&two.0), 2),
        Ok(Skinning::BDef2 { indices: [3, -1], weight: f(0.25) })
    );
    let mut four = Out(vec![]);
    four.u8(1).u8(2).u8(3).u8(0x80).f32s(&[0.1, 0.2, 0.3, 0.4]);
    let indices = [1, 2, 3, -128];
    let weights = [f(0.1), f(0.2), f(0.3), f(0.4)];
    assert_eq!(bdef4(&mut Cursor::new(&four.0), 1), Ok(Skinning::BDef4 { indices, weights }));
    assert_eq!(qdef(&mut Cursor::new(&four.0), 1), Ok(Skinning::QDef { indices, weights }));
    let mut s = Out(vec![]);
    s.i32(5).i32(-6).f32s(&[0.5, 1.0, 2.0, 3.0, 4.0, 5.0, 6.0, 7.0, 8.0, 9.0]);
    assert_eq!(
        sdef(&mut Cursor::new(&s.0), 4),
        Ok(Skinning::SDef {
            indices: [5, -6],
            weight: f(0.5),
            c: Vector3 { x: f(1.0), y: f(2.0), z: f(3.0) },
            r: [
                Vector3 { x: f(4.0), y: f(5.0), z: f(6.0) },
                Vector3 { x: f(7.0), y: f(8.0), z: f(9.0) }
            ],
        })
    );
    assert_eq!(sdef(&mut Cursor::new(&s.0[..47]), 4), Err(DecodeError::UnexpectedEof));
    assert_eq!(bdef4(&mut Cursor::new(&four.0), 3), Err(DecodeError::InvalidWidth));
    assert_eq!(bdef4(&mut Cursor::new(&four.0[..19]), 1), Err(DecodeError::UnexpectedEof));
}

#[test]
fn binding_kinds() {
    let mut out = Out(vec![]);
    out.u8(1).u8(4).u8(5).f32s(&[1.0]).u8(0).u8(9).u8(5);
    let mut c = Cursor::new(&out.0);
    assert_eq!(skinning(&mut c, 1), Ok(Skinning::BDef2 { indices: [4, 5], weight: f(1.0) }));
    assert_eq!(skinning(&mut c, 1), Ok(Skinning::BDef1 { index: 9 }));
    assert_eq!(
        skinning(&mut c, 1),
        Err(DecodeError::UnsupportedVersion {
            got: 5,
            supported_range: VersionRange { min: 0, max: 4 }
        })
    );
    assert_eq!(skinning(&mut Cursor::new(&[]), 1), Err(DecodeError::UnexpectedEof));
    assert_eq!(skinning(&mut Cursor::new(&[0]), 3), Err(DecodeError::InvalidWidth));
}

#[test]
fn vertex_with_one_additional_coordinate() {
    let mut out = Out(vec![]);
    out.f32s(&[1.0, 2.0, 3.0, 0.0, 1.0, 0.0, 0.5, 0.75]);
    out.f32s(&[9.0, 8.0, 7.0, 6.0]);
    out.u8(0).u8(0xFF);
    out.f32s(&[1.25]);
    let mut c = Cursor::new(&out.0);
    let v = vertex(&mut c, &utf8_settings()).unwrap();
    assert_eq!(c.left(), 0);
    assert_eq!(v.position, Vector3 { x: f(1.0), y: f(2.0), z: f(3.0) });
    assert_eq!(v.normal, Vector3 { x: f(0.0), y: f(1.0), z: f(0.0) });
    assert_eq!(v.uv, Vector2 { x: f(0.5), y: f(0.75) });
    assert_eq!(v.uva, vec![Vector4 { x: f(9.0), y: f(8.0), z: f(7.0), w: f(6.0) }]);
    assert_eq!(v.skinning, Skinning::BDef1 { index: -1 });
    assert_eq!(v.edge, f(1.25));
    let plain = Settings { uv: 0, ..utf8_settings() };
    let mut p = Cursor::new(&out.0);
    let read = vertex(&mut p, &plain).unwrap();
    assert!(read.uva.is_empty());
    assert_eq!(read.skinning, Skinning::BDef1 { index: 0 });
    assert_eq!(read.edge.bits, u32::from_le_bytes([0x10, 0x41, 0, 0]));
    assert_eq!(p.position(), 38);
    let more = Settings { uv: 2, ..utf8_settings() };
    assert_eq!(vertex(&mut Cursor::new(&out.0), &more), Err(DecodeError::UnexpectedEof));
    let mut kind = out.0.clone();
    kind[48] = 0x41;
    assert_eq!(
        vertex(&mut Cursor::new(&kind), &utf8_settings()),
        Err(DecodeError::UnsupportedVersion {
            got: 0x41,
            supported_range: VersionRange { min: 0, max: 4 }
        })
    );
    assert_eq!(
        vertex(&mut Cursor::new(&out.0[..53]), &utf8_settings()),
        Err(DecodeError::UnexpectedEof),
    );
    assert_eq!(
        vertex(&mut Cursor::new(&out.0[..31]), &utf8_settings()),
        Err(DecodeError::UnexpectedEof),
    );
}

#[test]
fn material_with_a_shared_toon() {
    let mut out = Out(vec![]);
    material_bytes(&mut out, 0);
    let mut c = Cursor::new(&out.0);
    let m = material(&mut c, &utf8_settings()).unwrap();
    assert_eq!(c.left(), 0);
    assert_eq!(m.name_local.value, "mat");
    assert_eq!(m.name_global.value, "material");
    assert_eq!(m.diffuse.alpha, f(0.4));
    assert_eq!(m.specular.blue, f(0.7));
    assert_eq!(m.specular.alpha, f(1.0));
    assert_eq!(m.specularity, f(8.0));
    assert_eq!(m.ambient.red, f(0.9));
    assert_eq!(m.flags, MaterialFlags { bits: 0x11 });
    assert!(m.flags.no_cull() && m.flags.has_edge() && !m.flags.draw_shadow());
    assert_eq!(m.edge_color.alpha, f(1.0));
    assert_eq!(m.edge_scale, f(1.5));
    assert_eq!(m.texture, -1);
    assert_eq!(m.environment, 2);
    assert_eq!(m.environment_blend_mode, BlendMode::Multiply);
    assert_eq!(m.toon_reference, ToonReference::Texture);
    assert_eq!(m.toon, 7);
    assert_eq!(m.comment.value, "a comment");
    assert_eq!(m.surface_count, 36);
}

#[test]
fn material_toon_by_index_and_failures() {
    let wide = Settings { texture_index_size: 2, ..utf8_settings() };
    let mut out = Out(vec![]);
    out.text("").text("");
    out.f32s(&[0.0; 16]);
    out.u8(0);
    out.u16(1).u16(0xFFFE).u8(3).u8(1).u16(0xFFFF).text("").u32(0);
    let m = material(&mut Cursor::new(&out.0), &wide).unwrap();
    assert_eq!((m.texture, m.environment, m.toon), (1, -2, -1));
    assert_eq!(m.environment_blend_mode, BlendMode::AdditionalVec4);
    assert_eq!(m.toon_reference, ToonReference::Internal);
    let mut bad_blend = out.0.clone();
    bad_blend[8 + 65 + 4] = 4;
    assert_eq!(
        material(&mut Cursor::new(&bad_blend), &wide),
        Err(DecodeError::UnsupportedVersion {
            got: 4,
            supported_range: VersionRange { min: 0, max: 3 }
        })
    );
    let mut bad_toon = out.0.clone();
    bad_toon[8 + 65 + 5] = 2;
    assert_eq!(
        material(&mut Cursor::new(&bad_toon), &wide),
        Err(DecodeError::UnsupportedVersion {
            got: 2,
            supported_range: VersionRange { min: 0, max: 1 }
        })
    );
    let broken = Settings { texture_index_size: 3, ..utf8_settings() };
    assert_eq!(material(&mut Cursor::new(&out.0), &broken), Err(DecodeError::InvalidWidth));
    assert_eq!(material(&mut Cursor::new(&out.0[..72]), &wide), Err(DecodeError::UnexpectedEof));
    assert_eq!(
        material(&mut Cursor::new(&out.0[..out.0.len() - 1]), &wide),
        Err(DecodeError::UnexpectedEof)
    );
}

#[test]
fn bone_parts() {
    let mut out = Out(vec![]);
    out.f32s(&[1.0, 2.0, 3.0]).u8(0xFE).u8(4).f32s(&[0.5]).f32s(&[1.0, 0.0, 0.0, 0.0, 0.0, 1.0]);
    let mut c = Cursor::new(&out.0);
    assert_eq!(
        tail_position(&mut c),
        Ok(TailPosition::Vector3(Vector3 { x: f(1.0), y: f(2.0), z: f(3.0) }))
    );
    assert_eq!(tail_position_indexed(&mut c, 1), Ok(TailPosition::Index(-2)));
    assert_eq!(inherit_bone(&mut c, 1), Ok(InheritBone { index: 4, weight: f(0.5) }));
    let frame = local_coordinate(&mut c).unwrap();
    assert_eq!(frame.x, Vector3 { x: f(1.0), y: f(0.0), z: f(0.0) });
    assert_eq!(frame.z, Vector3 { x: f(0.0), y: f(0.0), z: f(1.0) });
    assert_eq!(c.left(), 0);
    assert_eq!(local_coordinate(&mut Cursor::new(&out.0[..23])), Err(DecodeError::UnexpectedEof));
    assert_eq!(tail_position_indexed(&mut Cursor::new(&out.0), 0), Err(DecodeError::InvalidWidth));
}

#[test]
fn chains_and_links() {
    let mut out = Out(vec![]);
    out.u8(3).u32(40).f32s(&[0.5]).u32(2);
    out.u8(1).u8(1).u32(1).f32s(&[-1.0, -2.0, -3.0, 1.0, 2.0, 3.0]);
    out.u8(2).u8(0).u32(0);
    let mut c = Cursor::new(&out.0);
    let chain = ik(&mut c, &utf8_settings()).unwrap();
    assert_eq!(c.left(), 0);
    assert_eq!((chain.target, chain.loop_count, chain.angle_limit), (3, 40, f(0.5)));
    assert_eq!(chain.links.len(), 2);
    assert_eq!(chain.links[0].bone_index, 1);
    assert!(chain.links[0].has_limits);
    assert_eq!(chain.links[0].limits.len(), 1);
    assert_eq!(chain.links[0].limits[0].min, Vector3 { x: f(-1.0), y: f(-2.0), z: f(-3.0) });
    assert_eq!(chain.links[0].limits[0].max, Vector3 { x: f(1.0), y: f(2.0), z: f(3.0) });
    assert_eq!(chain.links[0].limits[0].radius, None);
    assert_eq!(chain.links[1].bone_index, 2);
    assert!(!chain.links[1].has_limits);
    assert!(chain.links[1].limits.is_empty());
    let single = link(&mut Cursor::new(&out.0[13..]), &utf8_settings()).unwrap();
    assert_eq!(single, chain.links[0]);
    assert_eq!(
        ik(&mut Cursor::new(&out.0[..out.0.len() - 1]), &utf8_settings()),
        Err(DecodeError::UnexpectedEof),
    );
}

#[test]
fn bone_without_optional_fields() {
    let mut out = Out(vec![]);
    plain_bone_bytes(&mut out, 0x001E);
    out.f32s(&[0.0, 1.0, 0.0]);
    let mut c = Cursor::new(&out.0);
    let b = bone(&mut c, &utf8_settings()).unwrap();
    assert_eq!(c.left(), 0);
    assert_eq!(b.name_local.value, "bone");
    assert_eq!(b.name_global.value, "Bone");
    assert_eq!(b.position, Vector3 { x: f(1.0), y: f(2.0), z: f(3.0) });
    assert_eq!((b.parent, b.layer), (-1, 4));
    assert_eq!(b.flags, JointFlags { bits: 0x001E });
    assert_eq!(b.tail_position, TailPosition::Vector3(Vector3 { x: f(0.0), y: f(1.0), z: f(0.0) }));
    assert_eq!(b.inherit_bone, None);
    assert_eq!(b.fixed_axis, None);
    assert_eq!(b.local_coordinate, None);
    assert_eq!(b.key, None);
    assert_eq!(b.ik, None);
}

#[test]
fn bone_with_every_optional_field() {
    let mut out = Out(vec![]);
    plain_bone_bytes(&mut out, 0x0001 | 0x0020 | 0x0100 | 0x0400 | 0x0800 | 0x2000);
    out.u8(6); // tail as index
    out.u8(2).f32s(&[0.75]); // inherit
    out.f32s(&[1.0, 0.0, 0.0]); // fixed axis
    out.f32s(&[1.0, 0.0, 0.0, 0.0, 0.0, 1.0]); // local coordinate
    out.i32(-9); // key
    out.u8(5).u32(10).f32s(&[2.0]).u32(0); // ik
    let mut c = Cursor::new(&out.0);
    let b = bone(&mut c, &utf8_settings()).unwrap();
    assert_eq!(c.left(), 0);
    assert_eq!(b.tail_position, TailPosition::Index(6));
    assert_eq!(b.inherit_bone, Some(InheritBone { index: 2, weight: f(0.75) }));
    assert_eq!(b.fixed_axis, Some(Vector3 { x: f(1.0), y: f(0.0), z: f(0.0) }));
    assert_eq!(b.local_coordinate.unwrap().z, Vector3 { x: f(0.0), y: f(0.0), z: f(1.0) });
    assert_eq!(b.key, Some(-9));
    let chain = b.ik.unwrap();
    assert_eq!((chain.target, chain.loop_count), (5, 10));
    assert!(chain.links.is_empty());
    assert_eq!(
        bone(&mut Cursor::new(&out.0[..out.0.len() - 1]), &utf8_settings()),
        Err(DecodeError::UnexpectedEof),
    );
}

#[test]
fn bone_inherits_on_either_flag() {
    for flags in [0x0100u16, 0x0200, 0x0300] {
        let mut out = Out(vec![]);
        plain_bone_bytes(&mut out, flags);
        out.f32s(&[0.0, 0.0, 0.0]);
        out.u8(1).f32s(&[1.0]);
        let b = bone(&mut Cursor::new(&out.0), &utf8_settings()).unwrap();
        assert_eq!(b.inherit_bone, Some(InheritBone { index: 1, weight: f(1.0) }));
    }
}

#[test]
fn runs_of_strings() {
    let mut out = Out(vec![]);
    out.text("a.png").text("").text("c.png");
    let mut c = Cursor::new(&out.0);
    let texts: Vec<Text> = read_many(&mut c, 3, &utf8_settings()).unwrap();
    assert_eq!(
        texts.iter().map(|t| t.value.as_str()).collect::<Vec<_>>(),
        vec!["a.png", "", "c.png"]
    );
    assert_eq!(texts[2].offset, 13);
    assert_eq!(c.left(), 0);
    assert_eq!(
        read_many::<Text>(&mut Cursor::new(&out.0), 4, &utf8_settings()),
        Err(DecodeError::UnexpectedEof)
    );
    assert_eq!(read_many::<Text>(&mut Cursor::new(&[]), 0, &utf8_settings()), Ok(vec![]));
}

fn morph_bytes(out: &mut Out) {
    out.text("morph").text("Morph").u8(2).u8(1).u32(2);
    out.u16(1).f32s(&[0.5, 0.0, 0.0]);
    out.u16(0xFFFF).f32s(&[0.0, 0.25, 0.0]);
}

fn frame_bytes(out: &mut Out) {
    out.text("Root").text("").u8(1).u32(2);
    out.u8(0).u8(0);
    out.u8(1).u8(3);
}

fn rigid_body_bytes(out: &mut Out) {
    out.text("body").text("Body").u8(0).u8(3).u16(0xFFF7).u8(2);
    out.f32s(&[1.0, 2.0, 3.0, 4.0, 5.0, 6.0, 7.0, 8.0, 9.0]);
    out.f32s(&[10.0, 0.5, 0.25, 0.125, 0.75]);
    out.u8(1);
}

fn joint_bytes(out: &mut Out) {
    out.text("joint").text("Joint").u8(0).u8(0).u8(0xFF);
    let vectors: Vec<f32> = (0..24).map(|k| k as f32).collect();
    out.f32s(&vectors);
}

fn soft_body_bytes(out: &mut Out) {
    out.text("soft").text("Soft").u8(1).u8(0);
    out.u8(2).u16(0x00FF).u8(5).u32(7).u32(8).f32s(&[1.5, 0.01]);
    out.u32(3);
    let numbers: Vec<f32> = (0..18).map(|k| k as f32 / 2.0).collect();
    out.f32s(&numbers);
    for k in 0..7 {
        out.u32(100 + k);
    }
    out.u32(1).u8(0).u16(9).u8(1);
    out.u32(2).u16(4).u16(5);
}

fn whole_file(encoding: u8) -> Vec<u8> {
    let mut out = Out(vec![]);
    header_bytes(&mut out, encoding);
    if encoding == 1 {
        out.text("モデル").text("model").text("").text("made by hand");
    } else {
        out.text16(&[0x30E2, 0xD800]).text16(&[0x6D]).text16(&[]).text16(&[0x41, 0x42]);
    }
    out.u32(2);
    for k in 0..2 {
        out.f32s(&[k as f32, 0.0, 0.0, 0.0, 0.0, 1.0, 0.0, 0.0]);
        out.f32s(&[0.0, 0.0, 0.0, 0.0]);
        out.u8(0).u8(0);
        out.f32s(&[1.0]);
    }
    out.u32(3).u16(0).u16(1).u16(0xFFFF);
    if encoding == 1 {
        out.u32(1).text("tex.png");
        out.u32(1);
        material_bytes(&mut out, 0);
        out.u32(1);
        plain_bone_bytes(&mut out, 0x4000);
        out.f32s(&[0.0, 0.0, 0.0]);
        out.u32(1);
        morph_bytes(&mut out);
        out.u32(1);
        frame_bytes(&mut out);
        out.u32(1);
        rigid_body_bytes(&mut out);
        out.u32(1);
        joint_bytes(&mut out);
    } else {
        out.u32(0).u32(0).u32(0);
        out.u32(0).u32(0).u32(0).u32(0);
    }
    out.0
}

#[test]
fn whole_model() {
    let bytes = whole_file(1);
    let (m, warnings) = decode(&bytes).unwrap();
    assert_eq!(m.header.name_local.value, "モデル");
    assert_eq!(m.header.comment_global.value, "made by hand");
    assert_eq!(m.vertices.len(), 2);
    assert_eq!(m.vertices[1].position.x, f(1.0));
    assert_eq!(m.vertices[1].uva.len(), 1);
    assert_eq!(m.indices, vec![0, 1, -1]);
    assert_eq!(m.textures.len(), 1);
    assert_eq!(m.textures[0].value, "tex.png");
    assert_eq!(m.materials.len(), 1);
    assert_eq!(m.materials[0].surface_count, 36);
    assert_eq!(m.bones.len(), 1);
    assert_eq!(m.bones[0].name_global.value, "Bone");
    assert_eq!(m.morphs.len(), 1);
    assert_eq!(m.morphs[0].kind, MorphType::Vertex);
    assert_eq!(m.frames.len(), 1);
    assert_eq!(m.rigid_bodies.len(), 1);
    assert_eq!(m.joints.len(), 1);
    assert!(m.soft_bodies.is_empty());
    assert_eq!(warnings, vec![Warning::ReservedFlags { value: 0x4000, mask: 0x3F3F }]);
    let mut c = Cursor::new(&bytes);
    assert_eq!(model(&mut c).unwrap(), m);
    assert_eq!(c.left(), 0);
    let (again, again_warnings) = decode(&bytes).unwrap();
    assert_eq!(again, m);
    assert_eq!(again_warnings, warnings);
}

#[test]
fn malformed_text_is_reported_and_decoding_goes_on() {
    let bytes = whole_file(0);
    let (m, warnings) = decode(&bytes).unwrap();
    assert_eq!(m.header.settings.encoding, Encoding::Utf16Le);
    assert_eq!(m.header.name_local.value, "モ\u{FFFD}");
    assert!(m.header.name_local.substituted);
    assert_eq!(m.header.name_global.value, "m");
    assert_eq!(m.header.comment_global.value, "AB");
    assert_eq!(m.vertices.len(), 2);
    assert_eq!(m.indices, vec![0, 1, -1]);
    assert!(m.textures.is_empty() && m.materials.is_empty() && m.bones.is_empty());
    assert_eq!(warnings, vec![Warning::TextSubstitution { position: 19 }]);
}

#[test]
fn truncated_models_fail_whole() {
    let bytes = whole_file(1);
    for cut in [0usize, 3, 4, 10, 30, 70, 150, 400, 500, 600, bytes.len() - 1] {
        let r = decode(&bytes[..cut]);
        if cut < 4 {
            assert_eq!(r, Err(DecodeError::BadMagic));
        } else {
            assert_eq!(r, Err(DecodeError::UnexpectedEof));
        }
    }
    let mut wide = bytes.clone();
    wide[11] = 3; // vertex index size
    assert_eq!(decode(&wide), Err(DecodeError::InvalidWidth));
}

#[test]
fn morph_of_vertex_offsets() {
    let mut out = Out(vec![]);
    morph_bytes(&mut out);
    let mut c = Cursor::new(&out.0);
    let m = morph(&mut c, &utf8_settings()).unwrap();
    assert_eq!(c.left(), 0);
    assert_eq!(m.name_local.value, "morph");
    assert_eq!(m.category, Category::Eye);
    assert_eq!(m.kind, MorphType::Vertex);
    assert_eq!(
        m.offsets,
        vec![
            Offset::Vertex { index: 1, translation: Vector3 { x: f(0.5), y: f(0.0), z: f(0.0) } },
            Offset::Vertex { index: -1, translation: Vector3 { x: f(0.0), y: f(0.25), z: f(0.0) } },
        ]
    );
    let mut panel = out.0.clone();
    panel[18] = 5;
    assert_eq!(
        morph(&mut Cursor::new(&panel), &utf8_settings()),
        Err(DecodeError::UnsupportedVersion {
            got: 5,
            supported_range: VersionRange { min: 0, max: 4 }
        })
    );
    let mut kind = out.0.clone();
    kind[19] = 11;
    assert_eq!(
        morph(&mut Cursor::new(&kind), &utf8_settings()),
        Err(DecodeError::UnsupportedVersion {
            got: 11,
            supported_range: VersionRange { min: 0, max: 10 }
        })
    );
    assert_eq!(
        morph(&mut Cursor::new(&out.0[..out.0.len() - 1]), &utf8_settings()),
        Err(DecodeError::UnexpectedEof)
    );
}

#[test]
fn offsets_of_every_kind() {
    let s = Settings {
        vertex_index_size: 4,
        bone_index_size: 2,
        material_index_size: 1,
        morph_index_size: 1,
        rigid_body_index_size: 2,
        ..utf8_settings()
    };
    let sizes = [5usize, 16, 30, 20, 20, 20, 20, 20, 114, 5, 27];
    let bytes: Vec<u8> = (1..=120).collect();
    for kind in 0..=10u8 {
        let mut c = Cursor::new(&bytes);
        let o = offset(&mut c, kind, &s).unwrap();
        assert_eq!(c.position(), sizes[kind as usize]);
        match (kind, o) {
            (0, Offset::Group { index, weight }) => {
                assert_eq!((index, weight.bits), (1, 0x0504_0302));
            }
            (1, Offset::Vertex { index, translation }) => {
                assert_eq!((index, translation.x.bits), (0x0403_0201, 0x0807_0605));
            }
            (2, Offset::Bone { index, translation, rotation }) => {
                assert_eq!((index, translation.x.bits), (0x0201, 0x0605_0403));
                assert_eq!(rotation.w.bits, 0x1E1D_1C1B);
            }
            (3..=7, Offset::Uv { index, offsets }) => {
                assert_eq!((index, offsets.w.bits), (0x0403_0201, 0x1413_1211));
            }
            (8, Offset::Material { index, operation, diffuse, specular, toon_tint, .. }) => {
                assert_eq!((index, operation), (1, 2));
                assert_eq!(diffuse.red.bits, 0x0605_0403);
                assert_eq!(specular.alpha, f(1.0));
                assert_eq!(toon_tint.alpha.bits, 0x7271_706F);
            }
            (9, Offset::Flip { index, weight }) => {
                assert_eq!((index, weight.bits), (1, 0x0504_0302));
            }
            (10, Offset::Impulse { index, is_local, speed, torque }) => {
                assert_eq!((index, is_local), (0x0201, true));
                assert_eq!(speed.x.bits, 0x0706_0504);
                assert_eq!(torque.z.bits, 0x1B1A_1918);
            }
            (k, o) => panic!("kind {} decoded as {:?}", k, o),
        }
        let mut short = Cursor::new(&bytes[..sizes[kind as usize] - 1]);
        assert_eq!(offset(&mut short, kind, &s), Err(DecodeError::UnexpectedEof));
    }
    assert_eq!(
        offset(&mut Cursor::new(&bytes), 11, &s),
        Err(DecodeError::UnsupportedVersion {
            got: 11,
            supported_range: VersionRange { min: 0, max: 10 }
        })
    );
    assert_eq!(offsets(&mut Cursor::new(&bytes), 24, 0, &s).unwrap().len(), 24);
    assert_eq!(offsets(&mut Cursor::new(&bytes), 25, 0, &s), Err(DecodeError::UnexpectedEof));
    assert_eq!(offsets(&mut Cursor::new(&bytes), 0, 200, &s), Ok(vec![]));
    let broken = Settings { morph_index_size: 3, ..s };
    assert_eq!(offset(&mut Cursor::new(&bytes), 9, &broken), Err(DecodeError::InvalidWidth));
}

#[test]
fn display_frame() {
    let mut out = Out(vec![]);
    frame_bytes(&mut out);
    let mut c = Cursor::new(&out.0);
    let fr = frame(&mut c, &utf8_settings()).unwrap();
    assert_eq!(c.left(), 0);
    assert_eq!(fr.name_local.value, "Root");
    assert_eq!(fr.flag, FrameFlag::Special);
    assert_eq!(
        fr.elements,
        vec![
            FrameElement { kind: FrameType::Bone, index: 0 },
            FrameElement { kind: FrameType::Morph, index: 3 },
        ]
    );
    let mut bad = out.0.clone();
    let last = bad.len() - 2;
    bad[last] = 2;
    assert_eq!(
        frame(&mut Cursor::new(&bad), &utf8_settings()),
        Err(DecodeError::UnsupportedVersion {
            got: 2,
            supported_range: VersionRange { min: 0, max: 1 }
        })
    );
}

#[test]
fn rigid_body_and_joint() {
    let mut out = Out(vec![]);
    rigid_body_bytes(&mut out);
    let mut c = Cursor::new(&out.0);
    let b = rigid_body(&mut c, &utf8_settings()).unwrap();
    assert_eq!(c.left(), 0);
    assert_eq!((b.bone, b.group, b.mask), (0, 3, 0xFFF7));
    assert_eq!(b.shape, RigidShape::Capsule);
    assert_eq!(b.dynamics.scale, Vector3 { x: f(1.0), y: f(2.0), z: f(3.0) });
    assert_eq!(b.dynamics.rotation, Vector3 { x: f(7.0), y: f(8.0), z: f(9.0) });
    assert_eq!(b.dynamics.mass, f(10.0));
    assert_eq!(b.dynamics.friction, f(0.75));
    assert_eq!(b.mode, Physics::Gravity);
    let mut shape = out.0.clone();
    shape[20] = 3;
    assert_eq!(
        rigid_body(&mut Cursor::new(&shape), &utf8_settings()),
        Err(DecodeError::UnsupportedVersion {
            got: 3,
            supported_range: VersionRange { min: 0, max: 2 }
        })
    );
    let mut j = Out(vec![]);
    joint_bytes(&mut j);
    let mut c = Cursor::new(&j.0);
    let read = joint(&mut c, &utf8_settings()).unwrap();
    assert_eq!(c.left(), 0);
    assert_eq!(read.kind, JointType::Spring6Dof);
    assert_eq!(read.indices, [0, -1]);
    assert_eq!(read.limits.position, Vector3 { x: f(0.0), y: f(1.0), z: f(2.0) });
    assert_eq!(read.limits.rotation_spring, Vector3 { x: f(21.0), y: f(22.0), z: f(23.0) });
    let mut kind = j.0.clone();
    kind[18] = 6;
    assert_eq!(
        joint(&mut Cursor::new(&kind), &utf8_settings()),
        Err(DecodeError::UnsupportedVersion {
            got: 6,
            supported_range: VersionRange { min: 0, max: 5 }
        })
    );
}

#[test]
fn soft_body_with_anchor_and_pins() {
    let mut out = Out(vec![]);
    soft_body_bytes(&mut out);
    let mut c = Cursor::new(&out.0);
    let b = soft_body(&mut c, &utf8_settings()).unwrap();
    assert_eq!(c.left(), 0);
    assert_eq!(b.shape, SoftShape::Rope);
    assert_eq!(b.material, 0);
    assert_eq!((b.collision.group, b.collision.mask, b.collision.flags.bits), (2, 0x00FF, 5));
    assert!(b.collision.flags.b_link() && b.collision.flags.link_crossing());
    assert_eq!((b.collision.b_link_create_distance, b.collision.cluster_count), (7, 8));
    assert_eq!(b.collision.total_mass, f(1.5));
    assert_eq!(b.aerodynamics, Aerodynamics::F2Sided);
    assert_eq!(b.coefficients.vcf, f(0.0));
    assert_eq!(b.coefficients.ahr, f(5.5));
    assert_eq!(b.coefficients.ss_splt_cl, f(8.5));
    assert_eq!((b.coefficients.v_it, b.coefficients.vst), (100, 106));
    assert_eq!(
        b.anchor_rigid_bodies,
        vec![AnchorRigidBody { rigid_body: 0, vertex: 9, near_mode: 1 }]
    );
    assert_eq!(b.vertex_pins, vec![4, 5]);
    let mut aero = out.0.clone();
    aero[16 + 2 + 20..16 + 2 + 24].copy_from_slice(&5u32.to_le_bytes());
    assert_eq!(
        soft_body(&mut Cursor::new(&aero), &utf8_settings()),
        Err(DecodeError::UnsupportedVersion {
            got: 5,
            supported_range: VersionRange { min: 0, max: 4 }
        })
    );
}

#[test]
fn soft_bodies_belong_to_the_later_version() {
    let mut old = whole_file(0);
    let mut new = old.clone();
    new[4..8].copy_from_slice(&2.1f32.to_le_bytes());
    assert_eq!(decode(&new), Err(DecodeError::UnexpectedEof));
    new.extend_from_slice(&0u32.to_le_bytes());
    let (m, _) = decode(&new).unwrap();
    assert!(m.soft_bodies.is_empty());
    assert_eq!(meshio::pmx::VERSION_2_1, 2.1f32.to_bits());
    old.extend_from_slice(&7u32.to_le_bytes());
    assert!(decode(&old).unwrap().0.soft_bodies.is_empty());
    let mut c = Cursor::new(&new);
    let first = body(&mut c).unwrap();
    let rest = extras(&mut c, &first.header.settings, true).unwrap();
    assert!(rest.morphs.is_empty() && rest.soft_bodies.is_empty());
    assert_eq!(c.left(), 0);
}
