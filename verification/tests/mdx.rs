use meshio::bounds::Bounds;
use meshio::error::{DecodeError, VersionRange, Warning};
use meshio::flags::SequenceFlags;
use meshio::mdx::{decode, model_data, sequence, texture};
use meshio::primitives::Float32;
use meshio::vector::Vector3;

fn f(v: f32) -> Float32 {
    Float32 { bits: v.to_bits() }
}

fn chunk(tag: &[u8; 4], data: &[u8]) -> Vec<u8> {
    let mut out = tag.to_vec();
    out.extend_from_slice(&(data.len() as u32).to_le_bytes());
    out.extend_from_slice(data);
    out
}

fn field(text: &[u8], width: usize) -> Vec<u8> {
    let mut out = text.to_vec();
    out.resize(width, 0);
    out
}

fn extent() -> Vec<u8> {
    [9.0f32, -1.0, -2.0, -3.0, 1.0, 2.0, 3.0].iter().flat_map(|v| v.to_le_bytes()).collect()
}

fn model_bytes() -> Vec<u8> {
    let mut out = field(b"Footman", 80);
    out.extend(field(b"Units\\Human\\Footman.mdx", 260));
    out.extend(extent());
    out.extend_from_slice(&150u32.to_le_bytes());
    out
}

fn sequence_bytes(name: &[u8], flags: u32) -> Vec<u8> {
    let mut out = field(name, 80);
    out.extend_from_slice(&100u32.to_le_bytes());
    out.extend_from_slice(&900u32.to_le_bytes());
    out.extend_from_slice(&270.0f32.to_le_bytes());
    out.extend_from_slice(&flags.to_le_bytes());
    out.extend_from_slice(&0.5f32.to_le_bytes());
    out.extend_from_slice(&7u32.to_le_bytes());
    out.extend(extent());
    out
}

fn texture_bytes(name: &[u8]) -> Vec<u8> {
    let mut out = 2u32.to_le_bytes().to_vec();
    out.extend(field(name, 260));
    out.extend_from_slice(&3u32.to_le_bytes());
    out
}

fn whole() -> Vec<u8> {
    let mut out = b"MDLX".to_vec();
    out.extend(chunk(b"VERS", &800u32.to_le_bytes()));
    out.extend(chunk(b"MODL", &model_bytes()));
    let mut seqs = sequence_bytes(b"Stand", 0);
    seqs.extend(sequence_bytes(b"Death", 1));
    out.extend(chunk(b"SEQS", &seqs));
    out.extend(chunk(b"GLBS", &[1, 2, 3, 4]));
    out.extend(chunk(b"TEXS", &texture_bytes(b"Textures\\Footman.blp")));
    out
}

#[test]
fn chunks_are_decoded_in_file_order() {
    let bytes = whole();
    let (m, warnings) = decode(&bytes).unwrap();
    assert_eq!(m.version, Some(800));
    let data = m.data.unwrap();
    assert_eq!(data.name.value, "Footman");
    assert_eq!(data.name.offset, 24);
    assert_eq!(data.animation_filename.value, "Units\\Human\\Footman.mdx");
    assert_eq!(
        data.extent,
        Bounds {
            min: Vector3 { x: f(-1.0), y: f(-2.0), z: f(-3.0) },
            max: Vector3 { x: f(1.0), y: f(2.0), z: f(3.0) },
            radius: Some(f(9.0)),
        }
    );
    assert_eq!(data.blend_time, 150);
    assert_eq!(m.sequences.len(), 2);
    assert_eq!(m.sequences[0].name.value, "Stand");
    assert_eq!(m.sequences[0].interval, [100, 900]);
    assert_eq!(m.sequences[0].move_speed, f(270.0));
    assert!(!m.sequences[0].flags.non_looping());
    assert_eq!(m.sequences[0].rarity, f(0.5));
    assert_eq!(m.sequences[0].sync_point, 7);
    assert_eq!(m.sequences[0].extent, data.extent);
    assert_eq!(m.sequences[1].name.value, "Death");
    assert!(m.sequences[1].flags.non_looping());
    assert_eq!(m.textures.len(), 1);
    assert_eq!(m.textures[0].filename.value, "Textures\\Footman.blp");
    assert_eq!((m.textures[0].replaceable_id, m.textures[0].flags), (2, 3));
    assert_eq!(m.raw.len(), 1);
    assert_eq!(m.raw[0].tag, *b"GLBS");
    assert_eq!(m.raw[0].bytes, vec![1, 2, 3, 4]);
    assert_eq!(
        warnings,
        vec![Warning::UnknownSection {
            section_type: u32::from_le_bytes(*b"GLBS"),
            offset: 4 + 12 + 380 + 272
        }]
    );
    assert_eq!(decode(&bytes), decode(&bytes));
}

#[test]
fn a_file_of_the_tag_alone_is_an_empty_model() {
    let (m, warnings) = decode(b"MDLX").unwrap();
    assert_eq!(m.version, None);
    assert_eq!(m.data, None);
    assert!(m.sequences.is_empty() && m.textures.is_empty() && m.raw.is_empty());
    assert!(warnings.is_empty());
    assert_eq!(decode(b"MDL"), Err(DecodeError::BadMagic));
    assert_eq!(decode(b"XDLXVERS"), Err(DecodeError::BadMagic));
}

#[test]
fn truncated_chunks_fail_the_decode() {
    let bytes = whole();
    for cut in [5usize, 11, 12, 15, 17, 300, bytes.len() - 1] {
        assert_eq!(decode(&bytes[..cut]), Err(DecodeError::UnexpectedEof));
    }
    assert!(decode(&bytes[..16]).is_ok());
    let mut small = b"MDLX".to_vec();
    small.extend(chunk(b"MODL", &model_bytes()[..371]));
    assert_eq!(decode(&small), Err(DecodeError::UnexpectedEof));
    let mut tiny = b"MDLX".to_vec();
    tiny.extend(chunk(b"VERS", &[0x20, 0x03, 0]));
    assert_eq!(decode(&tiny), Err(DecodeError::UnexpectedEof));
}

#[test]
fn other_versions_are_refused() {
    let mut bytes = b"MDLX".to_vec();
    bytes.extend(chunk(b"VERS", &900u32.to_le_bytes()));
    assert_eq!(
        decode(&bytes),
        Err(DecodeError::UnsupportedVersion {
            got: 900,
            supported_range: VersionRange { min: 800, max: 800 }
        })
    );
}

#[test]
fn chunks_hold_as_many_records_as_fit() {
    let mut seqs = sequence_bytes(b"Walk", 0);
    seqs.extend_from_slice(&[0xEE; 131]);
    let mut bytes = b"MDLX".to_vec();
    bytes.extend(chunk(b"SEQS", &seqs));
    bytes.extend(chunk(b"TEXS", &[0u8; 267]));
    bytes.extend(chunk(b"SEQS", &sequence_bytes(b"Run", 0)));
    bytes.extend(chunk(b"VERS", &[0x20, 0x03, 0, 0, 0xFF]));
    let (m, warnings) = decode(&bytes).unwrap();
    assert_eq!(m.sequences.len(), 2);
    assert_eq!(m.sequences[1].name.value, "Run");
    assert!(m.textures.is_empty());
    assert_eq!(m.version, Some(800));
    assert!(warnings.is_empty());
}

#[test]
fn texts_and_flags_are_checked_last() {
    let mut bytes = b"MDLX".to_vec();
    bytes.extend(chunk(b"????", &[]));
    bytes.extend(chunk(b"TEXS", &texture_bytes(&[0xFF, b'a'])));
    bytes.extend(chunk(b"SEQS", &sequence_bytes(&[b'b', 0xC0], 6)));
    let mut model = model_bytes();
    model[0] = 0x80;
    bytes.extend(chunk(b"MODL", &model));
    let (m, warnings) = decode(&bytes).unwrap();
    assert_eq!(m.textures[0].filename.value, "\u{FFFD}a");
    assert_eq!(m.sequences[0].name.value, "b\u{FFFD}");
    assert_eq!(m.sequences[0].flags, SequenceFlags { bits: 6 });
    assert_eq!(m.data.as_ref().unwrap().name.value, "\u{FFFD}ootman");
    assert_eq!(
        warnings,
        vec![
            Warning::UnknownSection { section_type: 0x3F3F_3F3F, offset: 4 },
            // the model record, whose chunk starts at 428
            Warning::TextSubstitution { position: 436 },
            // the sequence, whose chunk starts at 288
            Warning::TextSubstitution { position: 296 },
            Warning::ReservedFlags { value: 6, mask: 1 },
            // the texture, whose chunk starts at 12
            Warning::TextSubstitution { position: 24 },
        ]
    );
}

#[test]
fn records_at_a_position() {
    let mut bytes = vec![0xAB; 3];
    bytes.extend(model_bytes());
    bytes.extend(sequence_bytes(b"Attack", 1));
    bytes.extend(texture_bytes(b"a.blp"));
    assert_eq!(model_data(&bytes, 3).blend_time, 150);
    assert_eq!(sequence(&bytes, 3 + 372).name.value, "Attack");
    assert_eq!(sequence(&bytes, 3 + 372).name.offset, 375);
    assert_eq!(texture(&bytes, 3 + 372 + 132).filename.value, "a.blp");
}
