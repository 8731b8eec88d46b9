//! Tests of the decoder and the document renderers, on synthetic buffers
//! built record by record.

use ssbp6_lib::anime::{split_ref_name, AnimInitial, PartEntry, PartType};
use ssbp6_lib::binary::read_str;
use ssbp6_lib::cell::{decode_cells, CellLookup, TexFilterMode, TexWrapMode};
use ssbp6_lib::effect::{parse_behavior, BehaviorData, InitColor};
use ssbp6_lib::frames::{decode_frame_part, setup_keyframes, AttributeKeyframe};
use ssbp6_lib::project::{decode_project, render_documents, ImageParams, OutputDoc};
use ssbp6_lib::xml::Chunk;
use ssbp6_lib::{CastError, DecodeError, EffectError, PartError};

/// Renders a chunk list as text, printing scalar bit patterns and opacity
/// ratios the way the reference tool reads them back.
fn flat(chunks: &[Chunk]) -> String {
    let mut out = String::new();
    for c in chunks {
        match c {
            Chunk::Text(v) => out.push_str(std::str::from_utf8(v).unwrap()),
            Chunk::Scalar(bits) => out.push_str(&format!("{}", f32::from_bits(*bits))),
            Chunk::Ratio(v) => out.push_str(&format!("{}", *v as f32 / 255.)),
        }
    }
    out
}

fn put16(b: &mut Vec<u8>, at: usize, v: u16) {
    b[at] = (v & 0xff) as u8;
    b[at + 1] = (v >> 8) as u8;
}

fn put32(b: &mut Vec<u8>, at: usize, v: u32) {
    for i in 0..4 {
        b[at + i] = ((v >> (8 * i)) & 0xff) as u8;
    }
}

fn add_str(b: &mut Vec<u8>, s: &str) -> u32 {
    let at = b.len() as u32;
    b.extend_from_slice(s.as_bytes());
    b.push(0);
    at
}

/// A default-valued pose: every field at its neutral default.
fn default_pose() -> AnimInitial {
    AnimInitial {
        index: 0,
        reserve0: 0,
        lowflag: 0,
        highflag: 0,
        priority: 0,
        cell_index: 0,
        opacity: 255,
        local_opacity: 255,
        masklimen: 0,
        reserve1: 0,
        position_x: 0,
        position_y: 0,
        position_z: 0,
        pivot_x: 0,
        pivot_y: 0,
        rotate_x: 0,
        rotate_y: 0,
        rotate_z: 0,
        scale_x: 0x3F800000,
        scale_y: 0x3F800000,
        local_scale_x: 0,
        local_scale_y: 0,
        size_x: 0,
        size_y: 0,
        uv_move_x: 0,
        uv_move_y: 0,
        uv_rotate: 0,
        uv_scale_x: 0x3F800000,
        uv_scale_y: 0x3F800000,
        bounding_radius: 0,
        instance_current_frame: 0,
        instance_start_frame: 0,
        instance_end_frame: 0,
        instance_loop_num: 0,
        instance_speed: 0,
        instance_loop_flag: 0,
        effect_current_frame: 0,
        effect_start_time: 0,
        effect_speed: 0,
        effect_loop_flag: 0,
    }
}

fn one_lookup() -> Vec<CellLookup> {
    vec![CellLookup { map_index: 0, name: b"cell0".to_vec(), map_name: b"atlas".to_vec() }]
}

#[test]
fn setup_default_two_keyframes() {
    let kfs = setup_keyframes(&default_pose(), PartType::normal, &one_lookup());
    assert_eq!(kfs.len(), 2);
    assert!(matches!(&kfs[0], AttributeKeyframe::Cell(0, n) if n.as_slice() == b"cell0"));
    assert!(matches!(kfs[1], AttributeKeyframe::Hide(0)));
}

#[test]
fn setup_non_neutral_fields_emit() {
    let mut d = default_pose();
    d.position_x = 0x41200000; // 10.0
    d.priority = 3;
    let kfs = setup_keyframes(&d, PartType::normal, &one_lookup());
    assert_eq!(kfs.len(), 4);
    assert!(matches!(kfs[2], AttributeKeyframe::PositionX(0x41200000)));
    assert!(matches!(kfs[3], AttributeKeyframe::Prio(3)));
}

#[test]
fn setup_structural_part_has_no_cell() {
    let kfs = setup_keyframes(&default_pose(), PartType::null, &one_lookup());
    assert_eq!(kfs.len(), 0);
}

#[test]
fn frame_two_fields_payload() {
    // frame-start: part index 0, low mask with the x-position and y-scale
    // bits; then one 4-byte field each.
    let mut b = vec![0u8; 14];
    put32(&mut b, 2, 0x10 | 0x2000);
    put32(&mut b, 6, 0x3F800000);
    put32(&mut b, 10, 0x40000000);
    let (kfs, end) = decode_frame_part(&b, 0, &one_lookup()).unwrap();
    assert_eq!(end - 6, 8);
    assert_eq!(kfs.len(), 2);
    assert!(matches!(kfs[0], AttributeKeyframe::PositionX(0x3F800000)));
    assert!(matches!(kfs[1], AttributeKeyframe::ScaleY(0x40000000)));
}

#[test]
fn frame_cell_index_resolves() {
    let mut b = vec![0u8; 8];
    put32(&mut b, 2, 0x8); // cell-index bit
    put16(&mut b, 6, 0);
    let (kfs, end) = decode_frame_part(&b, 0, &one_lookup()).unwrap();
    assert_eq!(end, 8);
    assert_eq!(kfs.len(), 1);
    assert!(matches!(&kfs[0], AttributeKeyframe::Cell(0, n) if n.as_slice() == b"cell0"));
}

#[test]
fn frame_truncated_field_is_bounds_error() {
    let mut b = vec![0u8; 8];
    put32(&mut b, 2, 0x10); // one 4-byte field, only 2 bytes left
    let e = decode_frame_part(&b, 0, &one_lookup()).unwrap_err();
    assert!(matches!(e, DecodeError::Bounds { offset: 6, need: 4, len: 8 }));
}

#[test]
fn behavior_unknown_discriminant() {
    let mut b = vec![0u8; 8];
    put16(&mut b, 0, 18);
    let e = parse_behavior(&b, 0).unwrap_err();
    assert_eq!(e, DecodeError::Cast(CastError(18)));
}

#[test]
fn behavior_base_tag_is_error() {
    let b = vec![0u8; 8];
    let e = parse_behavior(&b, 0).unwrap_err();
    assert_eq!(e, DecodeError::Effect(EffectError::GotBaseEffect));
}

#[test]
fn behavior_delay_decodes() {
    let mut b = vec![0u8; 8];
    put16(&mut b, 0, 3);
    put32(&mut b, 4, 77);
    let d = parse_behavior(&b, 0).unwrap();
    assert!(matches!(d, BehaviorData::Delay(v) if v.delay_time == 77));
}

#[test]
fn behavior_color_renders_hex() {
    let c = InitColor { color_min: 0xFF00FF00, color_max: 0x1 };
    let mut doc: Vec<Chunk> = Vec::new();
    c.to_xml(&mut doc);
    let t = flat(&doc);
    assert!(t.contains("<Color value=\"FF00FF00\" subvalue=\"1\"/>"));
    assert!(t.contains("<name>init_vertexcolor</name>"));
}

#[test]
fn reference_name_splits() {
    let (pack, anim) = split_ref_name(&b"PackName/AnimName".to_vec()).unwrap();
    assert_eq!(pack, b"PackName".to_vec());
    assert_eq!(anim, b"AnimName".to_vec());
}

#[test]
fn reference_without_delimiter_is_error() {
    let e = split_ref_name(&b"PackNameOnly".to_vec()).unwrap_err();
    assert_eq!(e, DecodeError::Part(PartError::MissingPathInRefName));
}

#[test]
fn empty_reference_emits_no_fields() {
    let p = PartEntry {
        name: b"part0".to_vec(),
        index: 0,
        parent_index: -1,
        part_type: PartType::normal,
        bounds_type: ssbp6_lib::anime::BoundsType::none,
        alpha_blend_type: ssbp6_lib::anime::BlendType::mix,
        ref_name: Vec::new(),
        effect_name: Vec::new(),
        color_label: Vec::new(),
        mask_influence: 0,
    };
    let mut doc: Vec<Chunk> = Vec::new();
    p.to_xml(&mut doc).unwrap();
    let t = flat(&doc);
    assert!(!t.contains("refAnimePack"));
    assert!(!t.contains("refEffectName"));
    assert!(t.contains("<inheritType>self</inheritType>"));
}

/// Builds the cell-table slice of a buffer: `maps` atlas records followed
/// by entries referencing them round-robin with ascending in-map indices.
fn cells_buffer(maps: u16, entries: u16, dup: bool) -> (Vec<u8>, u32) {
    let mut b = vec![0u8; 64];
    let map_base = b.len();
    b.resize(map_base + 0x10 * maps as usize, 0);
    let entry_base = b.len();
    b.resize(entry_base + 0x2c * entries as usize, 0);
    for m in 0..maps {
        let at = map_base + 0x10 * m as usize;
        let name = add_str(&mut b, &format!("map{}", m));
        let img = add_str(&mut b, &format!("map{}.png", m));
        put32(&mut b, at, name);
        put32(&mut b, at + 4, img);
        put16(&mut b, at + 8, m);
        put16(&mut b, at + 10, 0);
        put16(&mut b, at + 12, 1);
    }
    for e in 0..entries {
        let at = entry_base + 0x2c * e as usize;
        let name = add_str(&mut b, &format!("cell{}", e));
        let m = e % maps;
        put32(&mut b, at, name);
        put32(&mut b, at + 4, (map_base + 0x10 * m as usize) as u32);
        put16(&mut b, at + 8, if dup { 0 } else { e / maps });
    }
    (b, entry_base as u32)
}

#[test]
fn resolver_groups_by_map() {
    let (b, off) = cells_buffer(2, 4, false);
    let (cells, lookup) = decode_cells(&b, off, 4).unwrap();
    assert_eq!(cells.len(), 2);
    assert_eq!(lookup.len(), 4);
    assert_eq!(cells[0].list.len(), 2);
    assert_eq!(cells[1].list.len(), 2);
    assert_eq!(cells[0].data.get_index(), 0);
    assert_eq!(cells[1].data.get_index(), 1);
    assert_eq!(lookup[3].map_index, 1);
    assert_eq!(lookup[2].name, b"cell2".to_vec());
    assert_eq!(cells[0].get_name_by_index(1), Some(&b"cell2".to_vec()));
}

#[test]
fn resolver_duplicate_index_is_error() {
    let (b, off) = cells_buffer(1, 2, true);
    let e = decode_cells(&b, off, 2).unwrap_err();
    assert_eq!(e, DecodeError::DuplicateIndex { map_index: 0, cell_index: 0 });
}

#[test]
fn unterminated_string_is_error() {
    let b = vec![65u8, 66, 67];
    let e = read_str(&b, 0).unwrap_err();
    assert_eq!(e, DecodeError::InvalidString { offset: 0 });
}

#[test]
fn invalid_utf8_string_is_error() {
    let b = vec![0xFFu8, 0xFE, 0, 0];
    let e = read_str(&b, 0).unwrap_err();
    assert_eq!(e, DecodeError::InvalidString { offset: 0 });
}

#[test]
fn wrap_mode_cast_error() {
    assert_eq!(TexWrapMode::from_u16(3).unwrap_err(), DecodeError::Cast(CastError(3)));
    assert_eq!(TexWrapMode::from_u16(2).unwrap(), TexWrapMode::mirror);
    assert_eq!(TexFilterMode::from_u16(0).unwrap(), TexFilterMode::nearlest);
}

#[test]
fn escaped_name_in_atlas_document() {
    let (b, off) = cells_buffer(1, 1, false);
    let (cells, _) = decode_cells(&b, off, 1).unwrap();
    let doc = cells[0].to_xml(&b"a&b.png".to_vec(), 32, 16);
    let t = flat(&doc);
    assert!(t.contains("<imagePath>a&amp;b.png</imagePath>"));
    assert!(t.contains("<pixelSize>32 16</pixelSize>"));
    assert!(t.contains("<wrapMode>clamp</wrapMode>"));
    assert!(t.contains("<filterMode>linear</filterMode>"));
    assert!(t.contains("<name>cell0</name>"));
}

/// Builds one whole project buffer: one atlas of one cell, one pack of one
/// normal part with the clips `Setup` and `Run`.
fn whole_project_buffer() -> Vec<u8> {
    let mut b = vec![0u8; 0x24];
    // cell map
    let map_at = b.len();
    b.resize(map_at + 0x10, 0);
    // cell entry
    let cell_at = b.len();
    b.resize(cell_at + 0x2c, 0);
    // anime pack record
    let pack_at = b.len();
    b.resize(pack_at + 0x10, 0);
    // one part
    let part_at = b.len();
    b.resize(part_at + 0x20, 0);
    // two clips
    let anim_at = b.len();
    b.resize(anim_at + 0x34 * 2, 0);
    // one default pose record
    let init_at = b.len();
    b.resize(init_at + 0x90, 0);
    // frame pointer table of the Run clip (one frame)
    let fptr_at = b.len();
    b.resize(fptr_at + 4, 0);
    // the Run clip's single frame stream: part index, empty low mask
    let frame_at = b.len();
    b.resize(frame_at + 6, 0);
    let empty = add_str(&mut b, "");
    let s_atlas = add_str(&mut b, "atlas");
    let s_img = add_str(&mut b, "atlas.png");
    let s_cell0 = add_str(&mut b, "cell0");
    let s_pack = add_str(&mut b, "AnimePack");
    let s_part0 = add_str(&mut b, "part0");
    let s_setup = add_str(&mut b, "Setup");
    let s_run = add_str(&mut b, "Run");
    // header
    put32(&mut b, 12, empty);
    put32(&mut b, 16, cell_at as u32);
    put32(&mut b, 20, pack_at as u32);
    put32(&mut b, 24, 0);
    put16(&mut b, 28, 1); // cells
    put16(&mut b, 30, 1); // packs
    put16(&mut b, 32, 0); // effects
    // map
    put32(&mut b, map_at, s_atlas);
    put32(&mut b, map_at + 4, s_img);
    put16(&mut b, map_at + 8, 0);
    put16(&mut b, map_at + 10, 0);
    put16(&mut b, map_at + 12, 1);
    // cell
    put32(&mut b, cell_at, s_cell0);
    put32(&mut b, cell_at + 4, map_at as u32);
    put16(&mut b, cell_at + 8, 0);
    put16(&mut b, cell_at + 14, 8);
    put16(&mut b, cell_at + 16, 8);
    // pack
    put32(&mut b, pack_at, s_pack);
    put32(&mut b, pack_at + 4, part_at as u32);
    put32(&mut b, pack_at + 8, anim_at as u32);
    put16(&mut b, pack_at + 12, 1);
    put16(&mut b, pack_at + 14, 2);
    // part: index 0, parent -1, normal
    put32(&mut b, part_at, s_part0);
    put16(&mut b, part_at + 4, 0);
    put16(&mut b, part_at + 6, 0xFFFF);
    put16(&mut b, part_at + 8, 1);
    put32(&mut b, part_at + 16, empty);
    put32(&mut b, part_at + 20, empty);
    put32(&mut b, part_at + 24, empty);
    // Setup clip
    put32(&mut b, anim_at, s_setup);
    put32(&mut b, anim_at + 4, init_at as u32);
    put32(&mut b, anim_at + 8, fptr_at as u32);
    put32(&mut b, anim_at + 16, 0);
    put16(&mut b, anim_at + 32, 1); // total frames
    put16(&mut b, anim_at + 34, 30); // fps
    // Run clip
    let run_at = anim_at + 0x34;
    put32(&mut b, run_at, s_run);
    put32(&mut b, run_at + 4, init_at as u32);
    put32(&mut b, run_at + 8, fptr_at as u32);
    put32(&mut b, run_at + 16, 0);
    put16(&mut b, run_at + 32, 1);
    put16(&mut b, run_at + 34, 30);
    // default pose: neutral values
    put16(&mut b, init_at + 14, 0); // cell index
    put16(&mut b, init_at + 16, 255);
    put16(&mut b, init_at + 18, 255);
    put32(&mut b, init_at + 56, 0x3F800000);
    put32(&mut b, init_at + 60, 0x3F800000);
    put32(&mut b, init_at + 92, 0x3F800000);
    put32(&mut b, init_at + 96, 0x3F800000);
    // frame table of Run: one pointer to the empty frame record
    put32(&mut b, fptr_at, frame_at as u32);
    b
}

fn render_whole() -> Vec<OutputDoc> {
    let b = whole_project_buffer();
    let project = decode_project(&b).unwrap();
    assert_eq!(project.cells.len(), 1);
    assert_eq!(project.animes.len(), 1);
    let images =
        vec![ImageParams { name: b"atlas.png".to_vec(), width: 64, height: 64 }];
    render_documents(&b, &project, &b"proj".to_vec(), &images).unwrap()
}

#[test]
fn end_to_end_project() {
    let docs = render_whole();
    assert_eq!(docs.len(), 3);
    assert_eq!(docs[0].file_name, b"atlas.ssce".to_vec());
    assert_eq!(docs[1].file_name, b"AnimePack.ssae".to_vec());
    assert_eq!(docs[2].file_name, b"proj.sspj".to_vec());
    let atlas = flat(&docs[0].chunks);
    assert!(atlas.contains("<name>cell0</name>"));
    assert!(atlas.contains("<imagePath>atlas.png</imagePath>"));
    assert!(atlas.contains("<pixelSize>64 64</pixelSize>"));
    let pack = flat(&docs[1].chunks);
    assert!(pack.contains("<name>AnimePack</name>"));
    assert!(pack.contains("<name>Setup</name>"));
    assert!(pack.contains("<name>Run</name>"));
    assert!(pack.contains("<isSetup>1</isSetup>"));
    assert!(pack.contains("<isSetup>0</isSetup>"));
    assert!(pack.contains("<partName>part0</partName>"));
    assert!(pack.contains("<attribute tag=\"CELL\">"));
    assert!(pack.contains("<mapId>0</mapId><name>cell0</name>"));
    assert!(pack.contains("<cellmapNames><value>atlas.ssce</value></cellmapNames>"));
    let proj = flat(&docs[2].chunks);
    assert!(proj.contains("<name>proj</name>"));
    assert!(proj.contains("<cellmapNames><value>atlas.ssce</value></cellmapNames>"));
    assert!(proj.contains("<animepackNames><value>AnimePack.ssae</value></animepackNames>"));
    assert!(proj.contains("<effectFileNames></effectFileNames>"));
}

#[test]
fn conversion_is_deterministic() {
    let first = render_whole();
    let second = render_whole();
    assert_eq!(first.len(), second.len());
    for (a, b) in first.iter().zip(second.iter()) {
        assert_eq!(a.file_name, b.file_name);
        assert_eq!(flat(&a.chunks), flat(&b.chunks));
    }
}

#[test]
fn opacity_renders_as_ratio() {
    let mut doc: Vec<Chunk> = Vec::new();
    AttributeKeyframe::Opacity(128).to_xml(0, &mut doc, true);
    let t = flat(&doc);
    assert_eq!(t, "<key time=\"0\"><value>0.5019608</value></key>");
}

#[test]
fn interpolation_marker_only_where_due() {
    let mut doc: Vec<Chunk> = Vec::new();
    AttributeKeyframe::PositionX(0).to_xml(5, &mut doc, false);
    assert!(flat(&doc).starts_with("<key time=\"5\" ipType=\"linear\">"));
    let mut doc2: Vec<Chunk> = Vec::new();
    AttributeKeyframe::Hide(0).to_xml(5, &mut doc2, false);
    assert!(flat(&doc2).starts_with("<key time=\"5\">"));
}

#[test]
fn xml_specials_are_escaped() {
    let (b, off) = cells_buffer(1, 1, false);
    let (cells, _) = decode_cells(&b, off, 1).unwrap();
    let doc = cells[0].to_xml(&b"a<b>&\"c'".to_vec(), 1, 1);
    assert!(flat(&doc).contains("<imagePath>a&lt;b&gt;&amp;&quot;c&apos;</imagePath>"));
}

#[test]
fn negative_parent_index_renders() {
    let docs = render_whole();
    let pack = flat(&docs[1].chunks);
    assert!(pack.contains("<parentIndex>-1</parentIndex>"));
    assert!(pack.contains("<type>normal</type>"));
    assert!(pack.contains("<fps>30</fps><frameCount>1</frameCount>"));
}

#[test]
fn header_too_short_is_bounds_error() {
    let b = vec![0u8; 4];
    let e = decode_project(&b).unwrap_err();
    assert!(matches!(e, DecodeError::Bounds { offset: 0, need: 0x24, len: 4 }));
}
