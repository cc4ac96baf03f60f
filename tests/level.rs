use wad::archive::{Archive, Lump};
use wad::level::{Level, LevelError};
use wad::types::{
    WadLinedef, WadName, WadSector, WadSeg, WadSidedef, WadSubsector, WadVertex,
};

fn name(s: &str) -> WadName {
    let mut bytes = [0u8; 8];
    for (i, b) in s.bytes().enumerate() {
        bytes[i] = b;
    }
    WadName { bytes }
}

fn push16(out: &mut Vec<u8>, v: i32) {
    let u = v as u16;
    out.push((u & 0xff) as u8);
    out.push((u >> 8) as u8);
}

fn push_name(out: &mut Vec<u8>, s: &str) {
    out.extend_from_slice(&name(s).bytes);
}

fn lump(n: &str, data: Vec<u8>) -> Lump {
    Lump { name: name(n), data }
}

fn linedef_bytes(out: &mut Vec<u8>, v1: i32, v2: i32, right: i32, left: i32) {
    for v in [v1, v2, 0, 0, 0, right, left] {
        push16(out, v);
    }
}

fn sidedef_bytes(out: &mut Vec<u8>, upper: &str, sector: i32) {
    push16(out, 0);
    push16(out, 0);
    push_name(out, upper);
    push_name(out, "-");
    push_name(out, "-");
    push16(out, sector);
}

fn sector_bytes(out: &mut Vec<u8>, floor: &str, light: i32) {
    push16(out, 0);
    push16(out, 128);
    push_name(out, floor);
    push_name(out, "CEIL1_1");
    push16(out, light);
    push16(out, 0);
    push16(out, 0);
}

/// A level with two sectors joined by one two-sided linedef.
fn two_sector_archive() -> Archive {
    let mut linedefs = Vec::new();
    linedef_bytes(&mut linedefs, 0, 1, 0, 1);
    let mut sidedefs = Vec::new();
    sidedef_bytes(&mut sidedefs, "startan3", 0);
    sidedef_bytes(&mut sidedefs, "STARTAN3", 1);
    let mut vertices = Vec::new();
    for v in [0, 0, 64, -64] {
        push16(&mut vertices, v);
    }
    let mut sectors = Vec::new();
    sector_bytes(&mut sectors, "flat1", 200);
    sector_bytes(&mut sectors, "FLAT2", 50);
    Archive {
        lumps: vec![
            lump("PLAYPAL", vec![1, 2, 3]),
            lump("E1M1", vec![]),
            lump("THINGS", vec![]),
            lump("LINEDEFS", linedefs),
            lump("SIDEDEFS", sidedefs),
            lump("VERTEXES", vertices),
            lump("SEGS", vec![]),
            lump("SSECTORS", vec![]),
            lump("NODES", vec![]),
            lump("SECTORS", sectors),
        ],
    }
}

fn sector(light: i16) -> WadSector {
    WadSector {
        floor_height: 0,
        ceiling_height: 128,
        floor_texture: name("FLOOR"),
        ceiling_texture: name("CEIL"),
        light,
        sector_type: 0,
        tag: 0,
    }
}

fn sidedef(sector: u16) -> WadSidedef {
    WadSidedef {
        x_offset: 0,
        y_offset: 0,
        upper_texture: name("-"),
        lower_texture: name("-"),
        middle_texture: name("WALL"),
        sector,
    }
}

fn linedef(right: i16, left: i16) -> WadLinedef {
    WadLinedef {
        start_vertex: 0,
        end_vertex: 1,
        flags: 0,
        special_type: 0,
        sector_tag: 0,
        right_side: right,
        left_side: left,
    }
}

fn seg(linedef: u16, direction: u16) -> WadSeg {
    WadSeg { start_vertex: 0, end_vertex: 1, angle: 0, linedef, direction, offset: 0 }
}

fn level(linedefs: Vec<WadLinedef>, sidedefs: Vec<WadSidedef>, sectors: Vec<WadSector>) -> Level {
    Level {
        things: vec![],
        linedefs,
        sidedefs,
        vertices: vec![WadVertex { x: 0, y: 0 }, WadVertex { x: 64, y: 0 }],
        segs: vec![seg(0, 0), seg(0, 1), seg(1, 0), seg(1, 1)],
        subsectors: vec![],
        nodes: vec![],
        sectors,
    }
}

#[test]
fn two_sector_archive_min_light() {
    let wad = two_sector_archive();
    let level = Level::from_archive(&wad, &name("E1M1")).unwrap();
    assert_eq!(level.linedefs.len(), 1);
    assert_eq!(level.sidedefs.len(), 2);
    assert_eq!(level.vertices.len(), 2);
    assert_eq!(level.sectors.len(), 2);
    assert!(level.is_well_linked());
    assert_eq!(level.sectors[0].light, 200);
    assert_eq!(level.sectors[1].light, 50);
    assert_eq!(level.sector_min_light(0), 50);
    assert_eq!(level.sector_min_light(1), 50);
}

#[test]
fn loader_decodes_fields() {
    let wad = two_sector_archive();
    let level = Level::from_archive(&wad, &name("E1M1")).unwrap();
    assert_eq!(level.linedefs[0].right_side, 0);
    assert_eq!(level.linedefs[0].left_side, 1);
    assert_eq!(level.vertices[1].x, 64);
    assert_eq!(level.vertices[1].y, -64);
    assert_eq!(level.sectors[0].ceiling_height, 128);
    assert_eq!(level.sidedefs[1].sector, 1);
}

#[test]
fn loader_canonicalises_texture_names() {
    let wad = two_sector_archive();
    let level = Level::from_archive(&wad, &name("E1M1")).unwrap();
    assert_eq!(level.sidedefs[0].upper_texture, name("STARTAN3"));
    assert_eq!(level.sectors[0].floor_texture, name("FLAT1"));
    assert_eq!(level.sectors[1].floor_texture, name("FLAT2"));
}

#[test]
fn loader_reads_one_sided_marker() {
    let mut wad = two_sector_archive();
    let mut linedefs = Vec::new();
    linedef_bytes(&mut linedefs, 0, 1, 0, -1);
    wad.lumps[3].data = linedefs;
    let level = Level::from_archive(&wad, &name("E1M1")).unwrap();
    assert_eq!(level.linedefs[0].left_side, -1);
    assert!(level.left_sidedef(&level.linedefs[0]).is_none());
}

#[test]
fn missing_level_is_reported() {
    let wad = two_sector_archive();
    assert_eq!(Level::from_archive(&wad, &name("E1M2")).err(), Some(LevelError::NoSuchLevel));
}

#[test]
fn truncated_level_is_reported() {
    let mut wad = two_sector_archive();
    wad.lumps.pop();
    assert_eq!(Level::from_archive(&wad, &name("E1M1")).err(), Some(LevelError::MissingLumps));
}

#[test]
fn malformed_lump_is_reported() {
    let mut wad = two_sector_archive();
    wad.lumps[5].data.push(7);
    assert_eq!(Level::from_archive(&wad, &name("E1M1")).err(), Some(LevelError::MalformedLump));
}

#[test]
fn first_lump_of_a_name_is_the_marker() {
    let wad = two_sector_archive();
    assert_eq!(wad.get_lump_index(&name("E1M1")), Some(1));
    assert_eq!(wad.get_lump_index(&name("PLAYPAL")), Some(0));
    assert_eq!(wad.get_lump_index(&name("MAP01")), None);
}

#[test]
fn canonical_name_upper_case_and_zero_padded() {
    let mut n = WadName { bytes: [b'a', b'b', 0, b'c', b'd', 0, b'e', b'1'] };
    n.canonicalise();
    assert_eq!(n.bytes, [b'A', b'B', 0, 0, 0, 0, 0, 0]);
    let mut m = name("sw1_2");
    m.canonicalise();
    assert_eq!(m, name("SW1_2"));
}

#[test]
fn one_sided_linedef_has_no_back() {
    let level = level(vec![linedef(0, -1)], vec![sidedef(0)], vec![sector(160)]);
    let line = &level.linedefs[0];
    assert!(level.left_sidedef(line).is_none());
    assert_eq!(level.right_sidedef(line).unwrap().sector, 0);
    assert!(level.seg_back_sidedef(&seg(0, 0)).is_none());
    assert_eq!(level.seg_sidedef(&seg(0, 0)).sector, 0);
    // A seg running against the linedef has the right side as its back.
    assert_eq!(level.seg_back_sidedef(&seg(0, 1)).unwrap().sector, 0);
}

/// Three sectors in a row: 0 (light 100) next to 1 (light 160) next to 2
/// (light 40), with a one-sided wall around sector 0.
fn three_sector_level() -> Level {
    level(
        vec![linedef(0, 1), linedef(2, 3), linedef(4, -1)],
        vec![sidedef(0), sidedef(1), sidedef(1), sidedef(2), sidedef(0)],
        vec![sector(100), sector(160), sector(40)],
    )
}

#[test]
fn min_light_over_neighbours() {
    let level = three_sector_level();
    assert!(level.is_well_linked());
    assert_eq!(level.sector_min_light(0), 100);
    assert_eq!(level.sector_min_light(1), 40);
    assert_eq!(level.sector_min_light(2), 40);
}

#[test]
fn min_light_never_above_own_light() {
    let level = three_sector_level();
    for s in 0..3u16 {
        assert!(level.sector_min_light(s) <= level.sectors[s as usize].light);
    }
}

#[test]
fn min_light_of_isolated_sector_is_own() {
    let level = level(vec![linedef(0, -1)], vec![sidedef(0)], vec![sector(77)]);
    assert_eq!(level.sector_min_light(0), 77);
}

#[test]
fn seg_sides_follow_direction() {
    let level = three_sector_level();
    assert_eq!(level.seg_sidedef(&seg(0, 0)).sector, 0);
    assert_eq!(level.seg_back_sidedef(&seg(0, 0)).unwrap().sector, 1);
    assert_eq!(level.seg_sidedef(&seg(0, 1)).sector, 1);
    assert_eq!(level.seg_back_sidedef(&seg(0, 1)).unwrap().sector, 0);
    assert_eq!(level.seg_sector(&seg(1, 0)).sector().light, 160);
    assert_eq!(level.seg_sector(&seg(1, 0)).id(), 1);
    let back = level.seg_back_sector(&seg(1, 0)).unwrap();
    assert_eq!(back.sector().light, 40);
    assert_eq!(level.sector_id(&back), 2);
    assert_eq!(level.seg_sector(&seg(1, 1)).sector().light, 40);
    assert!(level.seg_back_sector(&seg(2, 0)).is_none());
    assert_eq!(*level.seg_linedef(&seg(1, 0)), linedef(2, 3));
}

#[test]
fn two_sided_sidedefs_lead_to_sectors_in_range() {
    let level = three_sector_level();
    let expected = [(0u16, 100i16, 1u16, 160i16), (1, 160, 2, 40)];
    for (k, &(right_id, right_light, left_id, left_light)) in expected.iter().enumerate() {
        let line = &level.linedefs[k];
        let right = level.sidedef_sector(level.right_sidedef(line).unwrap());
        let left = level.sidedef_sector(level.left_sidedef(line).unwrap());
        assert_eq!(level.sector_id(&right), right_id);
        assert_eq!(right.sector().light, right_light);
        assert_eq!(level.sector_id(&left), left_id);
        assert_eq!(left.sector().light, left_light);
        assert!((right_id as usize) < level.sectors.len());
        assert!((left_id as usize) < level.sectors.len());
    }
    assert_eq!(level.sidedef_sector(&level.sidedefs[3]).sector().light, 40);
}

#[test]
fn broken_links_are_detected() {
    let bad_side = level(vec![linedef(5, -1)], vec![sidedef(0)], vec![sector(1)]);
    assert!(!bad_side.is_well_linked());
    let negative_side = level(vec![linedef(0, -2)], vec![sidedef(0)], vec![sector(1)]);
    assert!(!negative_side.is_well_linked());
    let bad_sector = level(vec![linedef(0, -1)], vec![sidedef(3)], vec![sector(1)]);
    assert!(!bad_sector.is_well_linked());
}

#[test]
fn sector_id_is_position() {
    let level = three_sector_level();
    for i in 0..3u16 {
        let handle = level.sector(i);
        assert_eq!(level.sector_id(&handle), i);
        assert_eq!(*handle.sector(), level.sectors[i as usize]);
    }
}

#[test]
fn repeated_sectors_keep_their_positions() {
    let level = level(
        vec![linedef(0, -1)],
        vec![sidedef(2)],
        vec![sector(5), sector(9), sector(9)],
    );
    assert_eq!(level.sector_id(&level.sector(2)), 2);
    assert_eq!(level.sector_id(&level.sector(1)), 1);
    assert_eq!(level.sector_id(&level.sidedef_sector(&level.sidedefs[0])), 2);
}

#[test]
fn ssector_segs_is_a_range() {
    let level = three_sector_level();
    let segs = level.ssector_segs(&WadSubsector { num_segs: 2, first_seg: 1 });
    assert_eq!(segs.len(), 2);
    assert_eq!(segs[0], seg(0, 1));
    assert_eq!(segs[1], seg(1, 0));
}

#[test]
fn empty_ssector_has_no_segs() {
    let level = three_sector_level();
    assert!(level.ssector_segs(&WadSubsector { num_segs: 0, first_seg: 4 }).is_empty());
    assert!(level.ssector_segs(&WadSubsector { num_segs: 0, first_seg: 0 }).is_empty());
}
