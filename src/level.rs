//! One level's eight record sequences, and the queries over the links
//! between them.
use vstd::prelude::*;
use crate::archive::{Archive, records_of, whole_records, read_records};
use crate::types::{
    WadThing, WadLinedef, WadSidedef, WadVertex, WadSeg, WadSubsector, WadNode, WadSector,
    WadName, SidedefId, SectorId, LightLevel,
};

verus! {

// Positions of a level's lumps after its marker lump, fixed by the format.
const THINGS_OFFSET: usize = 1;

const LINEDEFS_OFFSET: usize = 2;

const SIDEDEFS_OFFSET: usize = 3;

const VERTICES_OFFSET: usize = 4;

const SEGS_OFFSET: usize = 5;

const SSECTORS_OFFSET: usize = 6;

const NODES_OFFSET: usize = 7;

const SECTORS_OFFSET: usize = 8;

/// Why a level could not be loaded.
#[derive(Clone, Copy, Debug, PartialEq, Eq, Structural)]
pub enum LevelError {
    /// No lump carries the level's name.
    NoSuchLevel,
    /// The archive ends before the level's eight lumps do.
    MissingLumps,
    /// One of the level's lumps is not a whole number of records.
    MalformedLump,
}

/// The eight record sequences of one level, each indexed by position.
pub struct Level {
    pub things: Vec<WadThing>,
    pub linedefs: Vec<WadLinedef>,
    pub sidedefs: Vec<WadSidedef>,
    pub vertices: Vec<WadVertex>,
    pub segs: Vec<WadSeg>,
    pub subsectors: Vec<WadSubsector>,
    pub nodes: Vec<WadNode>,
    pub sectors: Vec<WadSector>,
}

/// A sector of a level together with its position in the level's sector
/// sequence. Only a `Level` hands these out, so the position is always the
/// one that the sector was taken from.
pub struct SectorRef<'a> {
    id: SectorId,
    sector: &'a WadSector,
}

impl<'a> SectorRef<'a> {
    /// The position of the sector.
    pub closed spec fn spec_id(&self) -> SectorId {
        self.id
    }

    /// The sector's values.
    pub closed spec fn spec_sector(&self) -> WadSector {
        *self.sector
    }

    pub fn id(&self) -> (r: SectorId)
        ensures
            r == self.spec_id(),
    {
        self.id
    }

    pub fn sector(&self) -> (r: &'a WadSector)
        ensures
            *r == self.spec_sector(),
    {
        self.sector
    }
}

/// The bytes of lump `i`.
pub open spec fn lump_bytes(wad: &Archive, i: int) -> Seq<u8> {
    wad.lumps@[i].data@
}

/// Whether each of the eight lumps after the marker at `start` is a whole
/// number of records of its kind.
pub open spec fn lumps_whole(wad: &Archive, start: int) -> bool {
    &&& whole_records::<WadThing>(lump_bytes(wad, start + 1))
    &&& whole_records::<WadLinedef>(lump_bytes(wad, start + 2))
    &&& whole_records::<WadSidedef>(lump_bytes(wad, start + 3))
    &&& whole_records::<WadVertex>(lump_bytes(wad, start + 4))
    &&& whole_records::<WadSeg>(lump_bytes(wad, start + 5))
    &&& whole_records::<WadSubsector>(lump_bytes(wad, start + 6))
    &&& whole_records::<WadNode>(lump_bytes(wad, start + 7))
    &&& whole_records::<WadSector>(lump_bytes(wad, start + 8))
}

/// Whether `s` is the sequence of sidedefs that `b` holds, with their
/// texture names canonicalised.
pub open spec fn sidedefs_of(b: Seq<u8>, s: Seq<WadSidedef>) -> bool {
    exists|raw: Seq<WadSidedef>|
        {
            &&& records_of(b, raw)
            &&& raw.len() == s.len()
            &&& forall|k: int| 0 <= k < s.len() ==> #[trigger] s[k].canonical_of(raw[k])
        }
}

/// Whether `s` is the sequence of sectors that `b` holds, with their
/// texture names canonicalised.
pub open spec fn sectors_of(b: Seq<u8>, s: Seq<WadSector>) -> bool {
    exists|raw: Seq<WadSector>|
        {
            &&& records_of(b, raw)
            &&& raw.len() == s.len()
            &&& forall|k: int| 0 <= k < s.len() ==> #[trigger] s[k].canonical_of(raw[k])
        }
}

fn canonicalise_sidedefs(v: &mut Vec<WadSidedef>)
    ensures
        final(v)@.len() == old(v)@.len(),
        forall|k: int| 0 <= k < final(v)@.len() ==> #[trigger] final(v)@[k].canonical_of(old(v)@[k]),
{
    let ghost raw = v@;
    let mut i: usize = 0;
    while i < v.len()
        invariant
            v@.len() == raw.len(),
            0 <= i <= v@.len(),
            forall|k: int| 0 <= k < i ==> #[trigger] v@[k].canonical_of(raw[k]),
            forall|k: int| i <= k < v@.len() ==> v@[k] == raw[k],
        decreases v@.len() - i,
    {
        let mut side = v[i];
        side.canonicalise();
        v.set(i, side);
        i = i + 1;
    }
}

fn canonicalise_sectors(v: &mut Vec<WadSector>)
    ensures
        final(v)@.len() == old(v)@.len(),
        forall|k: int| 0 <= k < final(v)@.len() ==> #[trigger] final(v)@[k].canonical_of(old(v)@[k]),
{
    let ghost raw = v@;
    let mut i: usize = 0;
    while i < v.len()
        invariant
            v@.len() == raw.len(),
            0 <= i <= v@.len(),
            forall|k: int| 0 <= k < i ==> #[trigger] v@[k].canonical_of(raw[k]),
            forall|k: int| i <= k < v@.len() ==> v@[k] == raw[k],
        decreases v@.len() - i,
    {
        let mut sector = v[i];
        sector.canonicalise();
        v.set(i, sector);
        i = i + 1;
    }
}

impl Level {
    /// Whether this level holds the records of the eight lumps after the
    /// marker at `start`, with the texture names of sidedefs and sectors
    /// canonicalised.
    pub open spec fn loaded_from(&self, wad: &Archive, start: int) -> bool {
        &&& records_of(lump_bytes(wad, start + 1), self.things@)
        &&& records_of(lump_bytes(wad, start + 2), self.linedefs@)
        &&& sidedefs_of(lump_bytes(wad, start + 3), self.sidedefs@)
        &&& records_of(lump_bytes(wad, start + 4), self.vertices@)
        &&& records_of(lump_bytes(wad, start + 5), self.segs@)
        &&& records_of(lump_bytes(wad, start + 6), self.subsectors@)
        &&& records_of(lump_bytes(wad, start + 7), self.nodes@)
        &&& sectors_of(lump_bytes(wad, start + 8), self.sectors@)
    }

    /// Loads the level whose marker lump is the first one called `name`.
    pub fn from_archive(wad: &Archive, name: &WadName) -> (r: Result<Level, LevelError>)
        ensures
            (r matches Err(LevelError::NoSuchLevel)) <==> !wad.has_lump(name.bytes@),
            forall|start: int| #[trigger]
                wad.first_named(name.bytes@, start) ==> {
                    &&& (r matches Err(LevelError::MissingLumps)) <==> start + 8
                        >= wad.lumps@.len()
                    &&& (r matches Err(LevelError::MalformedLump)) <==> (start + 8
                        < wad.lumps@.len() && !lumps_whole(wad, start))
                    &&& r matches Ok(level) ==> level.loaded_from(wad, start)
                },
    {
        let start = match wad.get_lump_index(name) {
            Some(i) => i,
            None => {
                return Err(LevelError::NoSuchLevel);
            },
        };
        if wad.lumps.len() - start <= SECTORS_OFFSET {
            return Err(LevelError::MissingLumps);
        }
        let things = match read_records::<WadThing>(&wad.lumps[start + THINGS_OFFSET].data) {
            Some(v) => v,
            None => {
                return Err(LevelError::MalformedLump);
            },
        };
        let linedefs = match read_records::<WadLinedef>(
            &wad.lumps[start + LINEDEFS_OFFSET].data,
        ) {
            Some(v) => v,
            None => {
                return Err(LevelError::MalformedLump);
            },
        };
        let vertices = match read_records::<WadVertex>(&wad.lumps[start + VERTICES_OFFSET].data) {
            Some(v) => v,
            None => {
                return Err(LevelError::MalformedLump);
            },
        };
        let segs = match read_records::<WadSeg>(&wad.lumps[start + SEGS_OFFSET].data) {
            Some(v) => v,
            None => {
                return Err(LevelError::MalformedLump);
            },
        };
        let subsectors = match read_records::<WadSubsector>(
            &wad.lumps[start + SSECTORS_OFFSET].data,
        ) {
            Some(v) => v,
            None => {
                return Err(LevelError::MalformedLump);
            },
        };
        let nodes = match read_records::<WadNode>(&wad.lumps[start + NODES_OFFSET].data) {
            Some(v) => v,
            None => {
                return Err(LevelError::MalformedLump);
            },
        };
        let mut sidedefs = match read_records::<WadSidedef>(
            &wad.lumps[start + SIDEDEFS_OFFSET].data,
        ) {
            Some(v) => v,
            None => {
                return Err(LevelError::MalformedLump);
            },
        };
        let ghost raw_sidedefs = sidedefs@;
        canonicalise_sidedefs(&mut sidedefs);
        let mut sectors = match read_records::<WadSector>(&wad.lumps[start + SECTORS_OFFSET].data) {
            Some(v) => v,
            None => {
                return Err(LevelError::MalformedLump);
            },
        };
        let ghost raw_sectors = sectors@;
        canonicalise_sectors(&mut sectors);
        let level = Level { things, linedefs, sidedefs, vertices, segs, subsectors, nodes, sectors };
        assert(sidedefs_of(lump_bytes(wad, start + 3), level.sidedefs@));
        assert(sectors_of(lump_bytes(wad, start + 8), level.sectors@));
        Ok(level)
    }
}


impl Level {
    /// Whether a side index is the "no sidedef" mark or a valid index.
    pub open spec fn side_valid(&self, side: SidedefId) -> bool {
        side == -1 || (0 <= side < self.sidedefs@.len())
    }

    /// Whether a side index names a sidedef of this level.
    pub open spec fn side_present(&self, side: SidedefId) -> bool {
        0 <= side < self.sidedefs@.len()
    }

    /// The side index of the linedef of `seg` that faces the seg's front.
    pub open spec fn front_side(&self, seg: WadSeg) -> SidedefId {
        let line = self.linedefs@[seg.linedef as int];
        if seg.direction == 0 {
            line.right_side
        } else {
            line.left_side
        }
    }

    /// The side index of the linedef of `seg` that faces the seg's back.
    pub open spec fn back_side(&self, seg: WadSeg) -> SidedefId {
        let line = self.linedefs@[seg.linedef as int];
        if seg.direction == 1 {
            line.right_side
        } else {
            line.left_side
        }
    }

    /// Whether every linedef's sides are valid and every sidedef's sector
    /// is a sector of this level.
    pub open spec fn links_valid(&self) -> bool {
        &&& forall|i: int|
            0 <= i < self.linedefs@.len() ==> {
                &&& self.side_valid((#[trigger] self.linedefs@[i]).left_side)
                &&& self.side_valid(self.linedefs@[i].right_side)
            }
        &&& forall|i: int|
            0 <= i < self.sidedefs@.len() ==> (#[trigger] self.sidedefs@[i].sector as int)
                < self.sectors@.len()
    }

    /// Checks that every link between linedefs, sidedefs and sectors is in
    /// range.
    pub fn is_well_linked(&self) -> (r: bool)
        ensures
            r == self.links_valid(),
    {
        let n_sides = self.sidedefs.len();
        let mut i: usize = 0;
        while i < self.linedefs.len()
            invariant
                n_sides == self.sidedefs@.len(),
                0 <= i <= self.linedefs@.len(),
                forall|k: int|
                    0 <= k < i ==> {
                        &&& self.side_valid((#[trigger] self.linedefs@[k]).left_side)
                        &&& self.side_valid(self.linedefs@[k].right_side)
                    },
            decreases self.linedefs@.len() - i,
        {
            let line = &self.linedefs[i];
            let left_ok = line.left_side == -1 || (line.left_side >= 0 && (line.left_side as usize)
                < n_sides);
            let right_ok = line.right_side == -1 || (line.right_side >= 0
                && (line.right_side as usize) < n_sides);
            assert(*line == self.linedefs@[i as int]);
            assert(left_ok == self.side_valid(line.left_side));
            assert(right_ok == self.side_valid(line.right_side));
            if !(left_ok && right_ok) {
                return false;
            }
            i = i + 1;
        }
        let mut j: usize = 0;
        while j < self.sidedefs.len()
            invariant
                0 <= j <= self.sidedefs@.len(),
                forall|k: int|
                    0 <= k < self.linedefs@.len() ==> {
                        &&& self.side_valid((#[trigger] self.linedefs@[k]).left_side)
                        &&& self.side_valid(self.linedefs@[k].right_side)
                    },
                forall|k: int|
                    0 <= k < j ==> (#[trigger] self.sidedefs@[k].sector as int)
                        < self.sectors@.len(),
            decreases self.sidedefs@.len() - j,
        {
            if (self.sidedefs[j].sector as usize) >= self.sectors.len() {
                return false;
            }
            j = j + 1;
        }
        true
    }

    /// The linedef that `seg` is a fragment of.
    pub fn seg_linedef<'a>(&'a self, seg: &WadSeg) -> (r: &'a WadLinedef)
        requires
            (seg.linedef as int) < self.linedefs@.len(),
        ensures
            *r == self.linedefs@[seg.linedef as int],
    {
        &self.linedefs[seg.linedef as usize]
    }

    /// The sidedef on the left of `linedef`, if it has one.
    pub fn left_sidedef<'a>(&'a self, linedef: &WadLinedef) -> (r: Option<&'a WadSidedef>)
        requires
            self.side_valid(linedef.left_side),
        ensures
            match r {
                None => linedef.left_side == -1,
                Some(s) => linedef.left_side != -1 && *s == self.sidedefs@[linedef.left_side as int],
            },
    {
        if linedef.left_side == -1 {
            None
        } else {
            Some(&self.sidedefs[linedef.left_side as usize])
        }
    }

    /// The sidedef on the right of `linedef`, if it has one.
    pub fn right_sidedef<'a>(&'a self, linedef: &WadLinedef) -> (r: Option<&'a WadSidedef>)
        requires
            self.side_valid(linedef.right_side),
        ensures
            match r {
                None => linedef.right_side == -1,
                Some(s) => linedef.right_side != -1 && *s == self.sidedefs@[linedef.right_side
                    as int],
            },
    {
        if linedef.right_side == -1 {
            None
        } else {
            Some(&self.sidedefs[linedef.right_side as usize])
        }
    }

    /// The sidedef that faces the front of `seg`: the right one of its
    /// linedef for direction 0, the left one for direction 1. The format
    /// guarantees that it exists.
    pub fn seg_sidedef<'a>(&'a self, seg: &WadSeg) -> (r: &'a WadSidedef)
        requires
            seg.direction <= 1,
            (seg.linedef as int) < self.linedefs@.len(),
            self.side_present(self.front_side(*seg)),
        ensures
            *r == self.sidedefs@[self.front_side(*seg) as int],
    {
        let line = self.seg_linedef(seg);
        if seg.direction == 0 {
            self.right_sidedef(line).unwrap()
        } else {
            self.left_sidedef(line).unwrap()
        }
    }

    /// The sidedef that faces the back of `seg`: the right one of its
    /// linedef for direction 1, the left one for direction 0; none on a
    /// one-sided wall.
    pub fn seg_back_sidedef<'a>(&'a self, seg: &WadSeg) -> (r: Option<&'a WadSidedef>)
        requires
            seg.direction <= 1,
            (seg.linedef as int) < self.linedefs@.len(),
            self.side_valid(self.back_side(*seg)),
        ensures
            match r {
                None => self.back_side(*seg) == -1,
                Some(s) => self.back_side(*seg) != -1 && *s == self.sidedefs@[self.back_side(
                    *seg,
                ) as int],
            },
    {
        let line = self.seg_linedef(seg);
        if seg.direction == 1 {
            self.right_sidedef(line)
        } else {
            self.left_sidedef(line)
        }
    }

    /// The sector that `sidedef` belongs to, with its position.
    pub fn sidedef_sector<'a>(&'a self, sidedef: &WadSidedef) -> (r: SectorRef<'a>)
        requires
            (sidedef.sector as int) < self.sectors@.len(),
        ensures
            self.refers_to(r, sidedef.sector as int),
    {
        self.sector(sidedef.sector)
    }

    /// The sector on the front of `seg`, with its position.
    pub fn seg_sector<'a>(&'a self, seg: &WadSeg) -> (r: SectorRef<'a>)
        requires
            seg.direction <= 1,
            (seg.linedef as int) < self.linedefs@.len(),
            self.side_present(self.front_side(*seg)),
            (self.sidedefs@[self.front_side(*seg) as int].sector as int) < self.sectors@.len(),
        ensures
            self.refers_to(r, self.sidedefs@[self.front_side(*seg) as int].sector as int),
    {
        self.sidedef_sector(self.seg_sidedef(seg))
    }

    /// The sector on the back of `seg`, with its position, if the seg has
    /// a back.
    pub fn seg_back_sector<'a>(&'a self, seg: &WadSeg) -> (r: Option<SectorRef<'a>>)
        requires
            seg.direction <= 1,
            (seg.linedef as int) < self.linedefs@.len(),
            self.side_valid(self.back_side(*seg)),
            self.back_side(*seg) != -1 ==> (self.sidedefs@[self.back_side(*seg) as int].sector
                as int) < self.sectors@.len(),
        ensures
            match r {
                None => self.back_side(*seg) == -1,
                Some(h) => self.back_side(*seg) != -1 && self.refers_to(
                    h,
                    self.sidedefs@[self.back_side(*seg) as int].sector as int,
                ),
            },
    {
        match self.seg_back_sidedef(seg) {
            Some(side) => Some(self.sidedef_sector(side)),
            None => None,
        }
    }

    /// The segs of `ssector`: `num_segs` of them from `first_seg` on.
    pub fn ssector_segs<'a>(&'a self, ssector: &WadSubsector) -> (r: &'a [WadSeg])
        requires
            ssector.first_seg as int + ssector.num_segs as int <= self.segs@.len(),
        ensures
            r@ == self.segs@.subrange(
                ssector.first_seg as int,
                ssector.first_seg as int + ssector.num_segs as int,
            ),
    {
        let all = self.segs.as_slice();
        let (_, tail) = all.split_at(ssector.first_seg as usize);
        let (segs, _) = tail.split_at(ssector.num_segs as usize);
        assert(segs@ =~= self.segs@.subrange(
            ssector.first_seg as int,
            ssector.first_seg as int + ssector.num_segs as int,
        ));
        segs
    }
}


impl Level {
    /// Whether `h` is a handle to the sector at position `i` of this level.
    pub open spec fn refers_to(&self, h: SectorRef, i: int) -> bool {
        &&& 0 <= i < self.sectors@.len()
        &&& h.spec_id() == i
        &&& h.spec_sector() == self.sectors@[i]
    }

    /// The sector at position `id`, as a handle that carries the position.
    pub fn sector<'a>(&'a self, id: SectorId) -> (r: SectorRef<'a>)
        requires
            (id as int) < self.sectors@.len(),
        ensures
            self.refers_to(r, id as int),
    {
        SectorRef { id, sector: &self.sectors[id as usize] }
    }

    /// The position among this level's sectors of the sector that `sector`
    /// refers to.
    pub fn sector_id(&self, sector: &SectorRef) -> (r: SectorId)
        ensures
            r == sector.spec_id(),
    {
        sector.id()
    }

    /// The light of the sector on the other side of `line` from sector `s`,
    /// where `line` has two sides and `s` is on one of them.
    pub open spec fn light_across(&self, line: WadLinedef, s: int) -> Option<LightLevel> {
        if line.left_side == -1 || line.right_side == -1 {
            None
        } else {
            let left = self.sidedefs@[line.left_side as int].sector as int;
            let right = self.sidedefs@[line.right_side as int].sector as int;
            if left == s {
                Some(self.sectors@[right].light)
            } else if right == s {
                Some(self.sectors@[left].light)
            } else {
                None
            }
        }
    }

    /// Whether `x` is the least light among sector `s` and the sectors that
    /// share a two-sided linedef with it.
    pub open spec fn is_min_light(&self, s: int, x: LightLevel) -> bool {
        &&& x <= self.sectors@[s].light
        &&& forall|i: int|
            0 <= i < self.linedefs@.len() ==> (self.light_across(
                #[trigger] self.linedefs@[i],
                s,
            ) matches Some(y) ==> x <= y)
        &&& (x == self.sectors@[s].light || exists|i: int|
            0 <= i < self.linedefs@.len() && self.light_across(#[trigger] self.linedefs@[i], s)
                == Some(x))
    }

    /// The least light among `sector` and the sectors that share a two-sided
    /// linedef with it. Scans every linedef: its cost is linear in their
    /// number.
    pub fn sector_min_light(&self, sector: SectorId) -> (r: LightLevel)
        requires
            (sector as int) < self.sectors@.len(),
            self.links_valid(),
        ensures
            self.is_min_light(sector as int, r),
    {
        let mut min_light = self.sectors[sector as usize].light;
        let mut i: usize = 0;
        while i < self.linedefs.len()
            invariant
                (sector as int) < self.sectors@.len(),
                self.links_valid(),
                0 <= i <= self.linedefs@.len(),
                min_light <= self.sectors@[sector as int].light,
                forall|k: int|
                    0 <= k < i ==> (self.light_across(#[trigger] self.linedefs@[k], sector as int)
                        matches Some(y) ==> min_light <= y),
                min_light == self.sectors@[sector as int].light || exists|k: int|
                    0 <= k < i && self.light_across(#[trigger] self.linedefs@[k], sector as int)
                        == Some(min_light),
            decreases self.linedefs@.len() - i,
        {
            let line = &self.linedefs[i];
            assert(self.side_valid(line.left_side) && self.side_valid(line.right_side));
            let left = match self.left_sidedef(line) {
                Some(l) => l.sector,
                None => {
                    i = i + 1;
                    continue;
                },
            };
            let right = match self.right_sidedef(line) {
                Some(r) => r.sector,
                None => {
                    i = i + 1;
                    continue;
                },
            };
            let adjacent_light = if left == sector {
                self.sectors[right as usize].light
            } else if right == sector {
                self.sectors[left as usize].light
            } else {
                i = i + 1;
                continue;
            };
            assert(self.light_across(self.linedefs@[i as int], sector as int) == Some(
                adjacent_light,
            ));
            if adjacent_light < min_light {
                min_light = adjacent_light;
            }
            i = i + 1;
        }
        min_light
    }
}

/// Two-sided linedefs of a well-linked level lead to sectors in range: both
/// of their sidedefs belong to a sector of the level.
pub proof fn lemma_two_sided_sectors_in_range(level: &Level, i: int)
    requires
        level.links_valid(),
        0 <= i < level.linedefs@.len(),
        level.linedefs@[i].left_side != -1,
        level.linedefs@[i].right_side != -1,
    ensures
        0 <= level.sidedefs@[level.linedefs@[i].left_side as int].sector < level.sectors@.len(),
        0 <= level.sidedefs@[level.linedefs@[i].right_side as int].sector < level.sectors@.len(),
{
    let line = level.linedefs@[i];
    assert(level.side_valid(line.left_side) && level.side_valid(line.right_side));
    let l = line.left_side as int;
    let r = line.right_side as int;
    assert((level.sidedefs@[l].sector as int) < level.sectors@.len());
    assert((level.sidedefs@[r].sector as int) < level.sectors@.len());
}

/// A seg's front and back are the two sides of its linedef: the right side
/// is the front and the left the back for direction 0, and the other way
/// round for direction 1.
pub proof fn lemma_front_and_back_are_opposite(level: &Level, seg: WadSeg)
    requires
        (seg.linedef as int) < level.linedefs@.len(),
        seg.direction <= 1,
    ensures
        seg.direction == 0 ==> level.front_side(seg) == level.linedefs@[seg.linedef as int].right_side
            && level.back_side(seg) == level.linedefs@[seg.linedef as int].left_side,
        seg.direction == 1 ==> level.front_side(seg) == level.linedefs@[seg.linedef as int].left_side
            && level.back_side(seg) == level.linedefs@[seg.linedef as int].right_side,
{
}

/// A handle to the sector at position `i`, however it was obtained and
/// whatever the other sectors hold, identifies position `i`.
pub proof fn lemma_sector_id_of_position(level: &Level, i: int, h: SectorRef)
    requires
        level.refers_to(h, i),
    ensures
        h.spec_id() == i,
        level.sectors@[h.spec_id() as int] == h.spec_sector(),
{
}

/// The minimum light of a sector is one value: the least among its own
/// light and those of its neighbours across two-sided linedefs.
pub proof fn lemma_min_light_unique(level: &Level, s: int, x: LightLevel, y: LightLevel)
    requires
        0 <= s < level.sectors@.len(),
        level.is_min_light(s, x),
        level.is_min_light(s, y),
    ensures
        x == y,
{
    if x != level.sectors@[s].light {
        let i = choose|i: int|
            0 <= i < level.linedefs@.len() && level.light_across(#[trigger] level.linedefs@[i], s)
                == Some(x);
        assert(y <= x);
    }
    if y != level.sectors@[s].light {
        let i = choose|i: int|
            0 <= i < level.linedefs@.len() && level.light_across(#[trigger] level.linedefs@[i], s)
                == Some(y);
        assert(x <= y);
    }
}

} // verus!
