//! The fixed-layout records of a level, as they are stored in its lumps.
use vstd::prelude::*;
use crate::archive::{WadRecord, u16_at, i16_at, name_at, read_u16, read_i16, read_name};

verus! {

pub type WadCoord = i16;

pub type LightLevel = i16;

pub type SectorId = u16;

pub type VertexId = u16;

pub type SegId = u16;

pub type LinedefId = u16;

/// Index of a sidedef; `-1` stands for "no sidedef on this side".
pub type SidedefId = i16;

pub type ChildId = u16;

/// An eight-byte, zero-padded lump or texture name.
#[derive(Clone, Copy, Debug, PartialEq, Eq)]
pub struct WadName {
    pub bytes: [u8; 8],
}

/// The upper-case form of an ASCII letter; other bytes are kept.
pub open spec fn ascii_upper(c: u8) -> u8 {
    if 97 <= c <= 122 {
        (c - 32) as u8
    } else {
        c
    }
}

/// Whether a zero byte occurs in `s` at or before position `i`.
pub open spec fn terminated_by(s: Seq<u8>, i: int) -> bool {
    exists|j: int| 0 <= j <= i && s[j] == 0
}

/// The canonical form of a name: everything up to the first zero byte in
/// upper case, and only zero bytes from there on.
pub open spec fn canonical(s: Seq<u8>) -> Seq<u8> {
    Seq::new(s.len(), |i: int| if terminated_by(s, i) { 0u8 } else { ascii_upper(s[i]) })
}

impl WadName {
    /// Whether two names hold the same bytes.
    pub fn same_as(&self, other: &WadName) -> (r: bool)
        ensures
            r == (self.bytes@ == other.bytes@),
    {
        let mut i: usize = 0;
        while i < 8
            invariant
                0 <= i <= 8,
                self.bytes@.len() == 8,
                other.bytes@.len() == 8,
                forall|k: int| 0 <= k < i ==> self.bytes@[k] == other.bytes@[k],
            decreases 8 - i,
        {
            if self.bytes[i] != other.bytes[i] {
                return false;
            }
            i = i + 1;
        }
        assert(self.bytes@ =~= other.bytes@);
        true
    }

    /// Brings the name to its canonical form: upper case up to the first
    /// zero byte, and zero padding after it.
    pub fn canonicalise(&mut self)
        ensures
            final(self).bytes@ == canonical(old(self).bytes@),
    {
        let ghost raw = self.bytes@;
        let mut hit_null = false;
        let mut i: usize = 0;
        while i < 8
            invariant
                0 <= i <= 8,
                raw.len() == 8,
                self.bytes@.len() == 8,
                hit_null == terminated_by(raw, i - 1),
                forall|k: int| 0 <= k < i ==> self.bytes@[k] == canonical(raw)[k],
                forall|k: int| i <= k < 8 ==> self.bytes@[k] == raw[k],
            decreases 8 - i,
        {
            let c = self.bytes[i];
            assert(c == raw[i as int]);
            if !hit_null && c == 0 {
                hit_null = true;
            }
            let out: u8 = if hit_null {
                0
            } else if 97 <= c && c <= 122 {
                c - 32
            } else {
                c
            };
            self.bytes[i] = out;
            assert(hit_null == terminated_by(raw, i as int)) by {
                if terminated_by(raw, i - 1) {
                    let j = choose|j: int| 0 <= j <= i - 1 && raw[j] == 0;
                    assert(0 <= j <= i && raw[j] == 0);
                }
                if raw[i as int] == 0 {
                    assert(0 <= i <= i && raw[i as int] == 0);
                }
                if terminated_by(raw, i as int) && !terminated_by(raw, i - 1) {
                    let j = choose|j: int| 0 <= j <= i && raw[j] == 0;
                    assert(j == i);
                }
            }
            i = i + 1;
        }
        assert(self.bytes@ =~= canonical(raw));
    }
}

/// A placed game object's spawn point.
#[derive(Clone, Copy, Debug, PartialEq, Eq)]
pub struct WadThing {
    pub x: WadCoord,
    pub y: WadCoord,
    pub angle: WadCoord,
    pub thing_type: u16,
    pub flags: u16,
}

impl WadRecord for WadThing {
    open spec fn spec_size() -> nat {
        10
    }

    open spec fn stored_at(&self, b: Seq<u8>, off: int) -> bool {
        &&& self.x == i16_at(b, off)
        &&& self.y == i16_at(b, off + 2)
        &&& self.angle == i16_at(b, off + 4)
        &&& self.thing_type == u16_at(b, off + 6)
        &&& self.flags == u16_at(b, off + 8)
    }

    fn size() -> (r: usize) {
        10
    }

    fn decode(data: &Vec<u8>, off: usize) -> (r: Self) {
        let _len = data.len();
        WadThing {
            x: read_i16(data, off),
            y: read_i16(data, off + 2),
            angle: read_i16(data, off + 4),
            thing_type: read_u16(data, off + 6),
            flags: read_u16(data, off + 8),
        }
    }
}

/// A wall boundary between at most two sectors.
#[derive(Clone, Copy, Debug, PartialEq, Eq)]
pub struct WadLinedef {
    pub start_vertex: VertexId,
    pub end_vertex: VertexId,
    pub flags: u16,
    pub special_type: u16,
    pub sector_tag: u16,
    pub right_side: SidedefId,
    pub left_side: SidedefId,
}

impl WadRecord for WadLinedef {
    open spec fn spec_size() -> nat {
        14
    }

    open spec fn stored_at(&self, b: Seq<u8>, off: int) -> bool {
        &&& self.start_vertex == u16_at(b, off)
        &&& self.end_vertex == u16_at(b, off + 2)
        &&& self.flags == u16_at(b, off + 4)
        &&& self.special_type == u16_at(b, off + 6)
        &&& self.sector_tag == u16_at(b, off + 8)
        &&& self.right_side == i16_at(b, off + 10)
        &&& self.left_side == i16_at(b, off + 12)
    }

    fn size() -> (r: usize) {
        14
    }

    fn decode(data: &Vec<u8>, off: usize) -> (r: Self) {
        let _len = data.len();
        WadLinedef {
            start_vertex: read_u16(data, off),
            end_vertex: read_u16(data, off + 2),
            flags: read_u16(data, off + 4),
            special_type: read_u16(data, off + 6),
            sector_tag: read_u16(data, off + 8),
            right_side: read_i16(data, off + 10),
            left_side: read_i16(data, off + 12),
        }
    }
}

/// One face of a linedef: its textures and the sector it belongs to.
#[derive(Clone, Copy, Debug, PartialEq, Eq)]
pub struct WadSidedef {
    pub x_offset: WadCoord,
    pub y_offset: WadCoord,
    pub upper_texture: WadName,
    pub lower_texture: WadName,
    pub middle_texture: WadName,
    pub sector: SectorId,
}

impl WadRecord for WadSidedef {
    open spec fn spec_size() -> nat {
        30
    }

    open spec fn stored_at(&self, b: Seq<u8>, off: int) -> bool {
        &&& self.x_offset == i16_at(b, off)
        &&& self.y_offset == i16_at(b, off + 2)
        &&& self.upper_texture.bytes@ == name_at(b, off + 4)
        &&& self.lower_texture.bytes@ == name_at(b, off + 12)
        &&& self.middle_texture.bytes@ == name_at(b, off + 20)
        &&& self.sector == u16_at(b, off + 28)
    }

    fn size() -> (r: usize) {
        30
    }

    fn decode(data: &Vec<u8>, off: usize) -> (r: Self) {
        let _len = data.len();
        WadSidedef {
            x_offset: read_i16(data, off),
            y_offset: read_i16(data, off + 2),
            upper_texture: read_name(data, off + 4),
            lower_texture: read_name(data, off + 12),
            middle_texture: read_name(data, off + 20),
            sector: read_u16(data, off + 28),
        }
    }
}

/// A map coordinate in file units.
#[derive(Clone, Copy, Debug, PartialEq, Eq)]
pub struct WadVertex {
    pub x: WadCoord,
    pub y: WadCoord,
}

impl WadRecord for WadVertex {
    open spec fn spec_size() -> nat {
        4
    }

    open spec fn stored_at(&self, b: Seq<u8>, off: int) -> bool {
        &&& self.x == i16_at(b, off)
        &&& self.y == i16_at(b, off + 2)
    }

    fn size() -> (r: usize) {
        4
    }

    fn decode(data: &Vec<u8>, off: usize) -> (r: Self) {
        let _len = data.len();
        WadVertex {
            x: read_i16(data, off),
            y: read_i16(data, off + 2),
        }
    }
}

/// A fragment of a linedef split by the BSP; `direction` 0 runs along the linedef, 1 against it.
#[derive(Clone, Copy, Debug, PartialEq, Eq)]
pub struct WadSeg {
    pub start_vertex: VertexId,
    pub end_vertex: VertexId,
    pub angle: u16,
    pub linedef: LinedefId,
    pub direction: u16,
    pub offset: WadCoord,
}

impl WadRecord for WadSeg {
    open spec fn spec_size() -> nat {
        12
    }

    open spec fn stored_at(&self, b: Seq<u8>, off: int) -> bool {
        &&& self.start_vertex == u16_at(b, off)
        &&& self.end_vertex == u16_at(b, off + 2)
        &&& self.angle == u16_at(b, off + 4)
        &&& self.linedef == u16_at(b, off + 6)
        &&& self.direction == u16_at(b, off + 8)
        &&& self.offset == i16_at(b, off + 10)
    }

    fn size() -> (r: usize) {
        12
    }

    fn decode(data: &Vec<u8>, off: usize) -> (r: Self) {
        let _len = data.len();
        WadSeg {
            start_vertex: read_u16(data, off),
            end_vertex: read_u16(data, off + 2),
            angle: read_u16(data, off + 4),
            linedef: read_u16(data, off + 6),
            direction: read_u16(data, off + 8),
            offset: read_i16(data, off + 10),
        }
    }
}

/// A convex leaf of the BSP: `num_segs` segs from `first_seg` on.
#[derive(Clone, Copy, Debug, PartialEq, Eq)]
pub struct WadSubsector {
    pub num_segs: u16,
    pub first_seg: SegId,
}

impl WadRecord for WadSubsector {
    open spec fn spec_size() -> nat {
        4
    }

    open spec fn stored_at(&self, b: Seq<u8>, off: int) -> bool {
        &&& self.num_segs == u16_at(b, off)
        &&& self.first_seg == u16_at(b, off + 2)
    }

    fn size() -> (r: usize) {
        4
    }

    fn decode(data: &Vec<u8>, off: usize) -> (r: Self) {
        let _len = data.len();
        WadSubsector {
            num_segs: read_u16(data, off),
            first_seg: read_u16(data, off + 2),
        }
    }
}

/// A split plane of the BSP with the bounding boxes of its two children.
#[derive(Clone, Copy, Debug, PartialEq, Eq)]
pub struct WadNode {
    pub line_x: WadCoord,
    pub line_y: WadCoord,
    pub step_x: WadCoord,
    pub step_y: WadCoord,
    pub right_y_max: WadCoord,
    pub right_y_min: WadCoord,
    pub right_x_min: WadCoord,
    pub right_x_max: WadCoord,
    pub left_y_max: WadCoord,
    pub left_y_min: WadCoord,
    pub left_x_min: WadCoord,
    pub left_x_max: WadCoord,
    pub right_child: ChildId,
    pub left_child: ChildId,
}

impl WadRecord for WadNode {
    open spec fn spec_size() -> nat {
        28
    }

    open spec fn stored_at(&self, b: Seq<u8>, off: int) -> bool {
        &&& self.line_x == i16_at(b, off)
        &&& self.line_y == i16_at(b, off + 2)
        &&& self.step_x == i16_at(b, off + 4)
        &&& self.step_y == i16_at(b, off + 6)
        &&& self.right_y_max == i16_at(b, off + 8)
        &&& self.right_y_min == i16_at(b, off + 10)
        &&& self.right_x_min == i16_at(b, off + 12)
        &&& self.right_x_max == i16_at(b, off + 14)
        &&& self.left_y_max == i16_at(b, off + 16)
        &&& self.left_y_min == i16_at(b, off + 18)
        &&& self.left_x_min == i16_at(b, off + 20)
        &&& self.left_x_max == i16_at(b, off + 22)
        &&& self.right_child == u16_at(b, off + 24)
        &&& self.left_child == u16_at(b, off + 26)
    }

    fn size() -> (r: usize) {
        28
    }

    fn decode(data: &Vec<u8>, off: usize) -> (r: Self) {
        let _len = data.len();
        WadNode {
            line_x: read_i16(data, off),
            line_y: read_i16(data, off + 2),
            step_x: read_i16(data, off + 4),
            step_y: read_i16(data, off + 6),
            right_y_max: read_i16(data, off + 8),
            right_y_min: read_i16(data, off + 10),
            right_x_min: read_i16(data, off + 12),
            right_x_max: read_i16(data, off + 14),
            left_y_max: read_i16(data, off + 16),
            left_y_min: read_i16(data, off + 18),
            left_x_min: read_i16(data, off + 20),
            left_x_max: read_i16(data, off + 22),
            right_child: read_u16(data, off + 24),
            left_child: read_u16(data, off + 26),
        }
    }
}

/// A region with one floor height, ceiling height and light level.
#[derive(Clone, Copy, Debug, PartialEq, Eq)]
pub struct WadSector {
    pub floor_height: WadCoord,
    pub ceiling_height: WadCoord,
    pub floor_texture: WadName,
    pub ceiling_texture: WadName,
    pub light: LightLevel,
    pub sector_type: u16,
    pub tag: u16,
}

impl WadRecord for WadSector {
    open spec fn spec_size() -> nat {
        26
    }

    open spec fn stored_at(&self, b: Seq<u8>, off: int) -> bool {
        &&& self.floor_height == i16_at(b, off)
        &&& self.ceiling_height == i16_at(b, off + 2)
        &&& self.floor_texture.bytes@ == name_at(b, off + 4)
        &&& self.ceiling_texture.bytes@ == name_at(b, off + 12)
        &&& self.light == i16_at(b, off + 20)
        &&& self.sector_type == u16_at(b, off + 22)
        &&& self.tag == u16_at(b, off + 24)
    }

    fn size() -> (r: usize) {
        26
    }

    fn decode(data: &Vec<u8>, off: usize) -> (r: Self) {
        let _len = data.len();
        WadSector {
            floor_height: read_i16(data, off),
            ceiling_height: read_i16(data, off + 2),
            floor_texture: read_name(data, off + 4),
            ceiling_texture: read_name(data, off + 12),
            light: read_i16(data, off + 20),
            sector_type: read_u16(data, off + 22),
            tag: read_u16(data, off + 24),
        }
    }
}


impl WadSidedef {
    /// Whether `self` is `raw` with its three texture names canonicalised.
    pub open spec fn canonical_of(self, raw: WadSidedef) -> bool {
        &&& self.x_offset == raw.x_offset
        &&& self.y_offset == raw.y_offset
        &&& self.upper_texture.bytes@ == canonical(raw.upper_texture.bytes@)
        &&& self.lower_texture.bytes@ == canonical(raw.lower_texture.bytes@)
        &&& self.middle_texture.bytes@ == canonical(raw.middle_texture.bytes@)
        &&& self.sector == raw.sector
    }

    pub fn canonicalise(&mut self)
        ensures
            final(self).canonical_of(*old(self)),
    {
        self.upper_texture.canonicalise();
        self.lower_texture.canonicalise();
        self.middle_texture.canonicalise();
    }
}

impl WadSector {
    /// Whether `self` is `raw` with its two texture names canonicalised.
    pub open spec fn canonical_of(self, raw: WadSector) -> bool {
        &&& self.floor_height == raw.floor_height
        &&& self.ceiling_height == raw.ceiling_height
        &&& self.floor_texture.bytes@ == canonical(raw.floor_texture.bytes@)
        &&& self.ceiling_texture.bytes@ == canonical(raw.ceiling_texture.bytes@)
        &&& self.light == raw.light
        &&& self.sector_type == raw.sector_type
        &&& self.tag == raw.tag
    }

    pub fn canonicalise(&mut self)
        ensures
            final(self).canonical_of(*old(self)),
    {
        self.floor_texture.canonicalise();
        self.ceiling_texture.canonicalise();
    }
}

} // verus!
