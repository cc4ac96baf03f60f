//! An in-memory WAD archive: a sequence of named lumps, and the decoding of
//! one lump into a sequence of fixed-size little-endian records.
use vstd::prelude::*;
use crate::types::WadName;

verus! {

/// The unsigned 16-bit little-endian value at `off`.
pub open spec fn u16_at(b: Seq<u8>, off: int) -> u16 {
    (b[off] as int + 256 * (b[off + 1] as int)) as u16
}

/// The two's-complement 16-bit little-endian value at `off`.
pub open spec fn i16_at(b: Seq<u8>, off: int) -> i16 {
    let u = b[off] as int + 256 * (b[off + 1] as int);
    if u >= 32768 {
        (u - 65536) as i16
    } else {
        u as i16
    }
}

/// The eight bytes of a name stored at `off`.
pub open spec fn name_at(b: Seq<u8>, off: int) -> Seq<u8> {
    b.subrange(off, off + 8)
}

pub fn read_u16(data: &Vec<u8>, off: usize) -> (r: u16)
    requires
        off + 2 <= data@.len(),
    ensures
        r == u16_at(data@, off as int),
{
    let _len = data.len();
    data[off] as u16 + 256 * (data[off + 1] as u16)
}

pub fn read_i16(data: &Vec<u8>, off: usize) -> (r: i16)
    requires
        off + 2 <= data@.len(),
    ensures
        r == i16_at(data@, off as int),
{
    let u = read_u16(data, off);
    if u >= 32768 {
        (u as i32 - 65536) as i16
    } else {
        u as i16
    }
}

pub fn read_name(data: &Vec<u8>, off: usize) -> (r: WadName)
    requires
        off + 8 <= data@.len(),
    ensures
        r.bytes@ == name_at(data@, off as int),
{
    let _len = data.len();
    let mut bytes: [u8; 8] = [0u8; 8];
    let mut i: usize = 0;
    while i < 8
        invariant
            0 <= i <= 8,
            off + 8 <= data@.len(),
            data@.len() <= usize::MAX,
            bytes@.len() == 8,
            forall|k: int| 0 <= k < i ==> bytes@[k] == data@[off + k],
        decreases 8 - i,
    {
        bytes[i] = data[off + i];
        i = i + 1;
    }
    assert(bytes@ =~= name_at(data@, off as int));
    WadName { bytes }
}

/// A record of fixed size that a lump holds a sequence of.
pub trait WadRecord: Sized {
    /// The number of bytes of one record.
    spec fn spec_size() -> nat;

    /// Whether `self` is the record stored at `off` in `b`.
    spec fn stored_at(&self, b: Seq<u8>, off: int) -> bool;

    fn size() -> (r: usize)
        ensures
            r as nat == Self::spec_size(),
            r > 0,
    ;

    fn decode(data: &Vec<u8>, off: usize) -> (r: Self)
        requires
            off + Self::spec_size() <= data@.len(),
        ensures
            r.stored_at(data@, off as int),
    ;
}

/// Whether a lump's length is a whole number of records.
pub open spec fn whole_records<T: WadRecord>(b: Seq<u8>) -> bool {
    b.len() % T::spec_size() == 0
}

/// Whether `s` is the sequence of records that `b` holds, in order.
pub open spec fn records_of<T: WadRecord>(b: Seq<u8>, s: Seq<T>) -> bool {
    &&& s.len() == b.len() / T::spec_size()
    &&& forall|k: int| 0 <= k < s.len() ==> #[trigger] s[k].stored_at(b, k * T::spec_size())
}

/// Decodes a lump into its records; `None` where its length is not a whole
/// number of records.
pub fn read_records<T: WadRecord>(data: &Vec<u8>) -> (r: Option<Vec<T>>)
    ensures
        r is None <==> !whole_records::<T>(data@),
        r matches Some(v) ==> records_of(data@, v@),
{
    let size = T::size();
    let len = data.len();
    if len % size != 0 {
        return None;
    }
    let n = len / size;
    assert(n * size <= len) by (nonlinear_arith)
        requires
            n == len / size,
            size > 0,
    ;
    let mut out: Vec<T> = Vec::new();
    let mut i: usize = 0;
    let mut off: usize = 0;
    while i < n
        invariant
            size as nat == T::spec_size(),
            size > 0,
            len == data@.len(),
            n == len / size,
            n * size <= len,
            i <= n,
            off == i * size,
            out@.len() == i,
            forall|k: int| 0 <= k < i ==> #[trigger] out@[k].stored_at(data@, k * T::spec_size()),
        decreases n - i,
    {
        assert(off + size <= len) by (nonlinear_arith)
            requires
                off == i * size,
                i < n,
                n * size <= len,
        ;
        let rec = T::decode(data, off);
        out.push(rec);
        i = i + 1;
        off = off + size;
        assert(off == i * size) by (nonlinear_arith)
            requires
                off == (i - 1) * size + size,
        ;
    }
    Some(out)
}

/// A named block of bytes.
pub struct Lump {
    pub name: WadName,
    pub data: Vec<u8>,
}

/// The lumps of a WAD file, in the order of its directory.
pub struct Archive {
    pub lumps: Vec<Lump>,
}

impl Archive {
    /// Whether lump `i` is the first one named `name`.
    pub open spec fn first_named(&self, name: Seq<u8>, i: int) -> bool {
        &&& 0 <= i < self.lumps@.len()
        &&& self.lumps@[i].name.bytes@ == name
        &&& forall|j: int| 0 <= j < i ==> self.lumps@[j].name.bytes@ != name
    }

    /// Whether some lump is named `name`.
    pub open spec fn has_lump(&self, name: Seq<u8>) -> bool {
        exists|i: int| 0 <= i < self.lumps@.len() && self.lumps@[i].name.bytes@ == name
    }

    /// The position of the first lump named `name`.
    pub fn get_lump_index(&self, name: &WadName) -> (r: Option<usize>)
        ensures
            r is None <==> !self.has_lump(name.bytes@),
            r matches Some(i) ==> self.first_named(name.bytes@, i as int),
    {
        let mut i: usize = 0;
        while i < self.lumps.len()
            invariant
                0 <= i <= self.lumps@.len(),
                forall|j: int| 0 <= j < i ==> self.lumps@[j].name.bytes@ != name.bytes@,
            decreases self.lumps@.len() - i,
        {
            if self.lumps[i].name.same_as(name) {
                return Some(i);
            }
            i = i + 1;
        }
        None
    }
}

} // verus!
