//! Loading of one level's map geometry from an in-memory WAD archive, and
//! the relational queries over it: which sidedef faces which side of a
//! linedef, which sector a seg belongs to, and the dimmest light around a
//! sector.
pub mod archive;
pub mod level;
pub mod types;
