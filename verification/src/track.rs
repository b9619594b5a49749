//! Track logic that does not depend on floating point: nearest-segment
//! queries over distance keys, editing of the list of raw points, and the
//! index bookkeeping of the track meshes.

pub mod mesh;
pub mod points;
pub mod query;
