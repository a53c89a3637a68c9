pub mod geom;
pub mod object;
pub mod camera;
pub mod job;
pub mod args;
pub mod scene;

use vstd::prelude::*;

verus! {

/// Largest magnitude, in fixed-point world units, that any coordinate handled
/// by the geometry routines may take.  Keeping every coordinate inside this
/// range lets all intermediate products of the ray-casting arithmetic fit in
/// `i128` without overflow.
pub const COORD_LIMIT: i64 = 500_000;

/// True when a single fixed-point coordinate is inside the supported range.
pub open spec fn coord_in_range(c: i64) -> bool {
    -COORD_LIMIT <= c <= COORD_LIMIT
}

} // verus!
