use vstd::prelude::*;

verus! {

use crate::COORD_LIMIT;
use crate::coord_in_range;
use crate::geom::Vec3;
use crate::geom::iv;
use crate::geom::in_range3;
use crate::geom::mag;
use crate::geom::frac_lt;
use crate::geom::clamp_coord;
use crate::geom::spec_tri_hit;
use crate::geom::spec_ray_point;
use crate::geom::tri_hit;
use crate::geom::ray_point;
use crate::geom::T_NUM_LIMIT;
use crate::geom::T_DEN_LIMIT;
use vstd::string::StringSliceAdditionalSpecFns;

/// An axis-aligned bounding box, six fixed-point scalars.  An empty box is
/// represented with inverted bounds (`min > max`), which no ray intersects.
#[derive(Clone, Copy, PartialEq, Eq, Structural, Debug)]
pub struct AABB {
    pub min_x: i64,
    pub min_y: i64,
    pub min_z: i64,
    pub max_x: i64,
    pub max_y: i64,
    pub max_z: i64,
}

/// For an axis whose direction component is not zero, the ray parameters at
/// which the ray enters and leaves the slab `[mn, mx]` are the ratios
/// `axis_lo_num / axis_den` and `axis_hi_num / axis_den` (denominator
/// positive, entry not above exit).
pub open spec fn axis_den(d: int) -> int {
    if d > 0 {
        d
    } else {
        -d
    }
}

pub open spec fn axis_lo_num(mn: int, mx: int, o: int, d: int) -> int {
    if d > 0 {
        mn - o
    } else {
        o - mx
    }
}

pub open spec fn axis_hi_num(mn: int, mx: int, o: int, d: int) -> int {
    if d > 0 {
        mx - o
    } else {
        o - mn
    }
}

/// An axis that the ray runs parallel to constrains nothing when the origin
/// lies inside its slab; outside, the ray can never intersect the box.
pub open spec fn axis_flat_ok(mn: int, mx: int, o: int, d: int) -> bool {
    d != 0 || (mn <= o && o <= mx)
}

/// The ray leaves the slab of this axis at a parameter `>= 0`.
pub open spec fn axis_exit_ahead(mn: int, mx: int, o: int, d: int) -> bool {
    d == 0 || axis_hi_num(mn, mx, o, d) >= 0
}

/// The slab entry of the first axis is not beyond the slab exit of the
/// second, compared as exact ratios by cross-multiplication.
pub open spec fn axes_ordered(
    mn1: int,
    mx1: int,
    o1: int,
    d1: int,
    mn2: int,
    mx2: int,
    o2: int,
    d2: int,
) -> bool {
    d1 == 0 || d2 == 0 || axis_lo_num(mn1, mx1, o1, d1) * axis_den(d2) <= axis_hi_num(
        mn2,
        mx2,
        o2,
        d2,
    ) * axis_den(d1)
}

/// The standard slab test, written out exactly: with `tmin` the greatest
/// slab entry and `tmax` the least slab exit over all axes, the ray meets
/// the box iff `tmax >= 0` and `tmin <= tmax`.  Both comparisons are
/// expanded pairwise over the axes so that only exact ratio comparisons
/// remain; an axis with a zero direction component contributes the limit
/// interval, which is everything when the origin is inside its slab and
/// empty otherwise.
pub open spec fn spec_aabb_hit(b: AABB, o: Vec3, d: Vec3) -> bool {
    &&& axis_flat_ok(b.min_x as int, b.max_x as int, o.x as int, d.x as int)
    &&& axis_flat_ok(b.min_y as int, b.max_y as int, o.y as int, d.y as int)
    &&& axis_flat_ok(b.min_z as int, b.max_z as int, o.z as int, d.z as int)
    &&& axis_exit_ahead(b.min_x as int, b.max_x as int, o.x as int, d.x as int)
    &&& axis_exit_ahead(b.min_y as int, b.max_y as int, o.y as int, d.y as int)
    &&& axis_exit_ahead(b.min_z as int, b.max_z as int, o.z as int, d.z as int)
    &&& axes_ordered(
        b.min_x as int,
        b.max_x as int,
        o.x as int,
        d.x as int,
        b.min_x as int,
        b.max_x as int,
        o.x as int,
        d.x as int,
    )
    &&& axes_ordered(
        b.min_x as int,
        b.max_x as int,
        o.x as int,
        d.x as int,
        b.min_y as int,
        b.max_y as int,
        o.y as int,
        d.y as int,
    )
    &&& axes_ordered(
        b.min_x as int,
        b.max_x as int,
        o.x as int,
        d.x as int,
        b.min_z as int,
        b.max_z as int,
        o.z as int,
        d.z as int,
    )
    &&& axes_ordered(
        b.min_y as int,
        b.max_y as int,
        o.y as int,
        d.y as int,
        b.min_x as int,
        b.max_x as int,
        o.x as int,
        d.x as int,
    )
    &&& axes_ordered(
        b.min_y as int,
        b.max_y as int,
        o.y as int,
        d.y as int,
        b.min_y as int,
        b.max_y as int,
        o.y as int,
        d.y as int,
    )
    &&& axes_ordered(
        b.min_y as int,
        b.max_y as int,
        o.y as int,
        d.y as int,
        b.min_z as int,
        b.max_z as int,
        o.z as int,
        d.z as int,
    )
    &&& axes_ordered(
        b.min_z as int,
        b.max_z as int,
        o.z as int,
        d.z as int,
        b.min_x as int,
        b.max_x as int,
        o.x as int,
        d.x as int,
    )
    &&& axes_ordered(
        b.min_z as int,
        b.max_z as int,
        o.z as int,
        d.z as int,
        b.min_y as int,
        b.max_y as int,
        o.y as int,
        d.y as int,
    )
    &&& axes_ordered(
        b.min_z as int,
        b.max_z as int,
        o.z as int,
        d.z as int,
        b.min_z as int,
        b.max_z as int,
        o.z as int,
        d.z as int,
    )
}

/// The point `o + (tn/td)*d` lies inside the closed slab `[mn, mx]` of one
/// axis, written without division: every term is scaled by `td > 0`.
pub open spec fn in_slab(mn: int, mx: int, o: int, d: int, tn: int, td: int) -> bool {
    mn * td <= o * td + tn * d && o * td + tn * d <= mx * td
}

proof fn lemma_flat_axis_slab(mn: int, mx: int, o: int, tn: int, td: int)
    by (nonlinear_arith)
    requires
        td > 0,
        in_slab(mn, mx, o, 0, tn, td),
    ensures
        mn <= o && o <= mx,
{
}

proof fn lemma_slab_axis_bounds(mn: int, mx: int, o: int, d: int, tn: int, td: int)
    by (nonlinear_arith)
    requires
        d != 0,
        td > 0,
        in_slab(mn, mx, o, d, tn, td),
    ensures
        axis_lo_num(mn, mx, o, d) * td <= tn * axis_den(d),
        tn * axis_den(d) <= axis_hi_num(mn, mx, o, d) * td,
{
}

proof fn lemma_exit_nonneg(hi: int, den: int, tn: int, td: int)
    by (nonlinear_arith)
    requires
        den > 0,
        td > 0,
        tn >= 0,
        tn * den <= hi * td,
    ensures
        hi >= 0,
{
}

proof fn lemma_pair_ordered(lo1: int, den1: int, hi2: int, den2: int, tn: int, td: int)
    by (nonlinear_arith)
    requires
        den1 > 0,
        den2 > 0,
        td > 0,
        lo1 * td <= tn * den1,
        tn * den2 <= hi2 * td,
    ensures
        lo1 * den2 <= hi2 * den1,
{
}

/// Soundness of the bounding-box prefilter: any point of the ray at a
/// parameter `t = tn/td >= 0` that lies inside the closed box makes the
/// slab test accept.  Contrapositively, when the slab test rejects a ray,
/// no reachable ray point lies in the box, so skipping the box's contents
/// cannot skip anything the ray could reach inside it.
pub proof fn lemma_point_in_box_passes_slab(b: AABB, o: Vec3, d: Vec3, tn: int, td: int)
    requires
        td > 0,
        tn >= 0,
        in_slab(b.min_x as int, b.max_x as int, o.x as int, d.x as int, tn, td),
        in_slab(b.min_y as int, b.max_y as int, o.y as int, d.y as int, tn, td),
        in_slab(b.min_z as int, b.max_z as int, o.z as int, d.z as int, tn, td),
    ensures
        spec_aabb_hit(b, o, d),
{
    let mnx = b.min_x as int;
    let mxx = b.max_x as int;
    let ox = o.x as int;
    let dx = d.x as int;
    let mny = b.min_y as int;
    let mxy = b.max_y as int;
    let oy = o.y as int;
    let dy = d.y as int;
    let mnz = b.min_z as int;
    let mxz = b.max_z as int;
    let oz = o.z as int;
    let dz = d.z as int;
    if dx == 0 {
        lemma_flat_axis_slab(mnx, mxx, ox, tn, td);
    } else {
        lemma_slab_axis_bounds(mnx, mxx, ox, dx, tn, td);
        lemma_exit_nonneg(axis_hi_num(mnx, mxx, ox, dx), axis_den(dx), tn, td);
    }
    if dy == 0 {
        lemma_flat_axis_slab(mny, mxy, oy, tn, td);
    } else {
        lemma_slab_axis_bounds(mny, mxy, oy, dy, tn, td);
        lemma_exit_nonneg(axis_hi_num(mny, mxy, oy, dy), axis_den(dy), tn, td);
    }
    if dz == 0 {
        lemma_flat_axis_slab(mnz, mxz, oz, tn, td);
    } else {
        lemma_slab_axis_bounds(mnz, mxz, oz, dz, tn, td);
        lemma_exit_nonneg(axis_hi_num(mnz, mxz, oz, dz), axis_den(dz), tn, td);
    }
    if dx != 0 {
        lemma_pair_ordered(
            axis_lo_num(mnx, mxx, ox, dx),
            axis_den(dx),
            axis_hi_num(mnx, mxx, ox, dx),
            axis_den(dx),
            tn,
            td,
        );
        if dy != 0 {
            lemma_pair_ordered(
                axis_lo_num(mnx, mxx, ox, dx),
                axis_den(dx),
                axis_hi_num(mny, mxy, oy, dy),
                axis_den(dy),
                tn,
                td,
            );
            lemma_pair_ordered(
                axis_lo_num(mny, mxy, oy, dy),
                axis_den(dy),
                axis_hi_num(mnx, mxx, ox, dx),
                axis_den(dx),
                tn,
                td,
            );
        }
        if dz != 0 {
            lemma_pair_ordered(
                axis_lo_num(mnx, mxx, ox, dx),
                axis_den(dx),
                axis_hi_num(mnz, mxz, oz, dz),
                axis_den(dz),
                tn,
                td,
            );
            lemma_pair_ordered(
                axis_lo_num(mnz, mxz, oz, dz),
                axis_den(dz),
                axis_hi_num(mnx, mxx, ox, dx),
                axis_den(dx),
                tn,
                td,
            );
        }
    }
    if dy != 0 {
        lemma_pair_ordered(
            axis_lo_num(mny, mxy, oy, dy),
            axis_den(dy),
            axis_hi_num(mny, mxy, oy, dy),
            axis_den(dy),
            tn,
            td,
        );
        if dz != 0 {
            lemma_pair_ordered(
                axis_lo_num(mny, mxy, oy, dy),
                axis_den(dy),
                axis_hi_num(mnz, mxz, oz, dz),
                axis_den(dz),
                tn,
                td,
            );
            lemma_pair_ordered(
                axis_lo_num(mnz, mxz, oz, dz),
                axis_den(dz),
                axis_hi_num(mny, mxy, oy, dy),
                axis_den(dy),
                tn,
                td,
            );
        }
    }
    if dz != 0 {
        lemma_pair_ordered(
            axis_lo_num(mnz, mxz, oz, dz),
            axis_den(dz),
            axis_hi_num(mnz, mxz, oz, dz),
            axis_den(dz),
            tn,
            td,
        );
    }
}

proof fn lemma_slab_axis_rev(mn: int, mx: int, o: int, d: int, tn: int, td: int)
    by (nonlinear_arith)
    requires
        d != 0,
        td > 0,
        axis_lo_num(mn, mx, o, d) * td <= tn * axis_den(d),
        tn * axis_den(d) <= axis_hi_num(mn, mx, o, d) * td,
    ensures
        in_slab(mn, mx, o, d, tn, td),
{
}

proof fn lemma_flat_axis_rev(mn: int, mx: int, o: int, tn: int, td: int)
    by (nonlinear_arith)
    requires
        td > 0,
        mn <= o,
        o <= mx,
    ensures
        in_slab(mn, mx, o, 0, tn, td),
{
}

proof fn lemma_nonpos_factor(a: int, den: int)
    by (nonlinear_arith)
    requires
        den > 0,
        a * den <= 0,
    ensures
        a <= 0,
{
}

proof fn lemma_nonpos_product(a: int, den: int)
    by (nonlinear_arith)
    requires
        den > 0,
        a <= 0,
    ensures
        a * den <= 0,
{
}

/// Transitivity of the exact ratio order, for positive denominators.
proof fn lemma_frac_le_trans(a: int, b: int, c: int, d2: int, e: int, f: int)
    by (nonlinear_arith)
    requires
        b > 0,
        d2 > 0,
        f > 0,
        a * d2 <= c * b,
        c * f <= e * d2,
    ensures
        a * f <= e * b,
{
}

/// One axis is satisfied by the candidate parameter `tn/td` when it is
/// unconstrained and contains the origin, or when the candidate sits
/// between its scaled entry and exit.
proof fn lemma_axis_accepts(mn: int, mx: int, o: int, d: int, tn: int, td: int)
    requires
        td > 0,
        axis_flat_ok(mn, mx, o, d),
        d != 0 ==> axis_lo_num(mn, mx, o, d) * td <= tn * axis_den(d),
        d != 0 ==> tn * axis_den(d) <= axis_hi_num(mn, mx, o, d) * td,
    ensures
        in_slab(mn, mx, o, d, tn, td),
{
    if d == 0 {
        lemma_flat_axis_rev(mn, mx, o, tn, td);
    } else {
        lemma_slab_axis_rev(mn, mx, o, d, tn, td);
    }
}

/// Completeness of the bounding-box test: whenever the slab formula
/// accepts a ray, some ray point at a parameter `t >= 0` really lies in
/// the closed box -- the accepted set is never vacuous.  Together with
/// `lemma_point_in_box_passes_slab` this pins the formula to its
/// geometric meaning exactly: the test answers whether any point
/// `o + t*d` with `t >= 0` lies in the closed box.
pub proof fn lemma_slab_pass_has_witness(b: AABB, o: Vec3, d: Vec3)
    requires
        spec_aabb_hit(b, o, d),
    ensures
        exists|t: (int, int)|
            {
                &&& t.1 > 0
                &&& t.0 >= 0
                &&& #[trigger] in_slab(
                    b.min_x as int,
                    b.max_x as int,
                    o.x as int,
                    d.x as int,
                    t.0,
                    t.1,
                )
                &&& in_slab(b.min_y as int, b.max_y as int, o.y as int, d.y as int, t.0, t.1)
                &&& in_slab(b.min_z as int, b.max_z as int, o.z as int, d.z as int, t.0, t.1)
            },
{
    let mnx = b.min_x as int;
    let mxx = b.max_x as int;
    let ox = o.x as int;
    let dx = d.x as int;
    let mny = b.min_y as int;
    let mxy = b.max_y as int;
    let oy = o.y as int;
    let dy = d.y as int;
    let mnz = b.min_z as int;
    let mxz = b.max_z as int;
    let oz = o.z as int;
    let dz = d.z as int;
    let lx = axis_lo_num(mnx, mxx, ox, dx);
    let nx = axis_den(dx);
    let hx = axis_hi_num(mnx, mxx, ox, dx);
    let ly = axis_lo_num(mny, mxy, oy, dy);
    let ny = axis_den(dy);
    let hy = axis_hi_num(mny, mxy, oy, dy);
    let lz = axis_lo_num(mnz, mxz, oz, dz);
    let nz = axis_den(dz);
    let hz = axis_hi_num(mnz, mxz, oz, dz);
    // pick the axis whose slab entry comes latest among the constrained
    // axes; with no constrained axis any parameter serves, so take zero
    let sel: (int, int) = if dx != 0 {
        if dy != 0 && ly * nx > lx * ny {
            // y after x
            if dz != 0 && lz * ny > ly * nz {
                lemma_frac_le_trans(lx, nx, ly, ny, lz, nz);
                (lz, nz)
            } else {
                (ly, ny)
            }
        } else {
            // x not before y (or no y)
            if dz != 0 && lz * nx > lx * nz {
                if dy != 0 {
                    lemma_frac_le_trans(ly, ny, lx, nx, lz, nz);
                }
                (lz, nz)
            } else {
                (lx, nx)
            }
        }
    } else if dy != 0 {
        if dz != 0 && lz * ny > ly * nz {
            (lz, nz)
        } else {
            (ly, ny)
        }
    } else if dz != 0 {
        (lz, nz)
    } else {
        (0, 1)
    };
    let lk = sel.0;
    let nk = sel.1;
    // the selected entry is one of the axes' entries, its denominator is
    // positive, no constrained entry comes after it, and the pairwise
    // ordering of the slab test bounds it by every constrained exit
    assert(nk > 0);
    assert(dx != 0 ==> lx * nk <= lk * nx && lk * nx <= hx * nk);
    assert(dy != 0 ==> ly * nk <= lk * ny && lk * ny <= hy * nk);
    assert(dz != 0 ==> lz * nk <= lk * nz && lk * nz <= hz * nk);
    let cand: (int, int) = if lk <= 0 {
        (0, 1)
    } else {
        (lk, nk)
    };
    let tn = cand.0;
    let td = cand.1;
    if lk <= 0 {
        // entries are all at or before zero, so the origin itself serves
        if dx != 0 {
            lemma_nonpos_product(lk, nx);
            lemma_nonpos_factor(lx, nk);
        }
        if dy != 0 {
            lemma_nonpos_product(lk, ny);
            lemma_nonpos_factor(ly, nk);
        }
        if dz != 0 {
            lemma_nonpos_product(lk, nz);
            lemma_nonpos_factor(lz, nk);
        }
    }
    lemma_axis_accepts(mnx, mxx, ox, dx, tn, td);
    lemma_axis_accepts(mny, mxy, oy, dy, tn, td);
    lemma_axis_accepts(mnz, mxz, oz, dz, tn, td);
    assert({
        &&& td > 0
        &&& tn >= 0
        &&& in_slab(mnx, mxx, ox, dx, tn, td)
        &&& in_slab(mny, mxy, oy, dy, tn, td)
        &&& in_slab(mnz, mxz, oz, dz, tn, td)
    });
}

/// Entry ratio, exit ratio and (positive) denominator for one axis, or
/// `None` when the direction component is zero.
fn axis_interval(mn: i64, mx: i64, oc: i64, dc: i64) -> (r: Option<(i128, i128, i128)>)
    requires
        coord_in_range(oc),
        coord_in_range(dc),
    ensures
        r is None <==> dc == 0,
        r matches Some(t) ==> {
            &&& t.0 as int == axis_lo_num(mn as int, mx as int, oc as int, dc as int)
            &&& t.1 as int == axis_hi_num(mn as int, mx as int, oc as int, dc as int)
            &&& t.2 as int == axis_den(dc as int)
            &&& 0 < t.2 <= 500_000
            &&& mag(t.0 as int) <= 0x1_0000_0000_0000_8000_0000
            &&& mag(t.1 as int) <= 0x1_0000_0000_0000_8000_0000
        },
{
    if dc == 0 {
        None
    } else if dc > 0 {
        Some(((mn as i128 - oc as i128), (mx as i128 - oc as i128), dc as i128))
    } else {
        Some(((oc as i128 - mx as i128), (oc as i128 - mn as i128), -(dc as i128)))
    }
}

/// `lo/den` of `a` is not above `hi/den` of `b`.
fn entry_before_exit(a: (i128, i128, i128), b: (i128, i128, i128)) -> (r: bool)
    requires
        0 < a.2 <= 500_000,
        0 < b.2 <= 500_000,
        mag(a.0 as int) <= 0x1_0000_0000_0000_8000_0000,
        mag(b.1 as int) <= 0x1_0000_0000_0000_8000_0000,
    ensures
        r == (a.0 as int * b.2 as int <= b.1 as int * a.2 as int),
{
    proof {
        crate::geom::lemma_mul_mag(a.0 as int, b.2 as int, 0x1_0000_0000_0000_8000_0000, 500_000);
        crate::geom::lemma_mul_mag(b.1 as int, a.2 as int, 0x1_0000_0000_0000_8000_0000, 500_000);
    }
    a.0 * b.2 <= b.1 * a.2
}

impl AABB {
    /// Ray/box slab test; exact form of the classical algorithm.
    pub fn intersect_with_ray(&self, ray_origin: Vec3, ray_dir: Vec3) -> (r: bool)
        requires
            in_range3(ray_origin),
            in_range3(ray_dir),
        ensures
            r == spec_aabb_hit(*self, ray_origin, ray_dir),
    {
        if ray_dir.x == 0 && !(self.min_x <= ray_origin.x && ray_origin.x <= self.max_x) {
            return false;
        }
        if ray_dir.y == 0 && !(self.min_y <= ray_origin.y && ray_origin.y <= self.max_y) {
            return false;
        }
        if ray_dir.z == 0 && !(self.min_z <= ray_origin.z && ray_origin.z <= self.max_z) {
            return false;
        }
        let ax = axis_interval(self.min_x, self.max_x, ray_origin.x, ray_dir.x);
        let ay = axis_interval(self.min_y, self.max_y, ray_origin.y, ray_dir.y);
        let az = axis_interval(self.min_z, self.max_z, ray_origin.z, ray_dir.z);
        if let Some(a) = ax {
            if a.1 < 0 {
                return false;
            }
            if !entry_before_exit(a, a) {
                return false;
            }
            if let Some(b) = ay {
                if !entry_before_exit(a, b) || !entry_before_exit(b, a) {
                    return false;
                }
            }
            if let Some(b) = az {
                if !entry_before_exit(a, b) || !entry_before_exit(b, a) {
                    return false;
                }
            }
        }
        if let Some(b) = ay {
            if b.1 < 0 {
                return false;
            }
            if !entry_before_exit(b, b) {
                return false;
            }
            if let Some(c) = az {
                if !entry_before_exit(b, c) || !entry_before_exit(c, b) {
                    return false;
                }
            }
        }
        if let Some(c) = az {
            if c.1 < 0 {
                return false;
            }
            if !entry_before_exit(c, c) {
                return false;
            }
        }
        true
    }
}

/// `scale_milli == SCALE_ONE` is a scale factor of one.
pub const SCALE_ONE: i64 = 1_000;

/// Largest supported scale factor, a thousandfold enlargement.
pub const SCALE_LIMIT: i64 = 1_000_000;

pub open spec fn min64(a: i64, b: i64) -> i64 {
    if a <= b {
        a
    } else {
        b
    }
}

pub open spec fn max64(a: i64, b: i64) -> i64 {
    if a >= b {
        a
    } else {
        b
    }
}

/// One base-mesh vertex carried into world space: translate by the fixed
/// centering offset, scale uniformly, translate to the object's location,
/// round down to the fixed-point grid and clamp into the supported range.
pub open spec fn spec_world_vert(loc: Vec3, scale_milli: i64, off: Vec3, v: Vec3) -> Vec3 {
    Vec3 {
        x: clamp_coord(loc.x + (scale_milli * (v.x + off.x)) / (SCALE_ONE as int)) as i64,
        y: clamp_coord(loc.y + (scale_milli * (v.y + off.y)) / (SCALE_ONE as int)) as i64,
        z: clamp_coord(loc.z + (scale_milli * (v.z + off.z)) / (SCALE_ONE as int)) as i64,
    }
}

pub open spec fn spec_world_verts(base: Seq<Vec3>, loc: Vec3, scale_milli: i64, off: Vec3) -> Seq<
    Vec3,
> {
    base.map(|i: int, v: Vec3| spec_world_vert(loc, scale_milli, off, v))
}

/// The bounding box of a list of points; an empty list gives the inverted
/// box that no ray intersects.
pub open spec fn spec_aabb_of(world: Seq<Vec3>) -> AABB
    decreases world.len(),
{
    if world.len() == 0 {
        AABB {
            min_x: i64::MAX,
            min_y: i64::MAX,
            min_z: i64::MAX,
            max_x: i64::MIN,
            max_y: i64::MIN,
            max_z: i64::MIN,
        }
    } else {
        let prev = spec_aabb_of(world.drop_last());
        let v = world.last();
        AABB {
            min_x: min64(prev.min_x, v.x),
            min_y: min64(prev.min_y, v.y),
            min_z: min64(prev.min_z, v.z),
            max_x: max64(prev.max_x, v.x),
            max_y: max64(prev.max_y, v.y),
            max_z: max64(prev.max_z, v.z),
        }
    }
}

/// The per-object translation fixed at load time: center the raw mesh over
/// the origin in X and Y and rest its lowest point on the `z == 0` plane.
pub open spec fn spec_default_offset(base: Seq<Vec3>) -> Vec3 {
    let bb = spec_aabb_of(base);
    Vec3 {
        x: (-((bb.max_x + bb.min_x) / 2)) as i64,
        y: (-((bb.max_y + bb.min_y) / 2)) as i64,
        z: (-bb.min_z) as i64,
    }
}

fn world_axis(l: i64, s: i64, o: i64, c: i64) -> (r: i64)
    requires
        0 <= s <= SCALE_LIMIT,
    ensures
        r as int == clamp_coord(l + (s * (c + o)) / (SCALE_ONE as int)),
        coord_in_range(r),
{
    let sum: i128 = c as i128 + o as i128;
    proof {
        crate::geom::lemma_mul_mag(s as int, sum as int, SCALE_LIMIT as int, 0x2_0000_0000_0000_0000);
    }
    let scaled: i128 = s as i128 * sum;
    let q = match scaled.checked_div_euclid(SCALE_ONE as i128) {
        Some(q) => q,
        None => 0,  // unreachable: the divisor is a positive constant
    };
    proof {
        crate::geom::lemma_div_mag(scaled as int, SCALE_ONE as int, 0x8_0000_0000_0000_0000_0000_0000);
    }
    let w: i128 = l as i128 + q;
    if w < -(COORD_LIMIT as i128) {
        -COORD_LIMIT
    } else if w > COORD_LIMIT as i128 {
        COORD_LIMIT
    } else {
        w as i64
    }
}

fn world_vert(loc: Vec3, scale_milli: i64, off: Vec3, v: Vec3) -> (r: Vec3)
    requires
        0 <= scale_milli <= SCALE_LIMIT,
    ensures
        r == spec_world_vert(loc, scale_milli, off, v),
        in_range3(r),
{
    Vec3 {
        x: world_axis(loc.x, scale_milli, off.x, v.x),
        y: world_axis(loc.y, scale_milli, off.y, v.y),
        z: world_axis(loc.z, scale_milli, off.z, v.z),
    }
}

fn transform_verts(base: &Vec<Vec3>, loc: Vec3, scale_milli: i64, off: Vec3) -> (r: Vec<Vec3>)
    requires
        0 <= scale_milli <= SCALE_LIMIT,
    ensures
        r@ == spec_world_verts(base@, loc, scale_milli, off),
        forall|i: int| 0 <= i < r@.len() ==> in_range3(#[trigger] r@[i]),
{
    let mut r: Vec<Vec3> = Vec::new();
    let mut i: usize = 0;
    while i < base.len()
        invariant
            i <= base@.len(),
            0 <= scale_milli <= SCALE_LIMIT,
            r@.len() == i,
            forall|j: int|
                0 <= j < i ==> #[trigger] r@[j] == spec_world_vert(loc, scale_milli, off, base@[j]),
            forall|j: int| 0 <= j < i ==> in_range3(#[trigger] r@[j]),
        decreases base@.len() - i,
    {
        r.push(world_vert(loc, scale_milli, off, base[i]));
        i += 1;
    }
    proof {
        assert(r@ =~= spec_world_verts(base@, loc, scale_milli, off));
    }
    r
}

fn aabb_of_verts(verts: &Vec<Vec3>) -> (r: AABB)
    ensures
        r == spec_aabb_of(verts@),
{
    let mut r = AABB {
        min_x: i64::MAX,
        min_y: i64::MAX,
        min_z: i64::MAX,
        max_x: i64::MIN,
        max_y: i64::MIN,
        max_z: i64::MIN,
    };
    let mut i: usize = 0;
    while i < verts.len()
        invariant
            i <= verts@.len(),
            r == spec_aabb_of(verts@.subrange(0, i as int)),
        decreases verts@.len() - i,
    {
        let v = verts[i];
        r = AABB {
            min_x: if v.x < r.min_x {
                v.x
            } else {
                r.min_x
            },
            min_y: if v.y < r.min_y {
                v.y
            } else {
                r.min_y
            },
            min_z: if v.z < r.min_z {
                v.z
            } else {
                r.min_z
            },
            max_x: if v.x > r.max_x {
                v.x
            } else {
                r.max_x
            },
            max_y: if v.y > r.max_y {
                v.y
            } else {
                r.max_y
            },
            max_z: if v.z > r.max_z {
                v.z
            } else {
                r.max_z
            },
        };
        proof {
            assert(verts@.subrange(0, i + 1).drop_last() =~= verts@.subrange(0, i as int));
            assert(verts@.subrange(0, i + 1).last() == verts@[i as int]);
        }
        i += 1;
    }
    proof {
        assert(verts@.subrange(0, verts@.len() as int) =~= verts@);
    }
    r
}

/// The render color of an object, decided by the fixed decision table over
/// `(hovered, inside the build volume, selected)`.
#[derive(Clone, Copy, PartialEq, Eq, Structural, Debug)]
pub enum ObjectColor {
    Red,
    Yellow,
    Blue,
    Cyan,
    Magenta,
}

pub open spec fn spec_color(hovered: bool, in_build: bool, selected: bool) -> ObjectColor {
    if selected {
        if in_build {
            ObjectColor::Cyan
        } else {
            ObjectColor::Magenta
        }
    } else if !in_build {
        ObjectColor::Red
    } else if hovered {
        ObjectColor::Blue
    } else {
        ObjectColor::Yellow
    }
}

pub fn color_for(hovered: bool, in_build: bool, selected: bool) -> (r: ObjectColor)
    ensures
        r == spec_color(hovered, in_build, selected),
{
    match (hovered, in_build, selected) {
        (false, false, false) => ObjectColor::Red,
        (false, true, false) => ObjectColor::Yellow,
        (true, true, false) => ObjectColor::Blue,
        (true, false, false) => ObjectColor::Red,
        (_, false, true) => ObjectColor::Magenta,
        (_, true, true) => ObjectColor::Cyan,
    }
}

/// The affine model transform `translate(location) * scale * translate
/// (default_offset)` reported in thousandths of a coordinate unit: the
/// diagonal entries are `scale_milli` and the translation column is
/// `1000 * location + scale_milli * default_offset`.
#[derive(Clone, Copy, PartialEq, Eq, Structural, Debug)]
pub struct ModelMatrix {
    pub scale_milli: i64,
    pub tx_milli: i128,
    pub ty_milli: i128,
    pub tz_milli: i128,
}

/// One intersection of a ray with an object: the exact ray parameter as a
/// ratio with positive denominator, and the hit point on the fixed-point
/// grid.
#[derive(Clone, Copy, PartialEq, Eq, Structural, Debug)]
pub struct RayHit {
    pub t_num: i128,
    pub t_den: i128,
    pub point: Vec3,
}

/// The best (least positive `t`) triangle intersection among the first `k`
/// triangles; an earlier triangle wins a tie.
pub open spec fn spec_closer(prev: Option<(int, int)>, cur: Option<(int, int)>) -> Option<
    (int, int),
> {
    match (prev, cur) {
        (Option::None, c) => c,
        (Option::Some(p), Option::None) => prev,
        (Option::Some(p), Option::Some(c)) => if frac_lt(c, p) {
            cur
        } else {
            prev
        },
    }
}

pub open spec fn spec_best_hit_upto(
    world: Seq<Vec3>,
    tris: Seq<u32>,
    ro: Vec3,
    rd: Vec3,
    k: int,
) -> Option<(int, int)>
    decreases k,
{
    if k <= 0 {
        None
    } else {
        let prev = spec_best_hit_upto(world, tris, ro, rd, k - 1);
        let cur = spec_tri_hit(
            ro,
            rd,
            world[tris[3 * (k - 1)] as int],
            world[tris[3 * (k - 1) + 1] as int],
            world[tris[3 * (k - 1) + 2] as int],
        );
        spec_closer(prev, cur)
    }
}

/// What `Object::intersect_with_ray` returns: nothing when the bounding box
/// prefilter rejects the ray, else the nearest triangle intersection.
pub open spec fn spec_object_pick(world: Seq<Vec3>, tris: Seq<u32>, ro: Vec3, rd: Vec3) -> Option<
    (int, int),
> {
    if !spec_aabb_hit(spec_aabb_of(world), ro, rd) {
        None
    } else {
        spec_best_hit_upto(world, tris, ro, rd, tris.len() as int / 3)
    }
}

/// Relation between an executable best-hit value and its specification.
pub open spec fn rel_best(r: Option<(i128, i128)>, s: Option<(int, int)>) -> bool {
    &&& (r is None <==> s is None)
    &&& (r matches Some(p) ==> {
        &&& s == Some((p.0 as int, p.1 as int))
        &&& 0 < p.1 <= T_DEN_LIMIT
        &&& -T_NUM_LIMIT <= p.0 <= T_NUM_LIMIT
    })
}

/// Relation between an executable `RayHit` option and its specification.
pub open spec fn rel_hit(r: Option<RayHit>, s: Option<(int, int)>, ro: Vec3, rd: Vec3) -> bool {
    &&& (r is None <==> s is None)
    &&& (r matches Some(h) ==> {
        &&& s == Some((h.t_num as int, h.t_den as int))
        &&& 0 < h.t_den <= T_DEN_LIMIT
        &&& -T_NUM_LIMIT <= h.t_num <= T_NUM_LIMIT
        &&& iv(h.point) == spec_ray_point(ro, rd, h.t_num as int, h.t_den as int)
        &&& in_range3(h.point)
    })
}

fn frac_lt_exec(a: (i128, i128), b: (i128, i128)) -> (r: bool)
    requires
        -T_NUM_LIMIT <= a.0 <= T_NUM_LIMIT,
        0 < a.1 <= T_DEN_LIMIT,
        -T_NUM_LIMIT <= b.0 <= T_NUM_LIMIT,
        0 < b.1 <= T_DEN_LIMIT,
    ensures
        r == frac_lt((a.0 as int, a.1 as int), (b.0 as int, b.1 as int)),
{
    proof {
        crate::geom::lemma_mul_mag(a.0 as int, b.1 as int, T_NUM_LIMIT as int, T_DEN_LIMIT as int);
        crate::geom::lemma_mul_mag(b.0 as int, a.1 as int, T_NUM_LIMIT as int, T_DEN_LIMIT as int);
    }
    a.0 * b.1 < b.0 * a.1
}

/// Scan every triangle and keep the nearest positive intersection.
fn pick_closest(world: &Vec<Vec3>, tris: &Vec<u32>, ro: Vec3, rd: Vec3) -> (r: Option<
    (i128, i128),
>)
    requires
        in_range3(ro),
        in_range3(rd),
        tris@.len() % 3 == 0,
        forall|i: int| 0 <= i < tris@.len() ==> (#[trigger] tris@[i]) < world@.len(),
        forall|i: int| 0 <= i < world@.len() ==> in_range3(#[trigger] world@[i]),
    ensures
        rel_best(r, spec_best_hit_upto(world@, tris@, ro, rd, tris@.len() as int / 3)),
{
    let n = tris.len() / 3;
    let mut best: Option<(i128, i128)> = None;
    let mut k: usize = 0;
    while k < n
        invariant
            in_range3(ro),
            in_range3(rd),
            tris@.len() % 3 == 0,
            n == tris@.len() / 3,
            tris@.len() <= usize::MAX,
            k <= n,
            forall|i: int| 0 <= i < tris@.len() ==> (#[trigger] tris@[i]) < world@.len(),
            forall|i: int| 0 <= i < world@.len() ==> in_range3(#[trigger] world@[i]),
            rel_best(best, spec_best_hit_upto(world@, tris@, ro, rd, k as int)),
        decreases n - k,
    {
        proof {
            vstd::arithmetic::div_mod::lemma_fundamental_div_mod(tris@.len() as int, 3);
            assert(3 * (k as int) + 2 < tris@.len());
        }
        let i0 = tris[3 * k];
        let i1 = tris[3 * k + 1];
        let i2 = tris[3 * k + 2];
        let v0 = world[i0 as usize];
        let v1 = world[i1 as usize];
        let v2 = world[i2 as usize];
        let cur = tri_hit(ro, rd, v0, v1, v2);
        best = match (best, cur) {
            (Option::None, c) => c,
            (Option::Some(p), Option::None) => Some(p),
            (Option::Some(p), Option::Some(c)) => if frac_lt_exec(c, p) {
                Some(c)
            } else {
                Some(p)
            },
        };
        k += 1;
    }
    best
}

/// A positioned, uniformly scaled mesh instance.  The base mesh (vertices
/// and triangle indices) is immutable after construction; the transform is
/// mutable; the world-space vertex list and its bounding box are a cache
/// that is either entirely absent or entirely present and correct.
pub struct Object {
    pub name: String,
    pub file_path: String,
    pub location: Vec3,
    pub default_offset: Vec3,
    pub scale_milli: i64,
    pub color: ObjectColor,
    pub hovered: bool,
    pub base_verts: Vec<Vec3>,
    pub tri_indices: Vec<u32>,
    pub transformed_verts: Option<Vec<Vec3>>,
    pub aabb: Option<AABB>,
}

impl Object {
    /// The world-space vertex list determined by the current transform.
    pub open spec fn spec_world(&self) -> Seq<Vec3> {
        spec_world_verts(self.base_verts@, self.location, self.scale_milli, self.default_offset)
    }

    /// Well-formedness: valid triangle indices, a supported scale, and the
    /// cache either entirely absent or entirely present and faithful to the
    /// current transform.
    pub open spec fn wf(&self) -> bool {
        &&& self.tri_indices@.len() % 3 == 0
        &&& forall|i: int|
            0 <= i < self.tri_indices@.len() ==> (#[trigger] self.tri_indices@[i])
                < self.base_verts@.len()
        &&& 0 <= self.scale_milli <= SCALE_LIMIT
        &&& (self.transformed_verts is Some <==> self.aabb is Some)
        &&& (self.transformed_verts matches Some(w) ==> w@ == self.spec_world())
        &&& (self.aabb matches Some(b) ==> b == spec_aabb_of(self.spec_world()))
    }

    /// The identity, base mesh and transform are unchanged; only the cache
    /// and the transient flags may differ.
    pub open spec fn same_placement(&self, other: &Object) -> bool {
        &&& self.name@ == other.name@
        &&& self.file_path@ == other.file_path@
        &&& self.location == other.location
        &&& self.default_offset == other.default_offset
        &&& self.scale_milli == other.scale_milli
        &&& self.base_verts@ == other.base_verts@
        &&& self.tri_indices@ == other.tri_indices@
    }

    /// Build an object from a loaded mesh group.  The fixed centering
    /// offset is computed here, once; the transform starts at the origin
    /// with scale one, and the cache starts empty.
    pub fn new(name: String, file_path: String, base_verts: Vec<Vec3>, tri_indices: Vec<u32>) -> (r:
        Object)
        requires
            tri_indices@.len() % 3 == 0,
            forall|i: int|
                0 <= i < tri_indices@.len() ==> (#[trigger] tri_indices@[i]) < base_verts@.len(),
            forall|i: int| 0 <= i < base_verts@.len() ==> in_range3(#[trigger] base_verts@[i]),
        ensures
            r.wf(),
            r.name == name,
            r.file_path == file_path,
            r.location == (Vec3 { x: 0, y: 0, z: 0 }),
            r.scale_milli == SCALE_ONE,
            r.default_offset == spec_default_offset(base_verts@),
            r.base_verts@ == base_verts@,
            r.tri_indices@ == tri_indices@,
            r.transformed_verts is None,
            r.aabb is None,
            r.hovered == false,
            r.color == ObjectColor::Yellow,
    {
        let bb = aabb_of_verts(&base_verts);
        proof {
            lemma_aabb_of_in_range(base_verts@);
        }
        let sx: i128 = bb.max_x as i128 + bb.min_x as i128;
        let sy: i128 = bb.max_y as i128 + bb.min_y as i128;
        let qx = match sx.checked_div_euclid(2) {
            Some(q) => q,
            None => 0,  // unreachable: the divisor is a positive constant
        };
        let qy = match sy.checked_div_euclid(2) {
            Some(q) => q,
            None => 0,  // unreachable: the divisor is a positive constant
        };
        let off = Vec3 {
            x: (-qx) as i64,
            y: (-qy) as i64,
            z: if bb.min_z == i64::MIN {
                i64::MIN  // cannot arise: an in-range mesh never reaches the sentinel
            } else {
                -bb.min_z
            },
        };
        Object {
            name,
            file_path,
            location: Vec3 { x: 0, y: 0, z: 0 },
            default_offset: off,
            scale_milli: SCALE_ONE,
            color: ObjectColor::Yellow,
            hovered: false,
            base_verts,
            tri_indices,
            transformed_verts: None,
            aabb: None,
        }
    }

    pub fn set_scale(&mut self, scale_milli: i64)
        requires
            old(self).wf(),
            0 <= scale_milli <= SCALE_LIMIT,
        ensures
            final(self).wf(),
            final(self).scale_milli == scale_milli,
            final(self).location == old(self).location,
            final(self).transformed_verts is None,
            final(self).aabb is None,
            final(self).name == old(self).name,
            final(self).file_path == old(self).file_path,
            final(self).default_offset == old(self).default_offset,
            final(self).base_verts@ == old(self).base_verts@,
            final(self).tri_indices@ == old(self).tri_indices@,
            final(self).hovered == old(self).hovered,
            final(self).color == old(self).color,
    {
        self.scale_milli = scale_milli;
        self.invalidate_cache();
    }

    pub fn set_location(&mut self, location: Vec3)
        requires
            old(self).wf(),
        ensures
            final(self).wf(),
            final(self).location == location,
            final(self).scale_milli == old(self).scale_milli,
            final(self).transformed_verts is None,
            final(self).aabb is None,
            final(self).name == old(self).name,
            final(self).file_path == old(self).file_path,
            final(self).default_offset == old(self).default_offset,
            final(self).base_verts@ == old(self).base_verts@,
            final(self).tri_indices@ == old(self).tri_indices@,
            final(self).hovered == old(self).hovered,
            final(self).color == old(self).color,
    {
        self.location = location;
        self.invalidate_cache();
    }

    /// Mutable access to the location; the cache is cleared first, so that
    /// a stale world-space cache can never outlive a transform change.
    pub fn get_mut_location(&mut self) -> (r: &mut Vec3)
        requires
            old(self).wf(),
        ensures
            *r == old(self).location,
            final(self).location == *final(r),
            final(self).scale_milli == old(self).scale_milli,
            final(self).transformed_verts is None,
            final(self).aabb is None,
            final(self).wf(),
            final(self).name == old(self).name,
            final(self).file_path == old(self).file_path,
            final(self).default_offset == old(self).default_offset,
            final(self).base_verts@ == old(self).base_verts@,
            final(self).tri_indices@ == old(self).tri_indices@,
            final(self).hovered == old(self).hovered,
            final(self).color == old(self).color,
    {
        self.invalidate_cache();
        &mut self.location
    }

    pub fn get_location(&self) -> (r: Vec3)
        ensures
            r == self.location,
    {
        self.location
    }

    /// Mutable access to the scale; the cache is cleared first.  The caller
    /// must leave a value in `[0, SCALE_LIMIT]` behind.
    pub fn get_mut_scale(&mut self) -> (r: &mut i64)
        requires
            old(self).wf(),
        ensures
            *r == old(self).scale_milli,
            final(self).scale_milli == *final(r),
            final(self).location == old(self).location,
            final(self).transformed_verts is None,
            final(self).aabb is None,
            0 <= *final(r) <= SCALE_LIMIT ==> final(self).wf(),
            final(self).name == old(self).name,
            final(self).file_path == old(self).file_path,
            final(self).default_offset == old(self).default_offset,
            final(self).base_verts@ == old(self).base_verts@,
            final(self).tri_indices@ == old(self).tri_indices@,
            final(self).hovered == old(self).hovered,
            final(self).color == old(self).color,
    {
        self.invalidate_cache();
        &mut self.scale_milli
    }

    pub fn get_scale(&self) -> (r: i64)
        ensures
            r == self.scale_milli,
    {
        self.scale_milli
    }

    /// Read access to the cached bounding box.
    pub fn get_aabb(&self) -> (r: Option<AABB>)
        ensures
            r == self.aabb,
    {
        self.aabb
    }

    /// Read access to the cached world-space vertices.
    pub fn get_transformed_verts(&self) -> (r: &Option<Vec<Vec3>>)
        ensures
            r == &self.transformed_verts,
    {
        &self.transformed_verts
    }

    /// Drop both cached derivations of the transform.
    pub fn invalidate_cache(&mut self)
        ensures
            final(self).transformed_verts is None,
            final(self).aabb is None,
            final(self).location == old(self).location,
            final(self).scale_milli == old(self).scale_milli,
            final(self).name == old(self).name,
            final(self).file_path == old(self).file_path,
            final(self).default_offset == old(self).default_offset,
            final(self).base_verts@ == old(self).base_verts@,
            final(self).tri_indices@ == old(self).tri_indices@,
            final(self).hovered == old(self).hovered,
            final(self).color == old(self).color,
            old(self).wf() ==> final(self).wf(),
    {
        self.transformed_verts = None;
        self.aabb = None;
    }

    /// Recompute both cached derivations from the current transform.
    pub fn revalidate_cache(&mut self)
        requires
            old(self).wf(),
        ensures
            final(self).wf(),
            final(self).transformed_verts is Some,
            final(self).aabb is Some,
            final(self).same_placement(old(self)),
            final(self).hovered == old(self).hovered,
            final(self).color == old(self).color,
    {
        let world = transform_verts(
            &self.base_verts,
            self.location,
            self.scale_milli,
            self.default_offset,
        );
        let bb = aabb_of_verts(&world);
        self.transformed_verts = Some(world);
        self.aabb = Some(bb);
    }

    /// The model matrix in exact milli-units.
    pub fn get_model_matrix(&self) -> (r: ModelMatrix)
        requires
            self.wf(),
        ensures
            r.scale_milli == self.scale_milli,
            mag(r.tx_milli as int) <= 0x10_0000_0000_0000_0000_0000,
            mag(r.ty_milli as int) <= 0x10_0000_0000_0000_0000_0000,
            mag(r.tz_milli as int) <= 0x10_0000_0000_0000_0000_0000,
            r.tx_milli as int == 1000 * self.location.x + self.scale_milli
                * self.default_offset.x,
            r.ty_milli as int == 1000 * self.location.y + self.scale_milli
                * self.default_offset.y,
            r.tz_milli as int == 1000 * self.location.z + self.scale_milli
                * self.default_offset.z,
    {
        proof {
            crate::geom::lemma_mul_mag(
                self.scale_milli as int,
                self.default_offset.x as int,
                SCALE_LIMIT as int,
                0x8000_0000_0000_0000,
            );
            crate::geom::lemma_mul_mag(
                self.scale_milli as int,
                self.default_offset.y as int,
                SCALE_LIMIT as int,
                0x8000_0000_0000_0000,
            );
            crate::geom::lemma_mul_mag(
                self.scale_milli as int,
                self.default_offset.z as int,
                SCALE_LIMIT as int,
                0x8000_0000_0000_0000,
            );
        }
        ModelMatrix {
            scale_milli: self.scale_milli,
            tx_milli: 1000 * self.location.x as i128 + self.scale_milli as i128
                * self.default_offset.x as i128,
            ty_milli: 1000 * self.location.y as i128 + self.scale_milli as i128
                * self.default_offset.y as i128,
            tz_milli: 1000 * self.location.z as i128 + self.scale_milli as i128
                * self.default_offset.z as i128,
        }
    }

    /// A deep copy with fresh cache and cleared hover flag.
    pub fn make_copy(&self) -> (r: Object)
        requires
            self.wf(),
        ensures
            r.wf(),
            r.same_placement(self),
            r.hovered == false,
            r.color == self.color,
            r.transformed_verts is None,
            r.aabb is None,
    {
        Object {
            name: clone_string(&self.name),
            file_path: clone_string(&self.file_path),
            location: self.location,
            default_offset: self.default_offset,
            scale_milli: self.scale_milli,
            color: self.color,
            hovered: false,
            base_verts: copy_verts(&self.base_verts),
            tri_indices: copy_indices(&self.tri_indices),
            transformed_verts: None,
            aabb: None,
        }
    }

    /// Cast a ray against this object.  The cache is filled if absent; the
    /// bounding-box prefilter runs first and, when it rejects the ray, no
    /// triangle is ever examined; otherwise the nearest triangle
    /// intersection (least positive `t`) is returned with its hit point.
    pub fn intersect_with_ray(&mut self, ray_origin: Vec3, ray_dir: Vec3) -> (r: Option<RayHit>)
        requires
            old(self).wf(),
            in_range3(ray_origin),
            in_range3(ray_dir),
        ensures
            final(self).wf(),
            final(self).transformed_verts is Some,
            final(self).aabb is Some,
            final(self).same_placement(old(self)),
            final(self).hovered == old(self).hovered,
            final(self).color == old(self).color,
            rel_hit(
                r,
                spec_object_pick(
                    old(self).spec_world(),
                    old(self).tri_indices@,
                    ray_origin,
                    ray_dir,
                ),
                ray_origin,
                ray_dir,
            ),
            !spec_aabb_hit(spec_aabb_of(old(self).spec_world()), ray_origin, ray_dir) ==> r
                is None,
    {
        if self.transformed_verts.is_none() {
            self.revalidate_cache();
        }
        let best: Option<(i128, i128)> = match (&self.transformed_verts, &self.aabb) {
            (Some(world), Some(bb)) => {
                if !bb.intersect_with_ray(ray_origin, ray_dir) {
                    None
                } else {
                    proof {
                        lemma_world_in_range(
                            self.base_verts@,
                            self.location,
                            self.scale_milli,
                            self.default_offset,
                        );
                    }
                    pick_closest(world, &self.tri_indices, ray_origin, ray_dir)
                }
            },
            _ => vstd::pervasive::unreached(),
        };
        match best {
            None => None,
            Some(p) => {
                let pt = ray_point(ray_origin, ray_dir, p.0, p.1);
                Some(RayHit { t_num: p.0, t_den: p.1, point: pt })
            },
        }
    }
}

/// Every coordinate of a bounding box over in-range points stays a valid
/// `i64` computation source: for a non-empty in-range list the bounds are in
/// range, and for an empty list they are the sentinels.
proof fn lemma_aabb_of_in_range(world: Seq<Vec3>)
    requires
        forall|i: int| 0 <= i < world.len() ==> in_range3(#[trigger] world[i]),
    ensures
        world.len() > 0 ==> {
            &&& coord_in_range(spec_aabb_of(world).min_x)
            &&& coord_in_range(spec_aabb_of(world).min_y)
            &&& coord_in_range(spec_aabb_of(world).min_z)
            &&& coord_in_range(spec_aabb_of(world).max_x)
            &&& coord_in_range(spec_aabb_of(world).max_y)
            &&& coord_in_range(spec_aabb_of(world).max_z)
        },
        world.len() == 0 ==> spec_aabb_of(world) == (AABB {
            min_x: i64::MAX,
            min_y: i64::MAX,
            min_z: i64::MAX,
            max_x: i64::MIN,
            max_y: i64::MIN,
            max_z: i64::MIN,
        }),
    decreases world.len(),
{
    if world.len() > 0 {
        lemma_aabb_of_in_range(world.drop_last());
        assert(in_range3(world.last()));
    }
}

/// Every vertex produced by the world transform lies inside the supported
/// coordinate range, because each component is clamped.
proof fn lemma_world_in_range(base: Seq<Vec3>, loc: Vec3, scale_milli: i64, off: Vec3)
    ensures
        forall|i: int|
            0 <= i < spec_world_verts(base, loc, scale_milli, off).len() ==> in_range3(
                #[trigger] spec_world_verts(base, loc, scale_milli, off)[i],
            ),
{
    assert forall|i: int|
        0 <= i < spec_world_verts(base, loc, scale_milli, off).len() implies in_range3(
        #[trigger] spec_world_verts(base, loc, scale_milli, off)[i],
    ) by {
        let v = spec_world_verts(base, loc, scale_milli, off)[i];
        assert(v == spec_world_vert(loc, scale_milli, off, base[i]));
    }
}

/// The mesh file formats a loader exists for.
#[derive(Clone, Copy, PartialEq, Eq, Structural, Debug)]
pub enum MeshFormat {
    Stl,
    ThreeMf,
}

pub open spec fn spec_ascii_lower(b: u8) -> u8 {
    if 65 <= b <= 90 {
        (b + 32) as u8
    } else {
        b
    }
}

pub open spec fn spec_lower_bytes(s: Seq<u8>) -> Seq<u8> {
    s.map(|i: int, b: u8| spec_ascii_lower(b))
}

fn ascii_lower(b: u8) -> (r: u8)
    ensures
        r == spec_ascii_lower(b),
{
    if 65 <= b && b <= 90 {
        b + 32
    } else {
        b
    }
}

/// Pick the loader for a mesh file extension, compared without regard to
/// ASCII case: `stl` and `3mf` are supported, anything else is a load
/// error — a hard failure at the loader boundary, never silently skipped.
pub fn loader_for_extension(ext: &str) -> (r: Result<MeshFormat, crate::job::Errors>)
    ensures
        r == Ok::<MeshFormat, crate::job::Errors>(MeshFormat::Stl) <==> spec_lower_bytes(
            ext.spec_bytes(),
        ) == seq![115u8, 116u8, 108u8],
        r == Ok::<MeshFormat, crate::job::Errors>(MeshFormat::ThreeMf) <==> spec_lower_bytes(
            ext.spec_bytes(),
        ) == seq![51u8, 109u8, 102u8],
        r matches Err(e) ==> (e matches crate::job::Errors::LoadError { message } && message@
            == "File format not supported."@),
{
    let bs = ext.as_bytes();
    let ghost lows = spec_lower_bytes(ext.spec_bytes());
    proof {
        assert(lows.len() == bs@.len());
    }
    if bs.len() == 3 {
        let l0 = ascii_lower(bs[0]);
        let l1 = ascii_lower(bs[1]);
        let l2 = ascii_lower(bs[2]);
        proof {
            assert(lows[0] == l0 && lows[1] == l1 && lows[2] == l2);
        }
        if l0 == 115 && l1 == 116 && l2 == 108 {
            proof {
                assert(lows =~= seq![115u8, 116u8, 108u8]);
            }
            return Ok(MeshFormat::Stl);
        }
        if l0 == 51 && l1 == 109 && l2 == 102 {
            proof {
                assert(lows =~= seq![51u8, 109u8, 102u8]);
            }
            return Ok(MeshFormat::ThreeMf);
        }
    }
    proof {
        if lows == seq![115u8, 116u8, 108u8] {
            assert(lows[0] == 115 && lows[1] == 116 && lows[2] == 108);
        }
        if lows == seq![51u8, 109u8, 102u8] {
            assert(lows[0] == 51 && lows[1] == 109 && lows[2] == 102);
        }
    }
    Err(crate::job::Errors::LoadError { message: "File format not supported.".to_owned() })
}

fn clone_string(s: &String) -> (r: String)
    ensures
        r@ == s@,
{
    s.clone()
}

fn copy_verts(v: &Vec<Vec3>) -> (r: Vec<Vec3>)
    ensures
        r@ == v@,
{
    let mut r: Vec<Vec3> = Vec::new();
    let mut i: usize = 0;
    while i < v.len()
        invariant
            i <= v@.len(),
            r@ =~= v@.subrange(0, i as int),
        decreases v@.len() - i,
    {
        r.push(v[i]);
        i += 1;
    }
    proof {
        assert(r@ =~= v@);
    }
    r
}

fn copy_indices(v: &Vec<u32>) -> (r: Vec<u32>)
    ensures
        r@ == v@,
{
    let mut r: Vec<u32> = Vec::new();
    let mut i: usize = 0;
    while i < v.len()
        invariant
            i <= v@.len(),
            r@ =~= v@.subrange(0, i as int),
        decreases v@.len() - i,
    {
        r.push(v[i]);
        i += 1;
    }
    proof {
        assert(r@ =~= v@);
    }
    r
}

} // verus!

