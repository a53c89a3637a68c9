use vstd::prelude::*;

verus! {

use crate::COORD_LIMIT;
use crate::coord_in_range;

/// A point or direction in fixed-point world coordinates.  All geometry in
/// this crate is exact: coordinates are integers in a caller-chosen fixed
/// sub-unit (for example hundredths of a millimetre), and every derived
/// quantity is either an integer or an exact ratio of integers.
#[derive(Clone, Copy, PartialEq, Eq, Structural, Debug)]
pub struct Vec3 {
    pub x: i64,
    pub y: i64,
    pub z: i64,
}

impl Vec3 {
    pub fn new(x: i64, y: i64, z: i64) -> (r: Vec3)
        ensures
            r == (Vec3 { x, y, z }),
    {
        Vec3 { x, y, z }
    }
}

/// A vector of unbounded integers, used only in specifications.
pub ghost struct Iv3 {
    pub x: int,
    pub y: int,
    pub z: int,
}

/// The mathematical value of a fixed-point vector.
pub open spec fn iv(v: Vec3) -> Iv3 {
    Iv3 { x: v.x as int, y: v.y as int, z: v.z as int }
}

pub open spec fn in_range3(v: Vec3) -> bool {
    coord_in_range(v.x) && coord_in_range(v.y) && coord_in_range(v.z)
}

pub open spec fn sub3(a: Iv3, b: Iv3) -> Iv3 {
    Iv3 { x: a.x - b.x, y: a.y - b.y, z: a.z - b.z }
}

pub open spec fn cross3(a: Iv3, b: Iv3) -> Iv3 {
    Iv3 { x: a.y * b.z - a.z * b.y, y: a.z * b.x - a.x * b.z, z: a.x * b.y - a.y * b.x }
}

pub open spec fn dot3(a: Iv3, b: Iv3) -> int {
    a.x * b.x + a.y * b.y + a.z * b.z
}

/// Magnitude of an integer.
pub open spec fn mag(x: int) -> int {
    if x < 0 {
        -x
    } else {
        x
    }
}

/// All three components are bounded by `b` in magnitude.
pub open spec fn bounded3(a: Iv3, b: int) -> bool {
    mag(a.x) <= b && mag(a.y) <= b && mag(a.z) <= b
}

/// Dividing by a positive integer cannot grow the magnitude.
pub proof fn lemma_div_mag(num: int, td: int, bound: int)
    requires
        1 <= td,
        mag(num) <= bound,
    ensures
        mag(num / td) <= bound,
{
    vstd::arithmetic::div_mod::lemma_fundamental_div_mod(num, td);
    vstd::arithmetic::div_mod::lemma_mod_bound(num, td);
    assert(mag(num / td) <= bound) by (nonlinear_arith)
        requires
            num == td * (num / td) + num % td,
            0 <= num % td < td,
            1 <= td,
            mag(num) <= bound,
    ;
}

pub proof fn lemma_mul_mag(a: int, b: int, ba: int, bb: int)
    by (nonlinear_arith)
    requires
        mag(a) <= ba,
        mag(b) <= bb,
    ensures
        mag(a * b) <= ba * bb,
{
}

/// Exact signs of ratios: the value `n / d` (for `d != 0`) is `>= 0`,
/// `<= 1`, or `> 0`, decided without any division.
pub open spec fn frac_nonneg(n: int, d: int) -> bool {
    if d > 0 {
        n >= 0
    } else {
        n <= 0
    }
}

pub open spec fn frac_le_one(n: int, d: int) -> bool {
    if d > 0 {
        n <= d
    } else {
        n >= d
    }
}

pub open spec fn frac_pos(n: int, d: int) -> bool {
    if d > 0 {
        n > 0
    } else {
        n < 0
    }
}

/// `a.0 / a.1 < b.0 / b.1` for ratios with positive denominators.
pub open spec fn frac_lt(a: (int, int), b: (int, int)) -> bool {
    a.0 * b.1 < b.0 * a.1
}

/// An exec vector of `i128` components together with the bound that is known
/// for them; used for the intermediate values of the ray-casting arithmetic.
struct W3 {
    x: i128,
    y: i128,
    z: i128,
}

spec fn wv(v: W3) -> Iv3 {
    Iv3 { x: v.x as int, y: v.y as int, z: v.z as int }
}

/// Componentwise difference of two fixed-point vectors, widened to `i128`.
fn wide_sub(a: Vec3, b: Vec3) -> (r: W3)
    ensures
        wv(r) == sub3(iv(a), iv(b)),
        in_range3(a) && in_range3(b) ==> bounded3(wv(r), 1_000_000),
{
    W3 { x: a.x as i128 - b.x as i128, y: a.y as i128 - b.y as i128, z: a.z as i128 - b.z as i128 }
}

/// A fixed-point vector widened to `i128`.
fn wide_of(v: Vec3) -> (r: W3)
    ensures
        wv(r) == iv(v),
        in_range3(v) ==> bounded3(wv(r), 500_000),
{
    W3 { x: v.x as i128, y: v.y as i128, z: v.z as i128 }
}

/// Cross product of two bounded `i128` vectors.
fn wide_cross(a: &W3, b: &W3, Ghost(ba): Ghost<int>, Ghost(bb): Ghost<int>) -> (r: W3)
    requires
        0 <= ba,
        0 <= bb,
        bounded3(wv(*a), ba),
        bounded3(wv(*b), bb),
        ba * bb <= 0x2000_0000_0000_0000_0000_0000_0000_0000,
    ensures
        wv(r) == cross3(wv(*a), wv(*b)),
        bounded3(wv(r), 2 * (ba * bb)),
{
    proof {
        lemma_mul_mag(a.x as int, b.y as int, ba, bb);
        lemma_mul_mag(a.x as int, b.z as int, ba, bb);
        lemma_mul_mag(a.y as int, b.x as int, ba, bb);
        lemma_mul_mag(a.y as int, b.z as int, ba, bb);
        lemma_mul_mag(a.z as int, b.x as int, ba, bb);
        lemma_mul_mag(a.z as int, b.y as int, ba, bb);
    }
    W3 {
        x: a.y * b.z - a.z * b.y,
        y: a.z * b.x - a.x * b.z,
        z: a.x * b.y - a.y * b.x,
    }
}

/// Dot product of two bounded `i128` vectors.
fn wide_dot(a: &W3, b: &W3, Ghost(ba): Ghost<int>, Ghost(bb): Ghost<int>) -> (r: i128)
    requires
        0 <= ba,
        0 <= bb,
        bounded3(wv(*a), ba),
        bounded3(wv(*b), bb),
        ba * bb <= 0x2000_0000_0000_0000_0000_0000_0000_0000,
    ensures
        r as int == dot3(wv(*a), wv(*b)),
        mag(r as int) <= 3 * (ba * bb),
{
    proof {
        lemma_mul_mag(a.x as int, b.x as int, ba, bb);
        lemma_mul_mag(a.y as int, b.y as int, ba, bb);
        lemma_mul_mag(a.z as int, b.z as int, ba, bb);
    }
    a.x * b.x + a.y * b.y + a.z * b.z
}

/// Largest magnitude a triangle-test numerator (`t` scaled by the
/// determinant) can take for in-range inputs.
pub const T_NUM_LIMIT: i128 = 6_000_000_000_000_000_000;

/// Largest value the Moeller-Trumbore determinant can take for in-range
/// inputs; every returned denominator lies in `(0, T_DEN_LIMIT]`.
pub const T_DEN_LIMIT: i128 = 3_000_000_000_000_000_000;

/// The Moeller-Trumbore ray/triangle test over exact integers.  The ray is
/// `o + t*d`; the result is the intersection parameter `t` as an exact ratio
/// with positive denominator, or `None` when the ray misses the triangle.
///
/// Rejections mirror the classical algorithm: a zero determinant (ray
/// parallel to the triangle plane), a barycentric coordinate outside
/// `[0, 1]`, their sum above one, or an intersection at `t <= 0` (behind the
/// ray origin).  Exact arithmetic needs no epsilon guards.
pub open spec fn spec_tri_hit(o: Vec3, d: Vec3, v0: Vec3, v1: Vec3, v2: Vec3) -> Option<
    (int, int),
> {
    let e1 = sub3(iv(v1), iv(v0));
    let e2 = sub3(iv(v2), iv(v0));
    let h = cross3(iv(d), e2);
    let a = dot3(e1, h);
    if a == 0 {
        None
    } else {
        let s = sub3(iv(o), iv(v0));
        let un = dot3(s, h);
        let q = cross3(s, e1);
        let vn = dot3(iv(d), q);
        let tn = dot3(e2, q);
        if !(frac_nonneg(un, a) && frac_le_one(un, a)) {
            None
        } else if !(frac_nonneg(vn, a) && frac_le_one(un + vn, a)) {
            None
        } else if !frac_pos(tn, a) {
            None
        } else if a > 0 {
            Some((tn, a))
        } else {
            Some((-tn, -a))
        }
    }
}

/// Executable form of `spec_tri_hit`; all intermediates fit in `i128`.
pub fn tri_hit(o: Vec3, d: Vec3, v0: Vec3, v1: Vec3, v2: Vec3) -> (r: Option<(i128, i128)>)
    requires
        in_range3(o),
        in_range3(d),
        in_range3(v0),
        in_range3(v1),
        in_range3(v2),
    ensures
        r is None <==> spec_tri_hit(o, d, v0, v1, v2) is None,
        r matches Some(p) ==> spec_tri_hit(o, d, v0, v1, v2) == Some((p.0 as int, p.1 as int)),
        r matches Some(p) ==> 0 < p.1 <= T_DEN_LIMIT && -T_NUM_LIMIT <= p.0 <= T_NUM_LIMIT,
{
    let e1 = wide_sub(v1, v0);
    let e2 = wide_sub(v2, v0);
    let dw = wide_of(d);
    let h = wide_cross(&dw, &e2, Ghost(500_000), Ghost(1_000_000));
    let a = wide_dot(&e1, &h, Ghost(1_000_000), Ghost(1_000_000_000_000));
    if a == 0 {
        return None;
    }
    let s = wide_sub(o, v0);
    let un = wide_dot(&s, &h, Ghost(1_000_000), Ghost(1_000_000_000_000));
    let inside_u = if a > 0 {
        0 <= un && un <= a
    } else {
        a <= un && un <= 0
    };
    if !inside_u {
        return None;
    }
    let q = wide_cross(&s, &e1, Ghost(1_000_000), Ghost(1_000_000));
    let vn = wide_dot(&dw, &q, Ghost(500_000), Ghost(2_000_000_000_000));
    let uv = un + vn;
    let inside_v = if a > 0 {
        0 <= vn && uv <= a
    } else {
        vn <= 0 && a <= uv
    };
    if !inside_v {
        return None;
    }
    let tn = wide_dot(&e2, &q, Ghost(1_000_000), Ghost(2_000_000_000_000));
    let ahead = if a > 0 {
        tn > 0
    } else {
        tn < 0
    };
    if !ahead {
        return None;
    }
    if a > 0 {
        Some((tn, a))
    } else {
        Some((-tn, -a))
    }
}

/// Clamp an unbounded coordinate back into the supported range.
pub open spec fn clamp_coord(v: int) -> int {
    if v < -COORD_LIMIT {
        -COORD_LIMIT as int
    } else if v > COORD_LIMIT {
        COORD_LIMIT as int
    } else {
        v
    }
}

/// The point `o + t*d` for `t == tn/td`, with each exact coordinate rounded
/// down to the fixed-point grid and clamped into the supported range.
pub open spec fn spec_ray_point(o: Vec3, d: Vec3, tn: int, td: int) -> Iv3 {
    Iv3 {
        x: clamp_coord((o.x * td + tn * d.x) / td),
        y: clamp_coord((o.y * td + tn * d.y) / td),
        z: clamp_coord((o.z * td + tn * d.z) / td),
    }
}

fn ray_point_axis(oc: i64, dc: i64, tn: i128, td: i128) -> (r: i64)
    requires
        coord_in_range(oc),
        coord_in_range(dc),
        0 < td <= T_DEN_LIMIT,
        -T_NUM_LIMIT <= tn <= T_NUM_LIMIT,
    ensures
        r as int == clamp_coord((oc * td + tn * dc) as int / td as int),
        coord_in_range(r),
{
    proof {
        lemma_mul_mag(oc as int, td as int, 500_000, T_DEN_LIMIT as int);
        lemma_mul_mag(tn as int, dc as int, T_NUM_LIMIT as int, 500_000);
    }
    let num: i128 = oc as i128 * td + tn * dc as i128;
    proof {
        lemma_div_mag(num as int, td as int, 0x10_0000_0000_0000_0000_0000_0000);
    }
    let quot = match num.checked_div_euclid(td) {
        Some(q) => q,
        None => 0,  // unreachable: the divisor is positive and the quotient fits
    };
    if quot < -(COORD_LIMIT as i128) {
        -COORD_LIMIT
    } else if quot > COORD_LIMIT as i128 {
        COORD_LIMIT
    } else {
        quot as i64
    }
}

/// Where the ray `o + t*d` crosses the horizontal plane `z == z0`, one
/// coordinate at a time: `oc - (dc/dz) * (oz - z0)` as an exact ratio,
/// rounded down to the grid and clamped into the supported range.  The
/// ratio is normalised to a positive denominator before rounding.
pub open spec fn spec_plane_coord(oc: int, dc: int, oz: int, dz: int, z0: int) -> int {
    let num = oc * dz - dc * (oz - z0);
    if dz > 0 {
        clamp_coord(num / dz)
    } else {
        clamp_coord((-num) / (-dz))
    }
}

/// Clamp an `i128` value into the supported coordinate range.
pub fn clamp_to_range(v: i128) -> (r: i64)
    ensures
        r as int == clamp_coord(v as int),
        coord_in_range(r),
{
    if v < -(COORD_LIMIT as i128) {
        -COORD_LIMIT
    } else if v > COORD_LIMIT as i128 {
        COORD_LIMIT
    } else {
        v as i64
    }
}

/// Executable form of `spec_plane_coord`.
pub fn plane_coord(oc: i64, dc: i64, oz: i64, dz: i64, z0: i64) -> (r: i64)
    requires
        coord_in_range(oc),
        coord_in_range(dc),
        coord_in_range(oz),
        coord_in_range(dz),
        coord_in_range(z0),
        dz != 0,
    ensures
        r as int == spec_plane_coord(oc as int, dc as int, oz as int, dz as int, z0 as int),
        coord_in_range(r),
{
    proof {
        lemma_mul_mag(oc as int, dz as int, 500_000, 500_000);
        lemma_mul_mag(dc as int, oz - z0, 500_000, 1_000_000);
    }
    let num: i128 = oc as i128 * dz as i128 - dc as i128 * (oz as i128 - z0 as i128);
    let (n2, d2): (i128, i128) = if dz > 0 {
        (num, dz as i128)
    } else {
        (-num, -(dz as i128))
    };
    proof {
        lemma_div_mag(n2 as int, d2 as int, 0x8_0000_0000_0000_0000_0000);
    }
    let q = match n2.checked_div_euclid(d2) {
        Some(q) => q,
        None => 0,  // unreachable: the divisor is positive and the quotient fits
    };
    clamp_to_range(q)
}

/// Executable form of `spec_ray_point`.
pub fn ray_point(o: Vec3, d: Vec3, tn: i128, td: i128) -> (r: Vec3)
    requires
        in_range3(o),
        in_range3(d),
        0 < td <= T_DEN_LIMIT,
        -T_NUM_LIMIT <= tn <= T_NUM_LIMIT,
    ensures
        iv(r) == spec_ray_point(o, d, tn as int, td as int),
        in_range3(r),
{
    Vec3 {
        x: ray_point_axis(o.x, d.x, tn, td),
        y: ray_point_axis(o.y, d.y, tn, td),
        z: ray_point_axis(o.z, d.z, tn, td),
    }
}

} // verus!
