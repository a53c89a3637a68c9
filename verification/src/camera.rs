use vstd::prelude::*;

verus! {

use crate::geom::Vec3;

/// One full turn, in micro-radians.
pub const TAU_URAD: i64 = 6_283_185;

/// A quarter turn, in micro-radians.
pub const FRAC_PI_2_URAD: i64 = 1_570_796;

/// The margin kept between the pitch and a straight-up or straight-down
/// view, so that the look-at basis never degenerates.
pub const PITCH_MARGIN_URAD: i64 = 1_000;

/// The pitch is clamped to `[-PITCH_LIMIT_URAD, PITCH_LIMIT_URAD]`, strictly
/// inside a quarter turn either way.
pub const PITCH_LIMIT_URAD: i64 = 1_569_796;

/// Zoom bounds and start value, in thousandths of a world unit.
pub const ZOOM_MIN_MILLI: i64 = 5_000;

pub const ZOOM_MAX_MILLI: i64 = 1_000_000;

pub const ZOOM_START_MILLI: i64 = 400_000;

/// Initial pitch: an eighth of a turn.
pub const PITCH_START_URAD: i64 = 785_398;

/// Initial yaw: an eighth of a turn back, nudged by 0.12 radians, wrapped
/// into `[0, TAU_URAD)`.
pub const YAW_START_URAD: i64 = 5_617_787;

pub open spec fn spec_clamp_i(v: int, lo: int, hi: int) -> int {
    if v < lo {
        lo
    } else if v > hi {
        hi
    } else {
        v
    }
}

/// Orbiting adds to the pitch and clamps it strictly inside a quarter turn.
pub open spec fn spec_orbit_pitch(pitch: int, delta: int) -> int {
    spec_clamp_i(pitch + delta, -PITCH_LIMIT_URAD as int, PITCH_LIMIT_URAD as int)
}

/// Orbiting adds to the yaw without any clamp; the angle only wraps around
/// a full turn, which the trigonometry cannot observe.
pub open spec fn spec_orbit_yaw(yaw: int, delta: int) -> int {
    (yaw + delta) % (TAU_URAD as int)
}

/// One wheel step multiplies the zoom by `1 - 0.1 * signum(step)` and
/// clamps it into `[ZOOM_MIN_MILLI, ZOOM_MAX_MILLI]`.
pub open spec fn spec_zoom_step(zoom: int, step: int) -> int {
    let scaled = if step > 0 {
        zoom * 9 / 10
    } else if step < 0 {
        zoom * 11 / 10
    } else {
        zoom
    };
    spec_clamp_i(scaled, ZOOM_MIN_MILLI as int, ZOOM_MAX_MILLI as int)
}

/// Law: one orbit step started inside the pitch bounds ends inside them,
/// whatever the delta; since a fresh camera starts inside them, every
/// sequence of orbit steps keeps the pitch strictly inside a quarter turn.
pub proof fn lemma_orbit_keeps_pitch_bounded(pitch: int, delta: int)
    requires
        -PITCH_LIMIT_URAD <= pitch <= PITCH_LIMIT_URAD,
    ensures
        -PITCH_LIMIT_URAD <= spec_orbit_pitch(pitch, delta) <= PITCH_LIMIT_URAD,
        spec_orbit_pitch(pitch, delta) < FRAC_PI_2_URAD,
        -FRAC_PI_2_URAD < spec_orbit_pitch(pitch, delta),
{
}

/// Law: the yaw is never clamped.  An orbit step leaves the yaw congruent
/// to the old yaw plus the whole delta, modulo one turn.
pub proof fn lemma_orbit_yaw_unclamped(yaw: int, delta: int)
    ensures
        (yaw + delta - spec_orbit_yaw(yaw, delta)) % (TAU_URAD as int) == 0,
        0 <= spec_orbit_yaw(yaw, delta) < TAU_URAD,
{
    vstd::arithmetic::div_mod::lemma_mod_bound(yaw + delta, TAU_URAD as int);
    vstd::arithmetic::div_mod::lemma_fundamental_div_mod(yaw + delta, TAU_URAD as int);
    let q = (yaw + delta) / (TAU_URAD as int);
    assert((yaw + delta - spec_orbit_yaw(yaw, delta)) == (TAU_URAD as int) * q);
    vstd::arithmetic::div_mod::lemma_mod_multiples_basic(q, TAU_URAD as int);
}

/// Law: one zoom step lands inside `[ZOOM_MIN_MILLI, ZOOM_MAX_MILLI]`
/// whatever the starting zoom and wheel value, so every sequence of steps
/// keeps the zoom in bounds.
pub proof fn lemma_zoom_step_stays_bounded(zoom: int, step: int)
    ensures
        ZOOM_MIN_MILLI <= spec_zoom_step(zoom, step) <= ZOOM_MAX_MILLI,
{
}

/// The orbit camera: pitch, yaw and zoom around a fixed center, plus the
/// screen size.  The view and projection matrices derived from these fields
/// are floating-point objects owned by the rendering layer; this state only
/// records, in `matrices_current`, whether those matrices have been rebuilt
/// since the last mutation.
pub struct Camera {
    pub pitch_urad: i64,
    pub yaw_urad: i64,
    pub zoom_milli: i64,
    pub center: Vec3,
    pub screen_w: u32,
    pub screen_h: u32,
    pub matrices_current: bool,
}

/// Everything the rendering layer needs to rebuild the two matrices.
#[derive(Clone, Copy, PartialEq, Eq, Structural, Debug)]
pub struct CameraParams {
    pub pitch_urad: i64,
    pub yaw_urad: i64,
    pub zoom_milli: i64,
    pub center: Vec3,
    pub screen_w: u32,
    pub screen_h: u32,
}

impl Camera {
    /// The camera state invariant: the pitch strictly inside a quarter turn
    /// either way, the yaw wrapped into one turn, the zoom in bounds.
    pub open spec fn wf(&self) -> bool {
        &&& -PITCH_LIMIT_URAD <= self.pitch_urad <= PITCH_LIMIT_URAD
        &&& 0 <= self.yaw_urad < TAU_URAD
        &&& ZOOM_MIN_MILLI <= self.zoom_milli <= ZOOM_MAX_MILLI
    }

    pub fn new(screen_w: u32, screen_h: u32, center: Vec3) -> (r: Camera)
        ensures
            r.wf(),
            r.pitch_urad == PITCH_START_URAD,
            r.yaw_urad == YAW_START_URAD,
            r.zoom_milli == ZOOM_START_MILLI,
            r.center == center,
            r.screen_w == screen_w,
            r.screen_h == screen_h,
            r.matrices_current == false,
    {
        Camera {
            pitch_urad: PITCH_START_URAD,
            yaw_urad: YAW_START_URAD,
            zoom_milli: ZOOM_START_MILLI,
            center,
            screen_w,
            screen_h,
            matrices_current: false,
        }
    }

    /// Orbit by the given angle deltas.  The yaw is never clamped, only
    /// wrapped; the pitch is clamped strictly inside a quarter turn, so
    /// that any sequence of orbit steps keeps it there.
    pub fn orbit(&mut self, delta_yaw_urad: i64, delta_pitch_urad: i64)
        requires
            old(self).wf(),
        ensures
            final(self).wf(),
            final(self).pitch_urad as int == spec_orbit_pitch(
                old(self).pitch_urad as int,
                delta_pitch_urad as int,
            ),
            final(self).yaw_urad as int == spec_orbit_yaw(
                old(self).yaw_urad as int,
                delta_yaw_urad as int,
            ),
            -PITCH_LIMIT_URAD <= final(self).pitch_urad <= PITCH_LIMIT_URAD,
            0 <= final(self).yaw_urad < TAU_URAD,
            final(self).zoom_milli == old(self).zoom_milli,
            final(self).center == old(self).center,
            final(self).screen_w == old(self).screen_w,
            final(self).screen_h == old(self).screen_h,
            final(self).matrices_current == false,
    {
        let p: i128 = self.pitch_urad as i128 + delta_pitch_urad as i128;
        self.pitch_urad = if p < -(PITCH_LIMIT_URAD as i128) {
            -PITCH_LIMIT_URAD
        } else if p > PITCH_LIMIT_URAD as i128 {
            PITCH_LIMIT_URAD
        } else {
            p as i64
        };
        let y: i128 = self.yaw_urad as i128 + delta_yaw_urad as i128;
        let yw = match y.checked_rem_euclid(TAU_URAD as i128) {
            Some(w) => w,
            None => 0,  // unreachable: the divisor is a positive constant
        };
        proof {
            vstd::arithmetic::div_mod::lemma_mod_bound(y as int, TAU_URAD as int);
        }
        self.yaw_urad = yw as i64;
        self.matrices_current = false;
    }

    /// One zoom step; any sequence of steps keeps the zoom in bounds.
    pub fn zoom_step(&mut self, wheel_move: i64)
        requires
            old(self).wf(),
        ensures
            final(self).wf(),
            final(self).zoom_milli as int == spec_zoom_step(
                old(self).zoom_milli as int,
                wheel_move as int,
            ),
            ZOOM_MIN_MILLI <= final(self).zoom_milli <= ZOOM_MAX_MILLI,
            final(self).pitch_urad == old(self).pitch_urad,
            final(self).yaw_urad == old(self).yaw_urad,
            final(self).center == old(self).center,
            final(self).screen_w == old(self).screen_w,
            final(self).screen_h == old(self).screen_h,
            final(self).matrices_current == false,
    {
        let z: u64 = self.zoom_milli as u64;
        let scaled: u64 = if wheel_move > 0 {
            z * 9 / 10
        } else if wheel_move < 0 {
            z * 11 / 10
        } else {
            z
        };
        self.zoom_milli = if scaled < ZOOM_MIN_MILLI as u64 {
            ZOOM_MIN_MILLI
        } else if scaled > ZOOM_MAX_MILLI as u64 {
            ZOOM_MAX_MILLI
        } else {
            scaled as i64
        };
        self.matrices_current = false;
    }

    pub fn update_screen_dimensions(&mut self, screen_w: u32, screen_h: u32)
        requires
            old(self).wf(),
        ensures
            final(self).wf(),
            final(self).screen_w == screen_w,
            final(self).screen_h == screen_h,
            final(self).pitch_urad == old(self).pitch_urad,
            final(self).yaw_urad == old(self).yaw_urad,
            final(self).zoom_milli == old(self).zoom_milli,
            final(self).center == old(self).center,
            final(self).matrices_current == false,
    {
        self.screen_w = screen_w;
        self.screen_h = screen_h;
        self.matrices_current = false;
    }

    /// Take the parameter snapshot from which the rendering layer rebuilds
    /// the view and projection matrices, and record that they are current.
    pub fn rebuild_matrices(&mut self) -> (r: CameraParams)
        requires
            old(self).wf(),
        ensures
            final(self).wf(),
            final(self).pitch_urad == old(self).pitch_urad,
            final(self).yaw_urad == old(self).yaw_urad,
            final(self).zoom_milli == old(self).zoom_milli,
            final(self).center == old(self).center,
            final(self).screen_w == old(self).screen_w,
            final(self).screen_h == old(self).screen_h,
            final(self).matrices_current == true,
            r.pitch_urad == old(self).pitch_urad,
            r.yaw_urad == old(self).yaw_urad,
            r.zoom_milli == old(self).zoom_milli,
            r.center == old(self).center,
            r.screen_w == old(self).screen_w,
            r.screen_h == old(self).screen_h,
    {
        self.matrices_current = true;
        CameraParams {
            pitch_urad: self.pitch_urad,
            yaw_urad: self.yaw_urad,
            zoom_milli: self.zoom_milli,
            center: self.center,
            screen_w: self.screen_w,
            screen_h: self.screen_h,
        }
    }
}

} // verus!
