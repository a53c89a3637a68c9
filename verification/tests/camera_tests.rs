use gladius_gui::camera::{
    Camera, PITCH_LIMIT_URAD, TAU_URAD, YAW_START_URAD, ZOOM_MAX_MILLI, ZOOM_MIN_MILLI,
    ZOOM_START_MILLI,
};
use gladius_gui::geom::Vec3;

fn cam() -> Camera {
    Camera::new(800, 600, Vec3::new(0, 0, 0))
}

// The pitch stays strictly inside a quarter turn either way, whatever
// sequence of orbit deltas arrives.
#[test]
fn pitch_clamped_over_sequences() {
    let mut c = cam();
    for _ in 0..50 {
        c.orbit(0, 1_000_000);
        assert!(-PITCH_LIMIT_URAD <= c.pitch_urad && c.pitch_urad <= PITCH_LIMIT_URAD);
    }
    assert_eq!(c.pitch_urad, PITCH_LIMIT_URAD);
    for _ in 0..100 {
        c.orbit(0, -900_000);
        assert!(-PITCH_LIMIT_URAD <= c.pitch_urad && c.pitch_urad <= PITCH_LIMIT_URAD);
    }
    assert_eq!(c.pitch_urad, -PITCH_LIMIT_URAD);
}

// A small pitch delta is applied exactly, without clamping.
#[test]
fn pitch_small_delta_exact() {
    let mut c = cam();
    let before = c.pitch_urad;
    c.orbit(0, -12_345);
    assert_eq!(c.pitch_urad, before - 12_345);
}

// The yaw is never clamped; it only wraps around a full turn.
#[test]
fn yaw_wraps_never_clamps() {
    let mut c = cam();
    c.orbit(TAU_URAD + 5, 0);
    assert_eq!(c.yaw_urad, (YAW_START_URAD + 5) % TAU_URAD);
    let mut d = cam();
    for _ in 0..1000 {
        d.orbit(1_000_000, 0);
        assert!(0 <= d.yaw_urad && d.yaw_urad < TAU_URAD);
    }
    // 1000 turns of 1.0 rad each: congruent to the start plus 10^9 urad
    let expected = ((YAW_START_URAD as i128 + 1_000_000_000i128) % TAU_URAD as i128) as i64;
    assert_eq!(d.yaw_urad, expected);
}

// The zoom stays in [5, 1000] units over any wheel sequence, and a single
// step scales by exactly 0.9 or 1.1.
#[test]
fn zoom_bounds_and_steps() {
    let mut c = cam();
    assert_eq!(c.zoom_milli, ZOOM_START_MILLI);
    c.zoom_step(1);
    assert_eq!(c.zoom_milli, ZOOM_START_MILLI * 9 / 10);
    c.zoom_step(-1);
    assert_eq!(c.zoom_milli, ZOOM_START_MILLI * 9 / 10 * 11 / 10);
    c.zoom_step(0);
    assert_eq!(c.zoom_milli, ZOOM_START_MILLI * 9 / 10 * 11 / 10);
    for _ in 0..200 {
        c.zoom_step(1);
        assert!(ZOOM_MIN_MILLI <= c.zoom_milli && c.zoom_milli <= ZOOM_MAX_MILLI);
    }
    assert_eq!(c.zoom_milli, ZOOM_MIN_MILLI);
    for _ in 0..200 {
        c.zoom_step(-1);
        assert!(ZOOM_MIN_MILLI <= c.zoom_milli && c.zoom_milli <= ZOOM_MAX_MILLI);
    }
    assert_eq!(c.zoom_milli, ZOOM_MAX_MILLI);
}

// The derived matrices are marked stale by every mutation and current
// again after an explicit rebuild.
#[test]
fn matrix_staleness_tracking() {
    let mut c = cam();
    assert!(!c.matrices_current);
    let params = c.rebuild_matrices();
    assert!(c.matrices_current);
    assert_eq!(params.zoom_milli, c.zoom_milli);
    assert_eq!(params.screen_w, 800);
    assert_eq!(params.screen_h, 600);
    c.orbit(1, 1);
    assert!(!c.matrices_current);
    let _ = c.rebuild_matrices();
    c.zoom_step(1);
    assert!(!c.matrices_current);
    let _ = c.rebuild_matrices();
    c.update_screen_dimensions(1024, 768);
    assert!(!c.matrices_current);
}
