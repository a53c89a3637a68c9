use gladius_gui::geom::Vec3;
use gladius_gui::job::{Errors, Message, ToolCommand};
use gladius_gui::object::{Object, ObjectColor};
use gladius_gui::scene::GUIData;

fn v(x: i64, y: i64, z: i64) -> Vec3 {
    Vec3::new(x, y, z)
}

// A wide flat triangle sheet whose raw bounding box is symmetric, so the
// centering offset is zero and world space equals model space.
fn sheet(name: &str) -> Object {
    let verts = vec![v(-100, -100, 0), v(100, -100, 0), v(0, 100, 0)];
    let tris = vec![0u32, 1, 2];
    Object::new(name.to_string(), format!("{}.stl", name), verts, tris)
}

fn scene_with_sheet() -> GUIData {
    let mut gui = GUIData::new(800, 600, v(2500, 2100, 2100));
    gui.extend_objects(vec![sheet("a")]);
    gui
}

#[test]
fn new_scene_centers_camera_on_plate() {
    let gui = GUIData::new(800, 600, v(2500, 2100, 2100));
    assert_eq!(gui.camera.center, v(1250, 1050, 0));
    assert_eq!(gui.camera.pitch_urad, gladius_gui::camera::PITCH_START_URAD);
    assert_eq!(gui.camera.yaw_urad, gladius_gui::camera::YAW_START_URAD);
    assert_eq!(gui.camera.zoom_milli, gladius_gui::camera::ZOOM_START_MILLI);
    assert!(!gui.camera.matrices_current);
    assert!(gui.get_objects().is_empty());
    assert!(!gui.is_command_running());
    assert_eq!(gui.get_command_state(), "");
    // with no objects and no settings path a slice cannot start
    assert!(!gui.can_slice());
}

// Hovering: a ray that hits the object selects and flags it; a ray that
// misses clears the selection again.
#[test]
fn hover_selects_and_clears() {
    let mut gui = scene_with_sheet();
    gui.mouse_move(v(0, 0, 100), v(0, 0, -100));
    let c = gui.closest_object_point.expect("the sheet is under the pointer");
    assert_eq!(c.0, 0);
    assert_eq!(c.1, v(0, 0, 0));
    assert_eq!(c.2, v(0, 0, 0));
    assert!(gui.get_objects()[0].hovered);
    gui.mouse_move(v(100_000, 100_000, 100), v(0, 0, -100));
    assert!(gui.closest_object_point.is_none());
    assert!(!gui.get_objects()[0].hovered);
}

// Among two objects on the same ray the nearer one wins.
#[test]
fn hover_picks_nearest_object() {
    let mut gui = GUIData::new(800, 600, v(2500, 2100, 2100));
    let low = sheet("low");
    let mut high = sheet("high");
    high.set_location(v(0, 0, 40));
    gui.extend_objects(vec![low, high]);
    gui.mouse_move(v(0, 0, 100), v(0, 0, -100));
    let c = gui.closest_object_point.expect("both are under the pointer");
    assert_eq!(c.0, 1);
    assert_eq!(c.1, v(0, 0, 40));
    assert!(gui.get_objects()[1].hovered);
    assert!(!gui.get_objects()[0].hovered);
}

// The drag round trip: press over the object, drag away, drag back to the
// press ray; the location is exactly the pre-drag one.
#[test]
fn drag_round_trip_restores_location() {
    let mut gui = scene_with_sheet();
    let r1o = v(0, 0, 100);
    let r1d = v(0, 0, -100);
    gui.mouse_move(r1o, r1d);
    assert!(gui.closest_object_point.is_some());
    gui.select_button_pressed();
    assert!(gui.dragging);
    // first drag motion, still at the press ray: captures the anchor
    gui.mouse_move(r1o, r1d);
    assert_eq!(gui.get_objects()[0].get_location(), v(0, 0, 0));
    // drag to the side: an oblique ray crossing z == 0 at x == 50
    gui.mouse_move(v(50, 0, 100), v(0, 0, -100));
    assert_eq!(gui.get_objects()[0].get_location(), v(50, 0, 0));
    // an even wilder detour
    gui.mouse_move(v(-30, 70, 100), v(0, 0, -100));
    assert_eq!(gui.get_objects()[0].get_location(), v(-30, 70, 0));
    // back to the press ray: exactly the original location
    gui.mouse_move(r1o, r1d);
    assert_eq!(gui.get_objects()[0].get_location(), v(0, 0, 0));
    gui.select_button_released();
    assert!(!gui.dragging);
    assert!(gui.get_objects()[0].get_aabb().is_some());
}

// Dragging with an oblique ray moves by the plane intersection, not by
// the raw pointer coordinates.
#[test]
fn drag_follows_plane_intersection() {
    let mut gui = scene_with_sheet();
    gui.mouse_move(v(0, 0, 100), v(0, 0, -100));
    gui.select_button_pressed();
    gui.mouse_move(v(0, 0, 100), v(0, 0, -100));
    // direction (1, 0, -1): from (0,0,100) it meets z == 0 at x == 100
    gui.mouse_move(v(0, 0, 100), v(100, 0, -100));
    assert_eq!(gui.get_objects()[0].get_location(), v(100, 0, 0));
}

// A press with nothing hovered never starts a drag.
#[test]
fn press_without_hover_is_ignored() {
    let mut gui = scene_with_sheet();
    gui.mouse_move(v(100_000, 100_000, 100), v(0, 0, -100));
    gui.select_button_pressed();
    assert!(!gui.dragging);
}

// While dragging, orbit input is ignored; the wheel still zooms.
#[test]
fn orbit_locked_while_dragging() {
    let mut gui = scene_with_sheet();
    gui.mouse_move(v(0, 0, 100), v(0, 0, -100));
    gui.select_button_pressed();
    let pitch = gui.camera.pitch_urad;
    let yaw = gui.camera.yaw_urad;
    gui.mouse_move_delta(500, 500);
    assert_eq!(gui.camera.pitch_urad, pitch);
    assert_eq!(gui.camera.yaw_urad, yaw);
    let zoom = gui.camera.zoom_milli;
    gui.mouse_wheel(1);
    assert_eq!(gui.camera.zoom_milli, zoom * 9 / 10);
    gui.select_button_released();
    gui.mouse_move_delta(0, 10);
    assert_eq!(gui.camera.pitch_urad, pitch + 100_000);
}

// The color pass: hovered inside the volume is blue, plain inside is
// yellow, outside is red, selections are cyan or magenta.
#[test]
fn update_colors_runs_the_table() {
    let mut gui = GUIData::new(800, 600, v(2500, 2100, 2100));
    let mut inside = sheet("inside");
    inside.set_location(v(200, 200, 0));
    let mut outside = sheet("outside");
    outside.set_location(v(-5000, 0, 0));
    gui.extend_objects(vec![inside, outside]);
    // no caches yet: nothing counts as inside the volume
    gui.update_colors();
    assert_eq!(gui.get_objects()[0].color, ObjectColor::Red);
    assert_eq!(gui.get_objects()[1].color, ObjectColor::Red);
    // hover over the inside object fills its cache and flags it
    gui.mouse_move(v(200, 200, 100), v(0, 0, -100));
    gui.update_colors();
    // hovered and selected and inside the volume: cyan
    assert_eq!(gui.get_objects()[0].color, ObjectColor::Cyan);
    // the miss cleared nothing for the other object but filled its cache;
    // it stays red because it lies outside the volume
    assert_eq!(gui.get_objects()[1].color, ObjectColor::Red);
    // move the pointer away: the inside object keeps its cache, loses the
    // selection and the hover, and turns yellow
    gui.mouse_move(v(100_000, 100_000, 100), v(0, 0, -100));
    gui.update_colors();
    assert_eq!(gui.get_objects()[0].color, ObjectColor::Yellow);
}

// The refresh flag is read-and-clear.
#[test]
fn refresh_read_and_clear() {
    let mut gui = scene_with_sheet();
    assert!(!gui.check_refresh_and_clear());
    gui.job.apply_message(Message::Warning("x".to_string()));
    assert!(gui.check_refresh_and_clear());
    assert!(!gui.check_refresh_and_clear());
}

// The polling getters hand out faithful copies of the job slots.
#[test]
fn job_getters_reflect_slots() {
    let mut gui = scene_with_sheet();
    assert!(gui.get_gcode().is_none());
    assert!(gui.get_commands().is_none());
    assert!(gui.get_calculated_values().is_none());
    assert!(gui.get_errors().is_empty());
    gui.job.apply_message(Message::GCode("G1 X0".to_string()));
    gui.job.apply_message(Message::StateUpdate("slicing".to_string()));
    gui.job.apply_message(Message::Commands(vec![ToolCommand::Other]));
    gui.job.apply_message(Message::Error { code: 0x42, message: "oops".to_string() });
    assert_eq!(gui.get_gcode().as_deref(), Some("G1 X0"));
    assert_eq!(gui.get_command_state(), "slicing");
    assert_eq!(gui.get_commands().as_deref(), Some(&[ToolCommand::Other][..]));
    let errs = gui.get_errors();
    assert_eq!(errs.len(), 1);
    let (code, message) = errs[0].get_code_and_message();
    assert_eq!((code, message.as_str()), (0x42, "oops"));
    assert!(matches!(errs[0], Errors::SlicerError { .. }));
}

// The camera snapshot getter rebuilds: it hands out the current fields
// and marks the matrices current until the next mutation.
#[test]
fn camera_snapshot_marks_current() {
    let mut gui = scene_with_sheet();
    assert!(!gui.camera.matrices_current);
    let params = gui.get_camera_view_and_proj_matrix();
    assert!(gui.camera.matrices_current);
    assert_eq!(params.center, gui.camera.center);
    assert_eq!(params.zoom_milli, gui.camera.zoom_milli);
    gui.update_screen_dimensions(1024, 768);
    assert!(!gui.camera.matrices_current);
}

// A drag motion parallel to the drag plane moves nothing.
#[test]
fn drag_parallel_ray_moves_nothing() {
    let mut gui = scene_with_sheet();
    gui.mouse_move(v(0, 0, 100), v(0, 0, -100));
    gui.select_button_pressed();
    gui.mouse_move(v(0, 0, 100), v(0, 0, -100));
    gui.mouse_move(v(10, 10, 100), v(1, 0, 0));
    assert_eq!(gui.get_objects()[0].get_location(), v(0, 0, 0));
}
