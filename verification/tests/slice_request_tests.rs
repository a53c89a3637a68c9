use gladius_gui::geom::Vec3;
use gladius_gui::object::Object;
use gladius_gui::scene::{worker_count, GUIData};

fn v(x: i64, y: i64, z: i64) -> Vec3 {
    Vec3::new(x, y, z)
}

fn sym_object(path: &str) -> Object {
    // symmetric around the origin at z == 0, so the centering offset is zero
    let verts = vec![v(-100, -100, 0), v(100, -100, 0), v(0, 100, 0)];
    let tris = vec![0u32, 1, 2];
    Object::new("part".to_string(), path.to_string(), verts, tris)
}

// `start_slice` is a no-op while the object list is empty, while no
// settings file is chosen, and while a job is already running; in all
// three cases the job fields stay untouched.
#[test]
fn start_preconditions_block_bad_states() {
    // empty object list
    let mut gui = GUIData::new(800, 600, v(2500, 2100, 2100));
    gui.set_settings_path("settings.json".to_string());
    assert!(gui.start_slice().is_none());
    assert!(!gui.job.running);

    // empty settings path
    let mut gui = GUIData::new(800, 600, v(2500, 2100, 2100));
    gui.extend_objects(vec![sym_object("part.stl")]);
    assert!(gui.start_slice().is_none());
    assert!(!gui.job.running);

    // a job already running
    let mut gui = GUIData::new(800, 600, v(2500, 2100, 2100));
    gui.extend_objects(vec![sym_object("part.stl")]);
    gui.set_settings_path("settings.json".to_string());
    let first = gui.start_slice();
    assert!(first.is_some());
    assert!(gui.job.running);
    gui.job.apply_message(gladius_gui::job::Message::GCode("G1".to_string()));
    assert!(gui.start_slice().is_none());
    // the running attempt's fields were not reset by the refused start
    assert!(gui.job.gcode.is_some());
}

// A granted start resets the job fields and builds one JSON argument per
// object, with the model matrix in row-major form and exact decimals.
#[test]
fn start_builds_exact_arguments() {
    let mut gui = GUIData::new(800, 600, v(2500, 2100, 2100));
    let mut obj = sym_object("model.stl");
    obj.set_location(v(124, 105, 0));
    gui.extend_objects(vec![obj]);
    gui.set_settings_path("settings.json".to_string());
    let req = gui.start_slice().expect("a slice may start");
    assert!(gui.job.running);
    assert_eq!(req.args.len(), 1);
    let arg = String::from_utf8(req.args[0].clone()).unwrap();
    assert_eq!(
        arg,
        "{\"Raw\":[\"model.stl\",[[1.0, 0.0, 0.0, 124.0], [0.0, 1.0, 0.0, 105.0], \
         [0.0, 0.0, 1.0, 0.0], [0.0, 0.0, 0.0, 1.0]]]} "
    );
    assert_eq!(String::from_utf8(req.settings_arg.clone()).unwrap(), "settings.json");
    assert!(req.worker_threads >= 1);
}

// Backslashes in paths are doubled, both in object arguments and in the
// settings argument.
#[test]
fn arguments_escape_backslashes() {
    let mut gui = GUIData::new(800, 600, v(2500, 2100, 2100));
    gui.extend_objects(vec![sym_object("dir\\model.stl")]);
    gui.set_settings_path("conf\\settings.json".to_string());
    let req = gui.start_slice().expect("a slice may start");
    let arg = String::from_utf8(req.args[0].clone()).unwrap();
    assert!(arg.starts_with("{\"Raw\":[\"dir\\\\model.stl\","));
    assert_eq!(String::from_utf8(req.settings_arg.clone()).unwrap(), "conf\\\\settings.json");
}

// Scaled and negative transforms print as exact trimmed decimals.
#[test]
fn arguments_trim_decimals_exactly() {
    let mut gui = GUIData::new(800, 600, v(2500, 2100, 2100));
    let mut obj = sym_object("p.stl");
    obj.set_scale(1500);
    obj.set_location(v(-2, 0, 3));
    gui.extend_objects(vec![obj]);
    gui.set_settings_path("s.json".to_string());
    let req = gui.start_slice().expect("a slice may start");
    let arg = String::from_utf8(req.args[0].clone()).unwrap();
    // scale 1.5, translation (-2.0, 0.0, 3.0); the offset is zero
    assert_eq!(
        arg,
        "{\"Raw\":[\"p.stl\",[[1.5, 0.0, 0.0, -2.0], [0.0, 1.5, 0.0, 0.0], \
         [0.0, 0.0, 1.5, 3.0], [0.0, 0.0, 0.0, 1.0]]]} "
    );
}

// A fractional translation keeps all meaningful decimals.
#[test]
fn arguments_keep_fractional_digits() {
    let mut gui = GUIData::new(800, 600, v(2500, 2100, 2100));
    // raise the mesh so the grounding offset is -1 and scale by 0.125x8=1.0:
    // with scale 1.375 the z translation is -1.375
    let verts = vec![v(-100, -100, 1), v(100, -100, 1), v(0, 100, 1)];
    let tris = vec![0u32, 1, 2];
    let mut obj = Object::new("part".to_string(), "q.stl".to_string(), verts, tris);
    obj.set_scale(1375);
    gui.extend_objects(vec![obj]);
    gui.set_settings_path("s.json".to_string());
    let req = gui.start_slice().expect("a slice may start");
    let arg = String::from_utf8(req.args[0].clone()).unwrap();
    assert_eq!(
        arg,
        "{\"Raw\":[\"q.stl\",[[1.375, 0.0, 0.0, 0.0], [0.0, 1.375, 0.0, 0.0], \
         [0.0, 0.0, 1.375, -1.375], [0.0, 0.0, 0.0, 1.0]]]} "
    );
}

#[test]
fn worker_count_is_at_least_one() {
    assert!(worker_count() >= 1);
}
