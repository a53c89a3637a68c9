use gladius_gui::geom::Vec3;
use gladius_gui::object::{color_for, loader_for_extension, MeshFormat, Object, ObjectColor};
use gladius_gui::job::Errors;

fn v(x: i64, y: i64, z: i64) -> Vec3 {
    Vec3::new(x, y, z)
}

fn cube_object() -> Object {
    // A cube spanning [0,10] x [0,10] x [2,12]; two triangles are enough
    // geometry for the cache tests.
    let verts = vec![
        v(0, 0, 2),
        v(10, 0, 2),
        v(0, 10, 2),
        v(10, 10, 12),
    ];
    let tris = vec![0u32, 1, 2, 1, 3, 2];
    Object::new("cube".to_string(), "cube.stl".to_string(), verts, tris)
}

// The centering offset is computed once at load time: the mesh is centered
// over x and y and rests its lowest point on the build plate.
#[test]
fn default_offset_centers_and_grounds() {
    let obj = cube_object();
    assert_eq!(obj.default_offset, v(-5, -5, -2));
}

// Cache coherence: a new object has neither cache field; revalidation
// fills both; any transform mutation clears both.
#[test]
fn cache_both_absent_then_both_present() {
    let mut obj = cube_object();
    assert!(obj.get_transformed_verts().is_none());
    assert!(obj.get_aabb().is_none());
    obj.revalidate_cache();
    assert!(obj.get_transformed_verts().is_some());
    assert!(obj.get_aabb().is_some());
    obj.set_location(v(100, 0, 0));
    assert!(obj.get_transformed_verts().is_none());
    assert!(obj.get_aabb().is_none());
    obj.revalidate_cache();
    obj.set_scale(2000);
    assert!(obj.get_transformed_verts().is_none());
    assert!(obj.get_aabb().is_none());
}

// A read through the ray-cast path recomputes the cache before use.
#[test]
fn intersect_refills_cache() {
    let mut obj = cube_object();
    let _ = obj.intersect_with_ray(v(0, 0, 100), v(0, 0, -1));
    assert!(obj.get_transformed_verts().is_some());
    assert!(obj.get_aabb().is_some());
}

// The world-space bounding box reflects the whole transform: offset first,
// then uniform scale, then translation.
#[test]
fn world_aabb_applies_transform() {
    let mut obj = cube_object();
    obj.set_location(v(100, 0, 0));
    obj.set_scale(2000);
    obj.revalidate_cache();
    let bb = obj.get_aabb().expect("cache was just rebuilt");
    // base x in [0,10], offset -5 -> [-5,5], scale 2 -> [-10,10], loc +100
    assert_eq!(bb.min_x, 90);
    assert_eq!(bb.max_x, 110);
    assert_eq!(bb.min_y, -10);
    assert_eq!(bb.max_y, 10);
    // base z in [2,12], offset -2 -> [0,10], scale 2 -> [0,20]
    assert_eq!(bb.min_z, 0);
    assert_eq!(bb.max_z, 20);
}

// A copy shares the placement but starts with a fresh cache and no hover.
#[test]
fn make_copy_resets_cache_and_hover() {
    let mut obj = cube_object();
    obj.set_location(v(7, 8, 0));
    obj.revalidate_cache();
    obj.hovered = true;
    let copy = obj.make_copy();
    assert_eq!(copy.name, "cube");
    assert_eq!(copy.file_path, "cube.stl");
    assert_eq!(copy.location, v(7, 8, 0));
    assert!(!copy.hovered);
    assert!(copy.get_transformed_verts().is_none());
    assert!(copy.get_aabb().is_none());
}

// An object whose bounding box is missed never reports a triangle hit.
#[test]
fn aabb_prefilter_rejects_before_triangles() {
    let mut obj = cube_object();
    // far off to the side: the box test fails, so the answer is None
    assert!(obj.intersect_with_ray(v(500, 500, 100), v(0, 0, -1)).is_none());
}

// The nearest of several triangles wins.
#[test]
fn nearest_triangle_wins() {
    let verts = vec![
        // low triangle at z == 0 (after grounding), spanning widely
        v(-100, -100, 0),
        v(100, -100, 0),
        v(0, 100, 0),
        // high triangle at z == 40
        v(-100, -100, 40),
        v(100, -100, 40),
        v(0, 100, 40),
    ];
    let tris = vec![0u32, 1, 2, 3, 4, 5];
    let mut obj = Object::new("pair".to_string(), "pair.stl".to_string(), verts, tris);
    let hit = obj.intersect_with_ray(v(0, 0, 100), v(0, 0, -1)).expect("must hit");
    // the upper sheet (z == 40) is nearer to the origin at z == 100
    assert_eq!(hit.point, v(0, 0, 40));
}

// The fixed six-entry color table.
#[test]
fn color_decision_table() {
    assert_eq!(color_for(false, false, false), ObjectColor::Red);
    assert_eq!(color_for(false, true, false), ObjectColor::Yellow);
    assert_eq!(color_for(true, true, false), ObjectColor::Blue);
    assert_eq!(color_for(true, false, false), ObjectColor::Red);
    assert_eq!(color_for(false, false, true), ObjectColor::Magenta);
    assert_eq!(color_for(true, false, true), ObjectColor::Magenta);
    assert_eq!(color_for(false, true, true), ObjectColor::Cyan);
    assert_eq!(color_for(true, true, true), ObjectColor::Cyan);
}

// Extension dispatch is case-insensitive and fails hard on anything
// unsupported.
#[test]
fn loader_extension_dispatch() {
    assert!(matches!(loader_for_extension("stl"), Ok(MeshFormat::Stl)));
    assert!(matches!(loader_for_extension("STL"), Ok(MeshFormat::Stl)));
    assert!(matches!(loader_for_extension("3mf"), Ok(MeshFormat::ThreeMf)));
    assert!(matches!(loader_for_extension("3MF"), Ok(MeshFormat::ThreeMf)));
    match loader_for_extension("obj") {
        Err(Errors::LoadError { message }) => {
            assert_eq!(message, "File format not supported.");
        }
        other => panic!("expected a load error, got {:?}", other),
    }
    assert!(loader_for_extension("").is_err());
}

// An empty mesh: the bounding box degenerates to the inverted sentinel
// and no ray ever hits the object.
#[test]
fn empty_mesh_never_hit() {
    let mut obj = Object::new("void".to_string(), "void.stl".to_string(), vec![], vec![]);
    assert!(obj.intersect_with_ray(v(0, 0, 100), v(0, 0, -1)).is_none());
    let bb = obj.get_aabb().expect("the cast filled the cache");
    assert!(bb.min_x > bb.max_x);
}
