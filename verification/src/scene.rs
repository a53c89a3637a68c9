use vstd::prelude::*;

verus! {

use crate::geom::Vec3;
use crate::geom::in_range3;
use crate::geom::frac_lt;
use crate::geom::iv;
use crate::geom::spec_ray_point;
use crate::coord_in_range;
use crate::object::AABB;
use crate::object::Object;
use crate::object::spec_color;
use crate::object::spec_object_pick;
use crate::object::color_for;
use crate::camera::Camera;
use crate::camera::CameraParams;
use crate::camera::spec_orbit_pitch;
use crate::camera::spec_orbit_yaw;
use crate::camera::spec_zoom_step;
use crate::job::Job;
use crate::job::Errors;
use crate::job::CalculatedValues;
use crate::job::ToolCommand;

/// An object's placement counts as inside the build volume only when its
/// cached bounding box exists and is fully contained in
/// `[0, area.x] x [0, area.y] x [0, area.z]`.
pub open spec fn spec_in_build(aabb: Option<AABB>, area: Vec3) -> bool {
    aabb matches Some(bb) && 0 <= bb.min_x && 0 <= bb.min_y && 0 <= bb.min_z && bb.max_x <= area.x
        && bb.max_y <= area.y && bb.max_z <= area.z
}

fn in_build_exec(aabb: &Option<AABB>, area: Vec3) -> (r: bool)
    ensures
        r == spec_in_build(*aabb, area),
{
    match aabb {
        Some(bb) => !(bb.min_x < 0 || bb.min_y < 0 || bb.min_z < 0 || bb.max_x > area.x
            || bb.max_y > area.y || bb.max_z > area.z),
        None => false,
    }
}

/// Structural equivalence of two error values.
pub open spec fn spec_errors_eq(a: Errors, b: Errors) -> bool {
    match (a, b) {
        (Errors::SlicerApplicationIssue, Errors::SlicerApplicationIssue) => true,
        (Errors::SlicerCommunicationIssue, Errors::SlicerCommunicationIssue) => true,
        (
            Errors::SlicerError { code: c1, message: m1 },
            Errors::SlicerError { code: c2, message: m2 },
        ) => c1 == c2 && m1@ == m2@,
        (Errors::LoadError { message: m1 }, Errors::LoadError { message: m2 }) => m1@ == m2@,
        _ => false,
    }
}

fn clone_errors(e: &Errors) -> (r: Errors)
    ensures
        spec_errors_eq(*e, r),
{
    match e {
        Errors::SlicerApplicationIssue => Errors::SlicerApplicationIssue,
        Errors::SlicerCommunicationIssue => Errors::SlicerCommunicationIssue,
        Errors::SlicerError { code, message } => Errors::SlicerError {
            code: *code,
            message: message.clone(),
        },
        Errors::LoadError { message } => Errors::LoadError { message: message.clone() },
    }
}

/// The interactive state: the object list, the orbit camera, the current
/// hover/drag selection, the chosen settings path, and the slicing-job
/// state that the transition functions of `Job` maintain.
pub struct GUIData {
    pub objects: Vec<Object>,
    pub print_area_size: Vec3,
    pub closest_object_point: Option<(usize, Vec3, Vec3)>,
    pub dragging: bool,
    /// The drag anchor: where the press-time ray crosses the drag plane,
    /// captured on the first pointer motion of the drag (when the pointer
    /// still stands where it was pressed).  Anchoring at this plane
    /// crossing, rather than at the grid-rounded hit point it approximates,
    /// is what makes the press-move-return round trip reproduce the
    /// original location exactly in integer arithmetic.
    pub drag_plane_anchor: Option<(i64, i64)>,
    pub camera: Camera,
    pub settings_path: String,
    pub job: Job,
}

impl GUIData {
    pub open spec fn wf(&self) -> bool {
        &&& self.camera.wf()
        &&& forall|i: int| 0 <= i < self.objects@.len() ==> (#[trigger] self.objects@[i]).wf()
        &&& (self.closest_object_point matches Some(c) ==> c.0 < self.objects@.len() && in_range3(
            c.1,
        ))
        &&& (self.dragging ==> self.closest_object_point is Some)
        &&& (!self.dragging ==> self.drag_plane_anchor is None)
    }

    /// A fresh scene around an empty build plate: no objects, no selection,
    /// no settings path, an idle job with empty status text, and the orbit
    /// camera at its start orientation looking at the center of the plate.
    pub fn new(screen_w: u32, screen_h: u32, print_area_size: Vec3) -> (r: GUIData)
        requires
            0 <= print_area_size.x,
            0 <= print_area_size.y,
            0 <= print_area_size.z,
        ensures
            r.wf(),
            r.objects@.len() == 0,
            r.print_area_size == print_area_size,
            r.closest_object_point is None,
            r.dragging == false,
            r.drag_plane_anchor is None,
            r.camera.center == (Vec3 {
                x: (print_area_size.x as int / 2) as i64,
                y: (print_area_size.y as int / 2) as i64,
                z: 0,
            }),
            r.camera.pitch_urad == crate::camera::PITCH_START_URAD,
            r.camera.yaw_urad == crate::camera::YAW_START_URAD,
            r.camera.zoom_milli == crate::camera::ZOOM_START_MILLI,
            r.camera.matrices_current == false,
            r.camera.screen_w == screen_w,
            r.camera.screen_h == screen_h,
            r.settings_path@ == Seq::<char>::empty(),
            r.job.running == false,
            r.job.calculated_values is None,
            r.job.gcode is None,
            r.job.commands is None,
            r.job.error is None,
            r.job.status_text@ == Seq::<char>::empty(),
            r.job.refresh_pending == false,
    {
        let cx = (print_area_size.x as u64 / 2) as i64;
        let cy = (print_area_size.y as u64 / 2) as i64;
        let center = Vec3 { x: cx, y: cy, z: 0 };
        GUIData {
            objects: Vec::new(),
            print_area_size,
            closest_object_point: None,
            dragging: false,
            drag_plane_anchor: None,
            camera: Camera::new(screen_w, screen_h, center),
            settings_path: String::new(),
            job: Job::new(),
        }
    }

    /// Append loaded objects to the scene.
    pub fn extend_objects(&mut self, objs: Vec<Object>)
        requires
            old(self).wf(),
            forall|i: int| 0 <= i < objs@.len() ==> (#[trigger] objs@[i]).wf(),
        ensures
            final(self).wf(),
            final(self).objects@ == old(self).objects@ + objs@,
            final(self).print_area_size == old(self).print_area_size,
            final(self).closest_object_point == old(self).closest_object_point,
            final(self).dragging == old(self).dragging,
            final(self).drag_plane_anchor == old(self).drag_plane_anchor,
            final(self).camera == old(self).camera,
            final(self).settings_path@ == old(self).settings_path@,
            final(self).job == old(self).job,
    {
        let ghost orig = self.objects@;
        let ghost incoming = objs@;
        let mut rest = objs;
        while rest.len() > 0
            invariant
                forall|j: int| 0 <= j < rest@.len() ==> (#[trigger] rest@[j]).wf(),
                orig + incoming == self.objects@ + rest@,
                self.print_area_size == old(self).print_area_size,
                self.closest_object_point == old(self).closest_object_point,
                self.dragging == old(self).dragging,
                self.drag_plane_anchor == old(self).drag_plane_anchor,
                self.camera == old(self).camera,
                self.settings_path@ == old(self).settings_path@,
                self.job == old(self).job,
                old(self).wf(),
                forall|j: int| 0 <= j < self.objects@.len() ==> (#[trigger] self.objects@[j]).wf(),
                orig.len() <= self.objects@.len(),
                forall|j: int| 0 <= j < orig.len() ==> #[trigger] self.objects@[j] == orig[j],
            decreases rest@.len(),
        {
            let obj = rest.remove(0);
            self.objects.push(obj);
            proof {
                assert(orig + incoming =~= self.objects@ + rest@);
            }
        }
        proof {
            assert(self.objects@ =~= orig + incoming);
        }
    }

    pub fn get_objects(&self) -> (r: &Vec<Object>)
        ensures
            r == &self.objects,
    {
        &self.objects
    }

    pub fn set_settings_path(&mut self, path: String)
        ensures
            final(self).settings_path == path,
            final(self).objects == old(self).objects,
            final(self).print_area_size == old(self).print_area_size,
            final(self).closest_object_point == old(self).closest_object_point,
            final(self).dragging == old(self).dragging,
            final(self).drag_plane_anchor == old(self).drag_plane_anchor,
            final(self).camera == old(self).camera,
            final(self).job == old(self).job,
            old(self).wf() ==> final(self).wf(),
    {
        self.settings_path = path;
    }

    pub fn get_settings_path(&self) -> (r: &String)
        ensures
            r == &self.settings_path,
    {
        &self.settings_path
    }

    /// A slice may start only with at least one object, a chosen settings
    /// file, and no job already running.
    pub fn can_slice(&self) -> (r: bool)
        ensures
            r == (self.objects@.len() > 0 && self.settings_path@.len() > 0 && !self.job.running),
    {
        self.objects.len() > 0 && !self.settings_path.as_str().is_empty() && !self.job.running
    }

    /// Recompute every object's render color from the fixed decision table
    /// over its hover flag, its containment in the build volume (judged
    /// from the cached bounding box) and its selection.
    pub fn update_colors(&mut self)
        requires
            old(self).wf(),
        ensures
            final(self).wf(),
            final(self).objects@.len() == old(self).objects@.len(),
            forall|i: int|
                0 <= i < old(self).objects@.len() ==> #[trigger] final(self).objects@[i] == (
                Object {
                    color: spec_color(
                        old(self).objects@[i].hovered,
                        spec_in_build(old(self).objects@[i].aabb, old(self).print_area_size),
                        old(self).closest_object_point matches Some(c) && c.0 == i,
                    ),
                    ..old(self).objects@[i]
                }),
            final(self).print_area_size == old(self).print_area_size,
            final(self).closest_object_point == old(self).closest_object_point,
            final(self).dragging == old(self).dragging,
            final(self).drag_plane_anchor == old(self).drag_plane_anchor,
            final(self).camera == old(self).camera,
            final(self).settings_path@ == old(self).settings_path@,
            final(self).job == old(self).job,
    {
        let n = self.objects.len();
        let mut i: usize = 0;
        while i < n
            invariant
                i <= n,
                n == self.objects@.len(),
                n == old(self).objects@.len(),
                old(self).wf(),
                forall|j: int|
                    i <= j < n ==> #[trigger] self.objects@[j] == old(self).objects@[j],
                forall|j: int|
                    0 <= j < i ==> #[trigger] self.objects@[j] == (Object {
                        color: spec_color(
                            old(self).objects@[j].hovered,
                            spec_in_build(old(self).objects@[j].aabb, old(self).print_area_size),
                            old(self).closest_object_point matches Some(c) && c.0 == j,
                        ),
                        ..old(self).objects@[j]
                    }),
                self.print_area_size == old(self).print_area_size,
                self.closest_object_point == old(self).closest_object_point,
                self.dragging == old(self).dragging,
                self.drag_plane_anchor == old(self).drag_plane_anchor,
                self.camera == old(self).camera,
                self.settings_path@ == old(self).settings_path@,
                self.job == old(self).job,
            decreases n - i,
        {
            let selected = match &self.closest_object_point {
                Some(c) => c.0 == i,
                None => false,
            };
            let in_build = in_build_exec(&self.objects[i].aabb, self.print_area_size);
            let hovered = self.objects[i].hovered;
            self.objects[i].color = color_for(hovered, in_build, selected);
            i += 1;
        }
    }

    /// Begin dragging the hovered object, if any.
    pub fn select_button_pressed(&mut self)
        requires
            old(self).wf(),
        ensures
            final(self).wf(),
            final(self).dragging == (old(self).dragging || old(self).closest_object_point
                is Some),
            final(self).drag_plane_anchor == old(self).drag_plane_anchor,
            final(self).objects == old(self).objects,
            final(self).closest_object_point == old(self).closest_object_point,
            final(self).camera == old(self).camera,
            final(self).print_area_size == old(self).print_area_size,
            final(self).settings_path@ == old(self).settings_path@,
            final(self).job == old(self).job,
    {
        if self.closest_object_point.is_some() && !self.dragging {
            self.dragging = true;
        }
    }

    /// End the drag; the dragged object's cache is rebuilt so that both
    /// derived fields are present again.
    pub fn select_button_released(&mut self)
        requires
            old(self).wf(),
        ensures
            final(self).wf(),
            final(self).dragging == false,
            final(self).drag_plane_anchor is None,
            final(self).objects@.len() == old(self).objects@.len(),
            forall|j: int|
                0 <= j < old(self).objects@.len() ==> (#[trigger] final(self).objects@[j]).wf()
                    && final(self).objects@[j].same_placement(&old(self).objects@[j])
                    && final(self).objects@[j].hovered == old(self).objects@[j].hovered
                    && final(self).objects@[j].color == old(self).objects@[j].color,
            final(self).closest_object_point == old(self).closest_object_point,
            final(self).camera == old(self).camera,
            final(self).print_area_size == old(self).print_area_size,
            final(self).settings_path@ == old(self).settings_path@,
            final(self).job == old(self).job,
            old(self).dragging ==> (old(self).closest_object_point matches Some(c) && final(self).objects@[c.0 as int].transformed_verts is Some && final(self).objects@[c.0 as int].aabb is Some),
    {
        if self.dragging {
            match &self.closest_object_point {
                Some(c) => {
                    let index = c.0;
                    self.objects[index].invalidate_cache();
                    self.objects[index].revalidate_cache();
                },
                None => {},
            }
        }
        self.dragging = false;
        self.drag_plane_anchor = None;
    }

    pub fn is_command_running(&self) -> (r: bool)
        ensures
            r == self.job.running,
    {
        self.job.running
    }

    /// Read and clear the refresh flag.
    pub fn check_refresh_and_clear(&mut self) -> (r: bool)
        ensures
            r == old(self).job.refresh_pending,
            final(self).job.refresh_pending == false,
            final(self).job.running == old(self).job.running,
            final(self).job.calculated_values == old(self).job.calculated_values,
            final(self).job.gcode == old(self).job.gcode,
            final(self).job.commands == old(self).job.commands,
            final(self).job.error == old(self).job.error,
            final(self).job.status_text == old(self).job.status_text,
            final(self).objects == old(self).objects,
            final(self).camera == old(self).camera,
            final(self).closest_object_point == old(self).closest_object_point,
            final(self).dragging == old(self).dragging,
            final(self).drag_plane_anchor == old(self).drag_plane_anchor,
            final(self).print_area_size == old(self).print_area_size,
            final(self).settings_path@ == old(self).settings_path@,
            old(self).wf() ==> final(self).wf(),
    {
        let r = self.job.refresh_pending;
        self.job.refresh_pending = false;
        r
    }

    pub fn get_calculated_values(&self) -> (r: Option<CalculatedValues>)
        ensures
            r == self.job.calculated_values,
    {
        self.job.calculated_values
    }

    pub fn get_command_state(&self) -> (r: String)
        ensures
            r@ == self.job.status_text@,
    {
        self.job.status_text.clone()
    }

    /// The current error, as a list of zero or one entries.
    pub fn get_errors(&self) -> (r: Vec<Errors>)
        ensures
            self.job.error is None ==> r@.len() == 0,
            self.job.error matches Some(e) ==> r@.len() == 1 && spec_errors_eq(e, r@[0]),
    {
        let mut r: Vec<Errors> = Vec::new();
        match &self.job.error {
            Some(e) => {
                r.push(clone_errors(e));
            },
            None => {},
        }
        r
    }

    pub fn get_gcode(&self) -> (r: Option<String>)
        ensures
            r is Some <==> self.job.gcode is Some,
            r matches Some(s) ==> (self.job.gcode matches Some(g) && s@ == g@),
    {
        match &self.job.gcode {
            Some(s) => Some(s.clone()),
            None => None,
        }
    }

    pub fn get_commands(&self) -> (r: Option<Vec<ToolCommand>>)
        ensures
            r is Some <==> self.job.commands is Some,
            r matches Some(v) ==> (self.job.commands matches Some(c) && v@ == c@),
    {
        match &self.job.commands {
            Some(c) => Some(copy_commands(c)),
            None => None,
        }
    }

    /// Forwarded orbit-camera operations.
    pub fn mouse_move_delta(&mut self, dx: i64, dy: i64)
        requires
            old(self).wf(),
            -100_000_000 <= dx <= 100_000_000,
            -100_000_000 <= dy <= 100_000_000,
        ensures
            final(self).wf(),
            !old(self).dragging ==> final(self).camera.pitch_urad as int == spec_orbit_pitch(
                old(self).camera.pitch_urad as int,
                10_000 * dy,
            ),
            !old(self).dragging ==> final(self).camera.yaw_urad as int == spec_orbit_yaw(
                old(self).camera.yaw_urad as int,
                -10_000 * dx,
            ),
            old(self).dragging ==> final(self).camera == old(self).camera,
            final(self).camera.zoom_milli == old(self).camera.zoom_milli,
            final(self).camera.center == old(self).camera.center,
            final(self).objects == old(self).objects,
            final(self).closest_object_point == old(self).closest_object_point,
            final(self).dragging == old(self).dragging,
            final(self).drag_plane_anchor == old(self).drag_plane_anchor,
            final(self).print_area_size == old(self).print_area_size,
            final(self).settings_path@ == old(self).settings_path@,
            final(self).job == old(self).job,
    {
        if !self.dragging {
            self.camera.orbit(-10_000 * dx, 10_000 * dy);
        }
    }

    pub fn mouse_wheel(&mut self, wheel_move: i64)
        requires
            old(self).wf(),
        ensures
            final(self).wf(),
            final(self).camera.zoom_milli as int == spec_zoom_step(
                old(self).camera.zoom_milli as int,
                wheel_move as int,
            ),
            final(self).camera.pitch_urad == old(self).camera.pitch_urad,
            final(self).camera.yaw_urad == old(self).camera.yaw_urad,
            final(self).camera.center == old(self).camera.center,
            final(self).objects == old(self).objects,
            final(self).closest_object_point == old(self).closest_object_point,
            final(self).dragging == old(self).dragging,
            final(self).drag_plane_anchor == old(self).drag_plane_anchor,
            final(self).print_area_size == old(self).print_area_size,
            final(self).settings_path@ == old(self).settings_path@,
            final(self).job == old(self).job,
    {
        self.camera.zoom_step(wheel_move);
    }

    pub fn update_screen_dimensions(&mut self, screen_w: u32, screen_h: u32)
        requires
            old(self).wf(),
        ensures
            final(self).wf(),
            final(self).camera.screen_w == screen_w,
            final(self).camera.screen_h == screen_h,
            final(self).camera.pitch_urad == old(self).camera.pitch_urad,
            final(self).camera.yaw_urad == old(self).camera.yaw_urad,
            final(self).camera.zoom_milli == old(self).camera.zoom_milli,
            final(self).objects == old(self).objects,
            final(self).closest_object_point == old(self).closest_object_point,
            final(self).dragging == old(self).dragging,
            final(self).drag_plane_anchor == old(self).drag_plane_anchor,
            final(self).print_area_size == old(self).print_area_size,
            final(self).settings_path@ == old(self).settings_path@,
            final(self).job == old(self).job,
    {
        self.camera.update_screen_dimensions(screen_w, screen_h);
    }

    /// Snapshot the camera parameters for the rendering layer and mark its
    /// matrices current.
    pub fn get_camera_view_and_proj_matrix(&mut self) -> (r: CameraParams)
        requires
            old(self).wf(),
        ensures
            final(self).wf(),
            r.pitch_urad == old(self).camera.pitch_urad,
            r.yaw_urad == old(self).camera.yaw_urad,
            r.zoom_milli == old(self).camera.zoom_milli,
            r.center == old(self).camera.center,
            r.screen_w == old(self).camera.screen_w,
            r.screen_h == old(self).camera.screen_h,
            final(self).camera.matrices_current == true,
            final(self).objects == old(self).objects,
            final(self).closest_object_point == old(self).closest_object_point,
            final(self).dragging == old(self).dragging,
            final(self).drag_plane_anchor == old(self).drag_plane_anchor,
            final(self).print_area_size == old(self).print_area_size,
            final(self).settings_path@ == old(self).settings_path@,
            final(self).job == old(self).job,
    {
        self.camera.rebuild_matrices()
    }
}

/// The scene-level pick over the first `k` objects: each object offers its
/// nearest triangle intersection (behind its bounding-box prefilter), and
/// the strictly nearest one over all objects wins; an earlier object keeps
/// a tie.
pub open spec fn spec_closer_idx(
    prev: Option<(int, (int, int))>,
    cur: Option<(int, int)>,
    k: int,
) -> Option<(int, (int, int))> {
    match cur {
        Option::None => prev,
        Option::Some(t) => match prev {
            Option::None => Some((k, t)),
            Option::Some(p) => if frac_lt(t, p.1) {
                Some((k, t))
            } else {
                prev
            },
        },
    }
}

pub open spec fn spec_scene_pick(objs: Seq<Object>, ro: Vec3, rd: Vec3, k: int) -> Option<
    (int, (int, int)),
>
    decreases k,
{
    if k <= 0 {
        None
    } else {
        spec_closer_idx(
            spec_scene_pick(objs, ro, rd, k - 1),
            spec_object_pick(objs[k - 1].spec_world(), objs[k - 1].tri_indices@, ro, rd),
            k - 1,
        )
    }
}

/// The drag anchor for a press ray: where that ray crosses the drag plane.
pub open spec fn spec_plane_xy(ro: Vec3, rd: Vec3, z0: i64) -> (int, int) {
    (
        crate::geom::spec_plane_coord(ro.x as int, rd.x as int, ro.z as int, rd.z as int, z0 as int),
        crate::geom::spec_plane_coord(ro.y as int, rd.y as int, ro.z as int, rd.z as int, z0 as int),
    )
}

pub open spec fn spec_anchor_xy(ro: Vec3, rd: Vec3, z0: i64) -> (i64, i64) {
    (spec_plane_xy(ro, rd, z0).0 as i64, spec_plane_xy(ro, rd, z0).1 as i64)
}

/// Where a drag move puts the object: the anchor location plus the motion
/// of the plane point since the anchor was captured, clamped into the
/// coordinate range; the height never changes.
pub open spec fn spec_drag_location(l: Vec3, anchor: (i64, i64), p: (int, int)) -> Vec3 {
    Vec3 {
        x: crate::geom::clamp_coord(l.x + (p.0 - anchor.0)) as i64,
        y: crate::geom::clamp_coord(l.y + (p.1 - anchor.1)) as i64,
        z: l.z,
    }
}

/// Drag round trip: the anchor is captured from the first drag ray (the
/// press ray); moving the pointer anywhere else and then returning it to
/// that ray puts the object back at exactly its pre-drag location, because
/// each move recomputes the location from the anchor rather than
/// accumulating increments.
pub proof fn lemma_drag_round_trip(ro1: Vec3, rd1: Vec3, ro2: Vec3, rd2: Vec3, z0: i64, l: Vec3)
    requires
        coord_in_range(l.x),
        coord_in_range(l.y),
        rd1.z != 0,
        rd2.z != 0,
    ensures
        spec_drag_location(
            l,
            spec_anchor_xy(ro1, rd1, z0),
            spec_plane_xy(ro2, rd2, z0),
        ).z == l.z,
        spec_drag_location(l, spec_anchor_xy(ro1, rd1, z0), spec_plane_xy(ro1, rd1, z0)) == l,
{
}

/// What the pick specification says about the stored hover selection: same
/// presence, same object index, the stored point is the rounded ray point
/// at the winning parameter, and the stored location is that object's.
pub open spec fn rel_closest(
    closest: Option<(usize, Vec3, Vec3)>,
    s: Option<(int, (int, int))>,
    ro: Vec3,
    rd: Vec3,
    objs: Seq<Object>,
) -> bool {
    &&& (closest is None <==> s is None)
    &&& (closest matches Some(c) ==> (s matches Some(p) && c.0 as int == p.0 && iv(c.1)
        == spec_ray_point(ro, rd, p.1.0, p.1.1) && in_range3(c.1) && 0 <= p.0 < objs.len() && c.2
        == objs[p.0].location))
}

/// The relation the hover loop maintains between its running best hit and
/// the scene-level pick specification.
pub open spec fn rel_pick(
    best: Option<(usize, (i128, i128), Vec3)>,
    s: Option<(int, (int, int))>,
    ro: Vec3,
    rd: Vec3,
    bound: int,
) -> bool {
    &&& (best is None <==> s is None)
    &&& (best matches Some(b) ==> {
        &&& s == Some((b.0 as int, (b.1.0 as int, b.1.1 as int)))
        &&& b.0 < bound
        &&& 0 < b.1.1 <= crate::geom::T_DEN_LIMIT
        &&& -crate::geom::T_NUM_LIMIT <= b.1.0 <= crate::geom::T_NUM_LIMIT
        &&& iv(b.2) == spec_ray_point(ro, rd, b.1.0 as int, b.1.1 as int)
        &&& in_range3(b.2)
    })
}

impl GUIData {
    /// Pointer motion.  While no drag is active this re-runs the picker:
    /// every hover flag is cleared, each object is cast against (its
    /// bounding box first, its triangles only when the box is hit), and
    /// the nearest hit object becomes the hovered selection.
    ///
    /// During a drag the ray is intersected with the horizontal plane
    /// fixed at the hit point's height, and the dragged object's location
    /// becomes its pre-drag location plus the plane motion since the
    /// anchor: `location = anchor_location + (plane_point.xy -
    /// anchor.xy)`.  The anchor stands for the press-time hit point's
    /// plane position; it is captured as the plane crossing of the first
    /// drag motion's ray — the press ray, since the pointer has not yet
    /// moved — which equals that hit point's plane position up to the
    /// fixed-point grid rounding of the stored hit.  Anchoring at the
    /// crossing itself, instead of at the rounded hit point, keeps the
    /// anchor-relative formulation free of even that rounding gap, so a
    /// press, a move and a return to the press ray reproduce the original
    /// location exactly (`lemma_drag_round_trip`).
    pub fn mouse_move(&mut self, ray_origin: Vec3, ray_dir: Vec3)
        requires
            old(self).wf(),
            in_range3(ray_origin),
            in_range3(ray_dir),
        ensures
            final(self).wf(),
            final(self).dragging == old(self).dragging,
            final(self).camera == old(self).camera,
            final(self).print_area_size == old(self).print_area_size,
            final(self).settings_path@ == old(self).settings_path@,
            final(self).job == old(self).job,
            final(self).objects@.len() == old(self).objects@.len(),
            forall|j: int|
                0 <= j < old(self).objects@.len() ==> (#[trigger] final(self).objects@[
                    j]).same_placement(&old(self).objects@[j]) || j == match old(self).closest_object_point {
                    Some(c) => c.0 as int,
                    None => -1,
                },
            // Hovering: the pick decides the selection and the hover flags.
            !old(self).dragging ==> {
                let pick = spec_scene_pick(
                    old(self).objects@,
                    ray_origin,
                    ray_dir,
                    old(self).objects@.len() as int,
                );
                &&& rel_closest(
                    final(self).closest_object_point,
                    pick,
                    ray_origin,
                    ray_dir,
                    old(self).objects@,
                )
                &&& forall|j: int|
                    0 <= j < old(self).objects@.len() ==> (#[trigger] final(self).objects@[
                        j]).hovered == (pick matches Some(p) && p.0 == j)
                &&& forall|j: int|
                    0 <= j < old(self).objects@.len() ==> (#[trigger] final(self).objects@[
                        j]).same_placement(&old(self).objects@[j]) && final(self).objects@[j].wf()
                        && final(self).objects@[j].color == old(self).objects@[j].color
                        && final(self).objects@[j].transformed_verts is Some
                &&& final(self).drag_plane_anchor == old(self).drag_plane_anchor
            },
            // Dragging: the anchored plane decides the new location.
            old(self).dragging && ray_dir.z != 0 ==> (old(self).closest_object_point matches Some(c) && {
                let anchor = match old(self).drag_plane_anchor {
                    Some(a) => a,
                    None => spec_anchor_xy(ray_origin, ray_dir, c.1.z),
                };
                let p = spec_plane_xy(ray_origin, ray_dir, c.1.z);
                &&& final(self).drag_plane_anchor == Some(anchor)
                &&& final(self).closest_object_point == old(self).closest_object_point
                &&& final(self).objects@[c.0 as int].location == spec_drag_location(
                    c.2,
                    anchor,
                    p,
                )
                &&& final(self).objects@[c.0 as int].wf()
                &&& final(self).objects@[c.0 as int].transformed_verts is Some
                &&& forall|j: int|
                    0 <= j < old(self).objects@.len() && j != c.0 as int ==> #[trigger] final(self).objects@[j] == old(self).objects@[j]
            }),
            old(self).dragging && ray_dir.z == 0 ==> final(self).objects == old(self).objects
                && final(self).closest_object_point == old(self).closest_object_point && final(self).drag_plane_anchor == old(self).drag_plane_anchor,
    {
        if !self.dragging {
            let ghost objs0 = self.objects@;
            let n = self.objects.len();
            let mut best: Option<(usize, (i128, i128), Vec3)> = None;
            let mut en: usize = 0;
            while en < n
                invariant
                    in_range3(ray_origin),
                    in_range3(ray_dir),
                    n == objs0.len(),
                    n == self.objects@.len(),
                    en <= n,
                    forall|j: int| 0 <= j < n ==> (#[trigger] self.objects@[j]).wf(),
                    forall|j: int|
                        0 <= j < n ==> (#[trigger] self.objects@[j]).same_placement(&objs0[j])
                            && self.objects@[j].color == objs0[j].color,
                    forall|j: int| 0 <= j < en ==> !(#[trigger] self.objects@[j]).hovered,
                    forall|j: int|
                        0 <= j < en ==> (#[trigger] self.objects@[j]).transformed_verts is Some,
                    forall|j: int| en <= j < n ==> #[trigger] self.objects@[j] == objs0[j],
                    rel_pick(best, spec_scene_pick(objs0, ray_origin, ray_dir, en as int), ray_origin, ray_dir, en as int),
                    objs0 == old(self).objects@,
                    old(self).wf(),
                    self.dragging == old(self).dragging,
                    !self.dragging,
                    self.camera == old(self).camera,
                    self.job == old(self).job,
                    self.settings_path@ == old(self).settings_path@,
                    self.print_area_size == old(self).print_area_size,
                    self.closest_object_point == old(self).closest_object_point,
                    self.drag_plane_anchor == old(self).drag_plane_anchor,
                decreases n - en,
            {
                self.objects[en].hovered = false;
                let hit = self.objects[en].intersect_with_ray(ray_origin, ray_dir);
                proof {
                    assert(self.objects@[en as int].same_placement(&objs0[en as int]));
                    assert(self.objects@[en as int].spec_world() =~= objs0[en as int].spec_world());
                }
                best = match (best, hit) {
                    (Option::None, Option::None) => None,
                    (Option::None, Option::Some(h)) => Some((en, (h.t_num, h.t_den), h.point)),
                    (Option::Some(b), Option::None) => Some(b),
                    (Option::Some(b), Option::Some(h)) => {
                        if frac_lt_pub((h.t_num, h.t_den), b.1) {
                            Some((en, (h.t_num, h.t_den), h.point))
                        } else {
                            Some(b)
                        }
                    },
                };
                en += 1;
            }
            match best {
                Some(b) => {
                    let loc = self.objects[b.0].get_location();
                    self.closest_object_point = Some((b.0, b.2, loc));
                    self.objects[b.0].hovered = true;
                },
                None => {
                    self.closest_object_point = None;
                },
            }
        } else {
            let (index, ip, translation) = match &self.closest_object_point {
                Some(c) => (c.0, c.1, c.2),
                None => vstd::pervasive::unreached(),
            };
            if ray_dir.z != 0 {
                let px = crate::geom::plane_coord(
                    ray_origin.x,
                    ray_dir.x,
                    ray_origin.z,
                    ray_dir.z,
                    ip.z,
                );
                let py = crate::geom::plane_coord(
                    ray_origin.y,
                    ray_dir.y,
                    ray_origin.z,
                    ray_dir.z,
                    ip.z,
                );
                let anchor = match self.drag_plane_anchor {
                    Some(a) => a,
                    None => {
                        self.drag_plane_anchor = Some((px, py));
                        (px, py)
                    },
                };
                let nx = crate::geom::clamp_to_range(
                    translation.x as i128 + (px as i128 - anchor.0 as i128),
                );
                let ny = crate::geom::clamp_to_range(
                    translation.y as i128 + (py as i128 - anchor.1 as i128),
                );
                let newloc = Vec3 { x: nx, y: ny, z: translation.z };
                self.objects[index].set_location(newloc);
                self.objects[index].revalidate_cache();
            }
        }
    }

    /// Try to start a slicing job.  When the object list is empty, no
    /// settings file is chosen, or a job is already running, nothing
    /// happens and every job field keeps its value.  Otherwise the job
    /// state is reset to a fresh running attempt and the returned request
    /// carries everything the subprocess needs: one positional argument
    /// per object, the escaped settings path, and a worker-thread count of
    /// at least one.
    pub fn start_slice(&mut self) -> (r: Option<SliceRequest>)
        requires
            old(self).wf(),
        ensures
            final(self).wf(),
            final(self).objects == old(self).objects,
            final(self).camera == old(self).camera,
            final(self).closest_object_point == old(self).closest_object_point,
            final(self).dragging == old(self).dragging,
            final(self).drag_plane_anchor == old(self).drag_plane_anchor,
            final(self).print_area_size == old(self).print_area_size,
            final(self).settings_path@ == old(self).settings_path@,
            !(old(self).objects@.len() > 0 && old(self).settings_path@.len() > 0 && !old(self).job.running) ==> r is None && final(self).job == old(self).job,
            (old(self).objects@.len() > 0 && old(self).settings_path@.len() > 0 && !old(self).job.running) ==> (r matches Some(req) && {
                &&& final(self).job.running == true
                &&& final(self).job.calculated_values is None
                &&& final(self).job.gcode is None
                &&& final(self).job.commands is None
                &&& final(self).job.error is None
                &&& final(self).job.status_text@ == old(self).job.status_text@
                &&& final(self).job.refresh_pending == old(self).job.refresh_pending
                &&& req.args@.len() == old(self).objects@.len()
                &&& forall|i: int|
                    0 <= i < old(self).objects@.len() ==> (#[trigger] req.args@[i])@
                        == crate::args::spec_arg_bytes(
                        vstd::utf8::encode_utf8(old(self).objects@[i].file_path@),
                        old(self).objects@[i].scale_milli as int,
                        1000 * old(self).objects@[i].location.x + old(self).objects@[i].scale_milli
                            * old(self).objects@[i].default_offset.x,
                        1000 * old(self).objects@[i].location.y + old(self).objects@[i].scale_milli
                            * old(self).objects@[i].default_offset.y,
                        1000 * old(self).objects@[i].location.z + old(self).objects@[i].scale_milli
                            * old(self).objects@[i].default_offset.z,
                    )
                &&& req.settings_arg@ == crate::args::spec_escape_bytes(
                    vstd::utf8::encode_utf8(old(self).settings_path@),
                )
                &&& req.worker_threads >= 1
            }),
    {
        if !self.can_slice() {
            return None;
        }
        self.job.reset_for_start();
        let args = self.get_command_line_args();
        let mut settings_arg: Vec<u8> = Vec::new();
        crate::args::push_escaped_bytes(&mut settings_arg, self.settings_path.as_str());
        let workers = worker_count();
        Some(SliceRequest { args, settings_arg, worker_threads: workers })
    }

    /// One subprocess argument per object: the JSON fragment pairing the
    /// escaped source path with the current model matrix, row-major, with
    /// every entry an exact decimal.
    pub fn get_command_line_args(&self) -> (args: Vec<Vec<u8>>)
        requires
            self.wf(),
        ensures
            args@.len() == self.objects@.len(),
            forall|j: int|
                0 <= j < self.objects@.len() ==> (#[trigger] args@[j])@
                    == crate::args::spec_arg_bytes(
                    vstd::utf8::encode_utf8(self.objects@[j].file_path@),
                    self.objects@[j].scale_milli as int,
                    1000 * self.objects@[j].location.x + self.objects@[j].scale_milli
                        * self.objects@[j].default_offset.x,
                    1000 * self.objects@[j].location.y + self.objects@[j].scale_milli
                        * self.objects@[j].default_offset.y,
                    1000 * self.objects@[j].location.z + self.objects@[j].scale_milli
                        * self.objects@[j].default_offset.z,
                ),
    {
        let n = self.objects.len();
        let mut args: Vec<Vec<u8>> = Vec::new();
        let mut i: usize = 0;
        while i < n
            invariant
                i <= n,
                n == self.objects@.len(),
                self.wf(),
                args@.len() == i,
                forall|j: int|
                    0 <= j < i ==> (#[trigger] args@[j])@ == crate::args::spec_arg_bytes(
                        vstd::utf8::encode_utf8(self.objects@[j].file_path@),
                        self.objects@[j].scale_milli as int,
                        1000 * self.objects@[j].location.x + self.objects@[j].scale_milli
                            * self.objects@[j].default_offset.x,
                        1000 * self.objects@[j].location.y + self.objects@[j].scale_milli
                            * self.objects@[j].default_offset.y,
                        1000 * self.objects@[j].location.z + self.objects@[j].scale_milli
                            * self.objects@[j].default_offset.z,
                    ),
            decreases n - i,
        {
            let arg = crate::args::build_arg(&self.objects[i]);
            args.push(arg);
            i += 1;
        }
        args
    }
}

/// Everything the platform layer needs to spawn the slicer subprocess.
pub struct SliceRequest {
    pub args: Vec<Vec<u8>>,
    pub settings_arg: Vec<u8>,
    pub worker_threads: usize,
}

/// Relies on num_cpus::get for the machine's logical CPU count; the value
/// depends on the machine, so nothing is promised of it.
#[verifier::external_body]
fn logical_cpu_count() -> usize {
    num_cpus::get()
}

/// The worker-thread count handed to the slicer: the logical CPU count,
/// floored at one.
pub fn worker_count() -> (r: usize)
    ensures
        r >= 1,
{
    let c = logical_cpu_count();
    if c < 1 {
        1
    } else {
        c
    }
}

fn frac_lt_pub(a: (i128, i128), b: (i128, i128)) -> (r: bool)
    requires
        -crate::geom::T_NUM_LIMIT <= a.0 <= crate::geom::T_NUM_LIMIT,
        0 < a.1 <= crate::geom::T_DEN_LIMIT,
        -crate::geom::T_NUM_LIMIT <= b.0 <= crate::geom::T_NUM_LIMIT,
        0 < b.1 <= crate::geom::T_DEN_LIMIT,
    ensures
        r == frac_lt((a.0 as int, a.1 as int), (b.0 as int, b.1 as int)),
{
    proof {
        crate::geom::lemma_mul_mag(
            a.0 as int,
            b.1 as int,
            crate::geom::T_NUM_LIMIT as int,
            crate::geom::T_DEN_LIMIT as int,
        );
        crate::geom::lemma_mul_mag(
            b.0 as int,
            a.1 as int,
            crate::geom::T_NUM_LIMIT as int,
            crate::geom::T_DEN_LIMIT as int,
        );
    }
    a.0 * b.1 < b.0 * a.1
}

fn copy_commands(v: &Vec<ToolCommand>) -> (r: Vec<ToolCommand>)
    ensures
        r@ == v@,
{
    let mut r: Vec<ToolCommand> = Vec::new();
    let mut i: usize = 0;
    while i < v.len()
        invariant
            i <= v@.len(),
            r@ =~= v@.subrange(0, i as int),
        decreases v@.len() - i,
    {
        r.push(v[i]);
        i += 1;
    }
    proof {
        assert(r@ =~= v@);
    }
    r
}

} // verus!
