use xr_core::camera::{
    extract_views, run_camera_frame, single_root, update_root_transform_components,
    xr_camera_head_sync, xr_camera_head_sync_render_world, Eye, EyeView, RootTransform, XrCamera,
    XrCameraData, XrWarning,
};
use xr_core::math::{Quat, Transform, Vec3};
use xr_core::proj::{Fov, XRProjection};
use xr_core::room::{room_frame_action, room_step, RoomAction, RoomEvent};

fn v(x: i64, y: i64, z: i64) -> Vec3 {
    Vec3 { x, y, z }
}

fn identity_quat() -> Quat {
    Quat { x: 0, y: 0, z: 0, w: 1000 }
}

fn transform_at(t: Vec3) -> Transform {
    Transform { rotation: identity_quat(), translation: t }
}

fn camera(eye: Eye) -> XrCameraData {
    XrCameraData {
        camera: XrCamera(eye),
        transform: transform_at(v(0, 0, 0)),
        projection: XRProjection::default(),
        root_transform: RootTransform(transform_at(v(0, 0, 0))),
    }
}

fn sample(t: Vec3, tan: i64) -> EyeView {
    EyeView {
        pose: transform_at(t),
        fov: Fov { tan_left: -tan, tan_right: tan, tan_up: tan, tan_down: -tan },
    }
}

#[test]
fn head_sync_copies_pose_and_fov() {
    let mut cameras = vec![camera(Eye::Left), camera(Eye::Right)];
    let views = vec![sample(v(10, 20, 30), 1000), sample(v(-10, 20, 30), 900)];
    xr_camera_head_sync(&views, &mut cameras);
    assert_eq!(cameras[0].transform.translation, v(10, 20, 30));
    assert_eq!(cameras[1].transform.translation, v(-10, 20, 30));
    assert_eq!(cameras[0].projection.fov.tan_right, 1000);
    assert_eq!(cameras[1].projection.fov.tan_right, 900);
    // near and far are untouched by the sync
    assert_eq!(cameras[0].projection.near, 100);
}

#[test]
fn head_sync_skips_missing_sample() {
    // only the left eye has a sample this frame: the right camera is left
    // untouched, with no error
    let mut cameras = vec![camera(Eye::Left), camera(Eye::Right)];
    let views = vec![sample(v(10, 0, 0), 1000)];
    xr_camera_head_sync(&views, &mut cameras);
    assert_eq!(cameras[0].transform.translation, v(10, 0, 0));
    assert_eq!(cameras[1].transform.translation, v(0, 0, 0));
}

#[test]
fn single_root_validation() {
    assert_eq!(single_root(&vec![transform_at(v(1, 2, 3))]), Ok(transform_at(v(1, 2, 3))));
    assert_eq!(single_root(&Vec::new()), Err(XrWarning::MissingSingleton));
    assert_eq!(
        single_root(&vec![transform_at(v(0, 0, 0)), transform_at(v(1, 1, 1))]),
        Err(XrWarning::MissingSingleton)
    );
}

#[test]
fn root_replication_with_one_root_updates_all() {
    let mut cameras = vec![camera(Eye::Left), camera(Eye::Right)];
    let roots = vec![transform_at(v(7, 8, 9))];
    let w = update_root_transform_components(&roots, &mut cameras);
    assert_eq!(w, None);
    assert_eq!(cameras[0].root_transform.0.translation, v(7, 8, 9));
    assert_eq!(cameras[1].root_transform.0.translation, v(7, 8, 9));
}

#[test]
fn root_replication_with_zero_roots_retains_caches() {
    // with no tracking root the caches keep their prior value: no crash,
    // no update
    let mut cameras = vec![camera(Eye::Left)];
    cameras[0].root_transform = RootTransform(transform_at(v(4, 5, 6)));
    let w = update_root_transform_components(&Vec::new(), &mut cameras);
    assert_eq!(w, Some(XrWarning::MissingSingleton));
    assert_eq!(cameras[0].root_transform.0.translation, v(4, 5, 6));
}

#[test]
fn root_replication_with_duplicated_roots_retains_caches() {
    let mut cameras = vec![camera(Eye::Left)];
    cameras[0].root_transform = RootTransform(transform_at(v(4, 5, 6)));
    let roots = vec![transform_at(v(1, 0, 0)), transform_at(v(2, 0, 0))];
    let w = update_root_transform_components(&roots, &mut cameras);
    assert_eq!(w, Some(XrWarning::MissingSingleton));
    assert_eq!(cameras[0].root_transform.0.translation, v(4, 5, 6));
}

#[test]
fn extraction_copies_camera_state() {
    let mut cameras = vec![camera(Eye::Left)];
    cameras[0].transform = transform_at(v(1, 2, 3));
    let extracted = extract_views(&cameras);
    assert_eq!(extracted.len(), 1);
    assert_eq!(extracted[0].transform.translation, v(1, 2, 3));
    assert_eq!(extracted[0].camera, XrCamera(Eye::Left));
}

#[test]
fn render_sync_composes_root_and_pose() {
    let mut cameras = vec![camera(Eye::Left)];
    cameras[0].root_transform = RootTransform(transform_at(v(1000, 0, 0)));
    let mut extracted = extract_views(&cameras);
    let views = vec![sample(v(0, 0, 100), 1000)];
    xr_camera_head_sync_render_world(&views, &mut extracted);
    // identity rotations: the composition is a plain translation sum
    assert_eq!(extracted[0].transform.translation, v(1000, 0, 100));
    assert_eq!(extracted[0].transform.rotation, identity_quat());
}

#[test]
fn full_frame_pipeline_orders_stages() {
    let mut cameras = vec![camera(Eye::Left)];
    let early = vec![sample(v(1, 0, 0), 800)];
    let late = vec![sample(v(2, 0, 0), 900)];
    let render = vec![sample(v(3, 0, 0), 950)];
    let roots = vec![transform_at(v(500, 0, 0))];
    let extracted = run_camera_frame(&early, &late, &render, &roots, &mut cameras);
    // the scene-side camera holds the late sample, not the early one
    assert_eq!(cameras[0].transform.translation, v(2, 0, 0));
    assert_eq!(cameras[0].projection.fov.tan_right, 900);
    assert_eq!(cameras[0].root_transform.0.translation, v(500, 0, 0));
    // the render-side view composes the root with the freshest sample
    assert_eq!(extracted.len(), 1);
    assert_eq!(extracted[0].transform.translation, v(503, 0, 0));
    // projection was extracted before the render-side sync and is untouched
    assert_eq!(extracted[0].projection.fov.tan_right, 900);
}

#[test]
fn room_loop_decisions() {
    assert_eq!(room_frame_action(false, false), RoomAction::Wait);
    assert_eq!(room_frame_action(false, true), RoomAction::Wait);
    assert_eq!(room_frame_action(true, true), RoomAction::Poll);
    assert_eq!(room_frame_action(true, false), RoomAction::Request);
}

#[test]
fn room_loop_marker_transitions() {
    // a resolved poll drops the pending marker; a failed poll keeps it
    assert_eq!(room_step(Some(11), RoomEvent::PollOk), None);
    assert_eq!(room_step(Some(11), RoomEvent::PollErr), Some(11));
    // an accepted request sets the marker; a refused one leaves none
    assert_eq!(room_step(None, RoomEvent::RequestOk(42)), Some(42));
    assert_eq!(room_step(None, RoomEvent::RequestErr), None);
    assert_eq!(room_step(None, RoomEvent::NoSession), None);
}

#[test]
fn camera_pair_builder() {
    let pair = xr_core::camera::xr_camera_pair();
    assert_eq!(pair.len(), 2);
    assert_eq!(pair[0].camera, XrCamera(Eye::Left));
    assert_eq!(pair[1].camera, XrCamera(Eye::Right));
    assert_eq!(pair[0].projection.near, 100);
    assert_eq!(pair[0].transform.rotation, identity_quat());
    assert_eq!(pair[0].transform.translation, v(0, 0, 0));
}

#[test]
fn render_sync_with_rotated_root() {
    // root rotated a quarter turn about +Y: the eye pose one unit down -Z
    // lands one unit down -X in world space
    let quarter_y = Quat { x: 0, y: 707, z: 0, w: 707 };
    let mut cameras = vec![camera(Eye::Left)];
    cameras[0].root_transform =
        RootTransform(Transform { rotation: quarter_y, translation: v(0, 0, 0) });
    let mut extracted = extract_views(&cameras);
    let views = vec![sample(v(0, 0, -1000), 1000)];
    xr_camera_head_sync_render_world(&views, &mut extracted);
    assert_eq!(extracted[0].transform.translation, v(-1000, 0, 0));
}
