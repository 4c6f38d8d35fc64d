//! Head/camera synchronization pipeline: early and late sync of tracked
//! view samples into camera state, root-transform replication, render-side
//! extraction, and the render-side re-sync that composes the freshest eye
//! pose with the replicated root transform.

use crate::math::{identity_transform, mul_transform, spec_mul_transform, transform_wf, Transform};
use crate::proj::{Fov, XRProjection};
use vstd::prelude::*;

verus! {

/// Left or right eye; its ordinal indexes the per-frame view array.
#[derive(Clone, Copy, PartialEq, Eq, Structural, Debug, PartialOrd, Ord, Hash)]
pub enum Eye {
    Left,
    Right,
}

pub open spec fn spec_eye_index(e: Eye) -> int {
    match e {
        Eye::Left => 0,
        Eye::Right => 1,
    }
}

pub fn eye_index(e: Eye) -> (r: usize)
    ensures
        r == spec_eye_index(e),
{
    match e {
        Eye::Left => 0,
        Eye::Right => 1,
    }
}

/// Which eye a camera renders.
#[derive(Clone, Copy, PartialEq, Eq, Structural, Debug, PartialOrd, Ord, Hash)]
pub struct XrCamera(pub Eye);

/// A cached copy of the tracking root's world transform, attached to every
/// camera so a render-side representation with no access to the live scene
/// graph can still read it.
#[derive(Clone, Copy, PartialEq, Eq, Structural, Debug)]
pub struct RootTransform(pub Transform);

/// One eye's tracked sample for a frame: pose and field of view.
#[derive(Clone, Copy, PartialEq, Eq, Structural, Debug)]
pub struct EyeView {
    pub pose: Transform,
    pub fov: Fov,
}

/// Scene-side camera state the sync passes read and write.
#[derive(Clone, Copy, PartialEq, Eq, Structural, Debug)]
pub struct XrCameraData {
    pub camera: XrCamera,
    pub transform: Transform,
    pub projection: XRProjection,
    pub root_transform: RootTransform,
}

/// Render-side snapshot of one camera, a distinct type so the two
/// representations can never alias.
#[derive(Clone, Copy, PartialEq, Eq, Structural, Debug)]
pub struct ExtractedXrView {
    pub camera: XrCamera,
    pub transform: Transform,
    pub projection: XRProjection,
    pub root_transform: RootTransform,
}

/// The state a camera is spawned with, before any sync pass has run.
pub open spec fn initial_camera(eye: Eye) -> XrCameraData {
    XrCameraData {
        camera: XrCamera(eye),
        transform: identity_transform(),
        projection: XRProjection {
            near: 100,
            far: 1_000_000,
            fov: Fov { tan_left: 0, tan_right: 0, tan_up: 0, tan_down: 0 },
        },
        root_transform: RootTransform(identity_transform()),
    }
}

impl XrCameraData {
    /// A fresh camera for one eye: identity pose, default projection, and
    /// an identity root cache until the first replication pass.
    pub fn new(eye: Eye) -> (r: Self)
        ensures
            r == initial_camera(eye),
    {
        XrCameraData {
            camera: XrCamera(eye),
            transform: Transform::identity(),
            projection: XRProjection::default(),
            root_transform: RootTransform(Transform::identity()),
        }
    }
}

/// The camera pair a session renders through, left then right.
pub fn xr_camera_pair() -> (r: Vec<XrCameraData>)
    ensures
        r@.len() == 2,
        r@[0] == initial_camera(Eye::Left),
        r@[1] == initial_camera(Eye::Right),
{
    let mut r: Vec<XrCameraData> = Vec::new();
    r.push(XrCameraData::new(Eye::Left));
    r.push(XrCameraData::new(Eye::Right));
    r
}

/// Non-fatal per-frame conditions: the affected unit of work is skipped
/// and the next frame re-attempts naturally.  A missing or duplicated
/// tracking root is reported by [`single_root`]; a missing view sample and
/// an event against a despawned interactable are absorbed silently by the
/// passes themselves, and these variants name them for callers that log.
#[derive(Clone, Copy, PartialEq, Eq, Structural, Debug)]
pub enum XrWarning {
    MissingSingleton,
    MissingSample,
    StaleEntity,
}

/// Validates the exactly-one tracking-root invariant, once per frame.
pub fn single_root(roots: &Vec<Transform>) -> (r: Result<Transform, XrWarning>)
    ensures
        roots@.len() == 1 ==> r == Ok::<Transform, XrWarning>(roots@[0]),
        roots@.len() != 1 ==> r == Err::<Transform, XrWarning>(XrWarning::MissingSingleton),
{
    if roots.len() == 1 {
        Ok(roots[0])
    } else {
        Err(XrWarning::MissingSingleton)
    }
}

/// One camera after a head sync: the eye's sample pose becomes the camera
/// transform and its field of view the projection's; a missing sample for
/// the eye leaves the camera untouched for the frame.
pub open spec fn head_synced(views: Seq<EyeView>, c: XrCameraData) -> XrCameraData {
    if spec_eye_index(c.camera.0) < views.len() {
        XrCameraData {
            camera: c.camera,
            transform: views[spec_eye_index(c.camera.0)].pose,
            projection: XRProjection {
                near: c.projection.near,
                far: c.projection.far,
                fov: views[spec_eye_index(c.camera.0)].fov,
            },
            root_transform: c.root_transform,
        }
    } else {
        c
    }
}

pub open spec fn spec_head_sync(views: Seq<EyeView>, cams: Seq<XrCameraData>) -> Seq<XrCameraData> {
    cams.map(|k: int, c: XrCameraData| head_synced(views, c))
}

/// Early and late sync pass: copies each present view sample into the
/// matching eye camera; run once before transform propagation and once just
/// before its commit point to use the freshest available sample.
pub fn xr_camera_head_sync(views: &Vec<EyeView>, cameras: &mut Vec<XrCameraData>)
    ensures
        final(cameras)@ == spec_head_sync(views@, old(cameras)@),
{
    let ghost cs0 = cameras@;
    let mut k: usize = 0;
    while k < cameras.len()
        invariant
            cameras@.len() == cs0.len(),
            k <= cs0.len(),
            forall|m: int| 0 <= m < k ==> cameras@[m] == head_synced(views@, #[trigger] cs0[m]),
            forall|m: int| k <= m < cs0.len() ==> cameras@[m] == cs0[m],
        decreases cs0.len() - k,
    {
        let idx = eye_index(cameras[k].camera.0);
        if idx < views.len() {
            let v = views[idx];
            let mut c = cameras[k];
            c.transform = v.pose;
            c.projection.fov = v.fov;
            cameras[k] = c;
        }
        k = k + 1;
    }
    proof {
        assert(cameras@ =~= spec_head_sync(views@, cs0));
    }
}

/// The replication pass's effect: with exactly one root its transform fills
/// every cache; otherwise every cache retains its prior value.
pub open spec fn spec_replicate_root(roots: Seq<Transform>, cams: Seq<XrCameraData>) -> Seq<
    XrCameraData,
> {
    if roots.len() == 1 {
        cams.map(
            |k: int, c: XrCameraData|
                XrCameraData {
                    camera: c.camera,
                    transform: c.transform,
                    projection: c.projection,
                    root_transform: RootTransform(roots[0]),
                },
        )
    } else {
        cams
    }
}

/// Root-transform replication, run after transform propagation: snapshots
/// the tracking root into every camera's cache.  With zero or more than one
/// root present the caches retain their prior values across the frame and a
/// warning is reported instead.
pub fn update_root_transform_components(
    roots: &Vec<Transform>,
    cameras: &mut Vec<XrCameraData>,
) -> (w: Option<XrWarning>)
    ensures
        final(cameras)@ == spec_replicate_root(roots@, old(cameras)@),
        w == if roots@.len() != 1 {
            Some(XrWarning::MissingSingleton)
        } else {
            None::<XrWarning>
        },
{
    let root = match single_root(roots) {
        Ok(rt) => rt,
        Err(warning) => {
            return Some(warning);
        },
    };
    let ghost cs0 = cameras@;
    let mut k: usize = 0;
    while k < cameras.len()
        invariant
            roots@.len() == 1,
            root == roots@[0],
            cameras@.len() == cs0.len(),
            k <= cs0.len(),
            forall|m: int|
                0 <= m < k ==> cameras@[m] == spec_replicate_root(roots@, cs0)[m],
            forall|m: int| k <= m < cs0.len() ==> cameras@[m] == cs0[m],
        decreases cs0.len() - k,
    {
        let mut c = cameras[k];
        c.root_transform = RootTransform(root);
        cameras[k] = c;
        k = k + 1;
    }
    proof {
        assert(cameras@ =~= spec_replicate_root(roots@, cs0));
    }
    None
}

/// The extraction step: a one-way copy of each camera into its render-side
/// snapshot.
pub open spec fn spec_extract(cams: Seq<XrCameraData>) -> Seq<ExtractedXrView> {
    cams.map(
        |k: int, c: XrCameraData|
            ExtractedXrView {
                camera: c.camera,
                transform: c.transform,
                projection: c.projection,
                root_transform: c.root_transform,
            },
    )
}

pub fn extract_views(cameras: &Vec<XrCameraData>) -> (r: Vec<ExtractedXrView>)
    ensures
        r@ == spec_extract(cameras@),
{
    let mut r: Vec<ExtractedXrView> = Vec::new();
    let mut k: usize = 0;
    while k < cameras.len()
        invariant
            k <= cameras@.len(),
            r@.len() == k,
            forall|m: int| 0 <= m < k ==> r@[m] == spec_extract(cameras@)[m],
        decreases cameras@.len() - k,
    {
        let c = cameras[k];
        r.push(
            ExtractedXrView {
                camera: c.camera,
                transform: c.transform,
                projection: c.projection,
                root_transform: c.root_transform,
            },
        );
        k = k + 1;
    }
    proof {
        assert(r@ =~= spec_extract(cameras@));
    }
    r
}

/// One render-side view after the final sync: the freshest eye pose
/// composed onto the replicated root transform; projection untouched.
pub open spec fn render_synced(views: Seq<EyeView>, e: ExtractedXrView) -> ExtractedXrView {
    if spec_eye_index(e.camera.0) < views.len() {
        ExtractedXrView {
            camera: e.camera,
            transform: spec_mul_transform(
                e.root_transform.0,
                views[spec_eye_index(e.camera.0)].pose,
            ),
            projection: e.projection,
            root_transform: e.root_transform,
        }
    } else {
        e
    }
}

pub open spec fn spec_render_sync(views: Seq<EyeView>, es: Seq<ExtractedXrView>) -> Seq<
    ExtractedXrView,
> {
    es.map(|k: int, e: ExtractedXrView| render_synced(views, e))
}

/// Render-side sync, the last pass before submission: recomputes each
/// view's final transform as `root o eye pose` from the freshest sample;
/// views whose eye has no sample this frame are left as extracted.
pub fn xr_camera_head_sync_render_world(views: &Vec<EyeView>, extracted: &mut Vec<ExtractedXrView>)
    requires
        forall|k: int| 0 <= k < views@.len() ==> transform_wf(#[trigger] views@[k].pose),
        forall|k: int|
            0 <= k < old(extracted)@.len() ==> transform_wf(
                #[trigger] old(extracted)@[k].root_transform.0,
            ),
    ensures
        final(extracted)@ == spec_render_sync(views@, old(extracted)@),
{
    let ghost es0 = extracted@;
    let mut k: usize = 0;
    while k < extracted.len()
        invariant
            extracted@.len() == es0.len(),
            k <= es0.len(),
            forall|m: int| 0 <= m < views@.len() ==> transform_wf(#[trigger] views@[m].pose),
            forall|m: int|
                0 <= m < es0.len() ==> transform_wf(#[trigger] es0[m].root_transform.0),
            forall|m: int| 0 <= m < k ==> extracted@[m] == render_synced(views@, #[trigger] es0[m]),
            forall|m: int| k <= m < es0.len() ==> extracted@[m] == es0[m],
        decreases es0.len() - k,
    {
        let idx = eye_index(extracted[k].camera.0);
        if idx < views.len() {
            let v = views[idx];
            let mut e = extracted[k];
            proof {
                assert(e == es0[k as int]);
                assert(transform_wf(es0[k as int].root_transform.0));
            }
            e.transform = mul_transform(&e.root_transform.0, &v.pose);
            extracted[k] = e;
        }
        k = k + 1;
    }
    proof {
        assert(extracted@ =~= spec_render_sync(views@, es0));
    }
}

/// One frame of the camera pipeline in its fixed stage order: early sync,
/// then (after the external transform propagation) late sync with a
/// possibly fresher sample, root-transform replication, render-side
/// extraction, and the render-side sync with the freshest sample of all.
/// The externally owned stages — transform propagation and frustum update —
/// sit between these and touch none of this state.
pub fn run_camera_frame(
    early_views: &Vec<EyeView>,
    late_views: &Vec<EyeView>,
    render_views: &Vec<EyeView>,
    roots: &Vec<Transform>,
    cameras: &mut Vec<XrCameraData>,
) -> (extracted: Vec<ExtractedXrView>)
    requires
        forall|k: int| 0 <= k < render_views@.len() ==> transform_wf(#[trigger] render_views@[k].pose),
        forall|k: int| 0 <= k < roots@.len() ==> transform_wf(#[trigger] roots@[k]),
        forall|k: int|
            0 <= k < old(cameras)@.len() ==> transform_wf(
                #[trigger] old(cameras)@[k].root_transform.0,
            ),
    ensures
        final(cameras)@ == spec_replicate_root(
            roots@,
            spec_head_sync(late_views@, spec_head_sync(early_views@, old(cameras)@)),
        ),
        extracted@ == spec_render_sync(render_views@, spec_extract(final(cameras)@)),
{
    let ghost cs0 = cameras@;
    xr_camera_head_sync(early_views, cameras);
    xr_camera_head_sync(late_views, cameras);
    proof {
        assert(forall|k: int|
            0 <= k < cameras@.len() ==> #[trigger] cameras@[k].root_transform
                == cs0[k].root_transform);
    }
    update_root_transform_components(roots, cameras);
    proof {
        assert(forall|k: int|
            0 <= k < cameras@.len() ==> transform_wf(#[trigger] cameras@[k].root_transform.0));
    }
    let mut ex = extract_views(cameras);
    proof {
        assert(forall|k: int|
            0 <= k < ex@.len() ==> transform_wf(#[trigger] ex@[k].root_transform.0));
    }
    xr_camera_head_sync_render_world(render_views, &mut ex);
    ex
}

} // verus!
