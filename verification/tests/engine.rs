use xr_core::interaction::{
    interactions, update_interactable_states, Interactable, InteractionEvent, Interactor,
    XRInteractableState, XRInteractorState,
};
use xr_core::math::{Quat, Transform, Vec3};

fn v(x: i64, y: i64, z: i64) -> Vec3 {
    Vec3 { x, y, z }
}

fn identity() -> Transform {
    Transform { rotation: Quat { x: 0, y: 0, z: 0, w: 1000 }, translation: v(0, 0, 0) }
}

fn interactable_at(entity: u64, p: Vec3) -> Interactable {
    Interactable { entity, position: p, state: XRInteractableState::Idle }
}

fn direct_interactor(entity: u64, p: Vec3, state: XRInteractorState) -> Interactor {
    Interactor { entity, state, direct: true, ray: false, position: p, aim: None }
}

fn ray_interactor(entity: u64, state: XRInteractorState, aim: Transform) -> Interactor {
    Interactor { entity, state, direct: false, ray: true, position: v(0, 0, 0), aim: Some(aim) }
}

#[test]
fn idle_direct_interactor_within_threshold_hovers() {
    // interactable at the origin, direct interactor 0.05 away, idle
    let mut interactables = vec![interactable_at(1, v(0, 0, 0))];
    let interactors = vec![direct_interactor(2, v(50, 0, 0), XRInteractorState::Idle)];
    let mut events: Vec<InteractionEvent> = Vec::new();
    interactions(&mut interactables, &interactors, None, &mut events);
    assert_eq!(interactables[0].state, XRInteractableState::Hover);
    assert!(events.is_empty());
}

#[test]
fn selecting_direct_interactor_emits_and_commit_selects() {
    // same setup but the interactor is selecting
    let mut interactables = vec![interactable_at(1, v(0, 0, 0))];
    let interactors = vec![direct_interactor(2, v(50, 0, 0), XRInteractorState::Selecting)];
    let mut events: Vec<InteractionEvent> = Vec::new();
    interactions(&mut interactables, &interactors, None, &mut events);
    // the detection pass rewrote the state to Idle (no idle hitter) and
    // queued exactly one Select event
    assert_eq!(interactables[0].state, XRInteractableState::Idle);
    assert_eq!(events.len(), 1);
    assert_eq!(events[0].interactor, 2);
    assert_eq!(events[0].interactable, 1);
    assert_eq!(events[0].interactable_state, XRInteractableState::Select);
    update_interactable_states(&events, &mut interactables);
    assert_eq!(interactables[0].state, XRInteractableState::Select);

    // next frame, still overlapping and still selecting: Select is emitted
    // again after detection rewrites the state
    let mut events2: Vec<InteractionEvent> = Vec::new();
    interactions(&mut interactables, &interactors, None, &mut events2);
    assert_eq!(interactables[0].state, XRInteractableState::Idle);
    assert_eq!(events2.len(), 1);
    update_interactable_states(&events2, &mut interactables);
    assert_eq!(interactables[0].state, XRInteractableState::Select);

    // but if the interactor goes idle first, detection writes Hover and no
    // event exists, so Select is never visible that frame
    let idle = vec![direct_interactor(2, v(50, 0, 0), XRInteractorState::Idle)];
    let mut events3: Vec<InteractionEvent> = Vec::new();
    interactions(&mut interactables, &idle, None, &mut events3);
    assert_eq!(interactables[0].state, XRInteractableState::Hover);
    assert!(events3.is_empty());
    update_interactable_states(&events3, &mut interactables);
    assert_eq!(interactables[0].state, XRInteractableState::Hover);
}

#[test]
fn stale_event_is_silently_dropped() {
    let mut interactables = vec![interactable_at(1, v(0, 0, 0))];
    let events = vec![InteractionEvent {
        interactor: 2,
        interactable: 99,
        interactable_state: XRInteractableState::Select,
    }];
    update_interactable_states(&events, &mut interactables);
    assert_eq!(interactables[0].state, XRInteractableState::Idle);
}

#[test]
fn ray_interactor_hits_through_root() {
    // identity root; aim pose at the origin looking down -Z; interactable
    // two units ahead on the ray
    let mut interactables = vec![interactable_at(7, v(0, 0, -2000))];
    let interactors = vec![ray_interactor(3, XRInteractorState::Idle, identity())];
    let mut events: Vec<InteractionEvent> = Vec::new();
    interactions(&mut interactables, &interactors, Some(identity()), &mut events);
    assert_eq!(interactables[0].state, XRInteractableState::Hover);
    assert!(events.is_empty());
}

#[test]
fn ray_detection_skipped_without_root() {
    // no validated tracking root: ray detection is skipped for the frame
    let mut interactables = vec![interactable_at(7, v(0, 0, -2000))];
    let interactors = vec![ray_interactor(3, XRInteractorState::Idle, identity())];
    let mut events: Vec<InteractionEvent> = Vec::new();
    interactions(&mut interactables, &interactors, None, &mut events);
    assert_eq!(interactables[0].state, XRInteractableState::Idle);
    assert!(events.is_empty());
}

#[test]
fn direct_detection_proceeds_without_root() {
    // direct detection does not depend on the tracking root
    let mut interactables = vec![interactable_at(1, v(0, 0, 0))];
    let interactors = vec![direct_interactor(2, v(50, 0, 0), XRInteractorState::Idle)];
    let mut events: Vec<InteractionEvent> = Vec::new();
    interactions(&mut interactables, &interactors, None, &mut events);
    assert_eq!(interactables[0].state, XRInteractableState::Hover);
}

#[test]
fn selecting_ray_interactor_emits_event() {
    let mut interactables = vec![interactable_at(7, v(0, 0, -2000))];
    let interactors = vec![ray_interactor(3, XRInteractorState::Selecting, identity())];
    let mut events: Vec<InteractionEvent> = Vec::new();
    interactions(&mut interactables, &interactors, Some(identity()), &mut events);
    assert_eq!(events.len(), 1);
    assert_eq!(events[0].interactor, 3);
    assert_eq!(events[0].interactable, 7);
    assert_eq!(events[0].interactable_state, XRInteractableState::Select);
}

#[test]
fn far_direct_interactor_leaves_idle() {
    let mut interactables = vec![interactable_at(1, v(0, 0, 0))];
    let interactors = vec![direct_interactor(2, v(5000, 0, 0), XRInteractorState::Idle)];
    let mut events: Vec<InteractionEvent> = Vec::new();
    interactions(&mut interactables, &interactors, None, &mut events);
    assert_eq!(interactables[0].state, XRInteractableState::Idle);
}

#[test]
fn default_states_are_idle() {
    assert_eq!(XRInteractableState::default(), XRInteractableState::Idle);
    assert_eq!(XRInteractorState::default(), XRInteractorState::Idle);
}

#[test]
fn all_overlapping_interactables_receive_events() {
    // no nearest-candidate tie-break: every hit interactable gets its event
    let mut interactables = vec![
        interactable_at(1, v(0, 0, -2000)),
        interactable_at(2, v(0, 0, -3000)),
    ];
    let interactors = vec![ray_interactor(3, XRInteractorState::Selecting, identity())];
    let mut events: Vec<InteractionEvent> = Vec::new();
    interactions(&mut interactables, &interactors, Some(identity()), &mut events);
    assert_eq!(events.len(), 2);
    assert_eq!(events[0].interactable, 1);
    assert_eq!(events[1].interactable, 2);
}

#[test]
fn rotated_aim_pose_redirects_ray() {
    // aim rotated 90 degrees about +Y: forward -Z becomes -X, so an
    // interactable on -X is hit and one on -Z is not
    let quarter_y = Quat { x: 0, y: 707, z: 0, w: 707 };
    let aim = Transform { rotation: quarter_y, translation: v(0, 0, 0) };
    let mut interactables = vec![
        interactable_at(1, v(-3000, 0, 0)),
        interactable_at(2, v(0, 0, -3000)),
    ];
    let interactors = vec![ray_interactor(3, XRInteractorState::Idle, aim)];
    let mut events: Vec<InteractionEvent> = Vec::new();
    interactions(&mut interactables, &interactors, Some(identity()), &mut events);
    assert_eq!(interactables[0].state, XRInteractableState::Hover);
    assert_eq!(interactables[1].state, XRInteractableState::Idle);
}

#[test]
fn root_transform_carries_aim_ray() {
    // identity aim, but the root is translated two units up: the world ray
    // starts at the root, so only the raised interactable is hit
    let root = Transform { rotation: Quat { x: 0, y: 0, z: 0, w: 1000 }, translation: v(0, 2000, 0) };
    let mut interactables = vec![
        interactable_at(1, v(0, 2000, -3000)),
        interactable_at(2, v(0, 0, -3000)),
    ];
    let interactors = vec![ray_interactor(3, XRInteractorState::Idle, identity())];
    let mut events: Vec<InteractionEvent> = Vec::new();
    interactions(&mut interactables, &interactors, Some(root), &mut events);
    assert_eq!(interactables[0].state, XRInteractableState::Hover);
    assert_eq!(interactables[1].state, XRInteractableState::Idle);
}
