//! The interaction engine: per-frame hit detection over every
//! (interactor, interactable) pair, and the commit pass that applies the
//! queued selection events to authoritative interactable state.

use crate::geom::{
    ray_sphere_intersection, spec_ray_hit, spec_sphere_overlap, sphere_overlap,
};
use crate::math::{
    gv, spec_world_aim_dir, spec_world_aim_origin, transform_wf, vec_in_range, world_aim_ray,
    Transform, Vec3, POS_LIMIT,
};
use vstd::prelude::*;

verus! {

/// Interaction radius of every interactable: 0.1 length units, fixed.
pub const INTERACTION_RADIUS: i64 = 100;

/// State of a targetable object.
#[derive(Clone, Copy, PartialEq, Eq, Structural, Debug)]
pub enum XRInteractableState {
    Idle,
    Hover,
    Select,
}

impl Default for XRInteractableState {
    fn default() -> (r: Self)
        ensures
            r == XRInteractableState::Idle,
    {
        XRInteractableState::Idle
    }
}

/// State of an interacting agent, driven by an external input collaborator
/// and read-only to this engine.
#[derive(Clone, Copy, PartialEq, Eq, Structural, Debug)]
pub enum XRInteractorState {
    Idle,
    Selecting,
}

impl Default for XRInteractorState {
    fn default() -> (r: Self)
        ensures
            r == XRInteractorState::Idle,
    {
        XRInteractorState::Idle
    }
}

/// Marker for a proximity-driven interactor.
#[derive(Clone, Copy, Debug)]
pub struct XRDirectInteractor;

/// Marker for a ray-casting interactor.
#[derive(Clone, Copy, Debug)]
pub struct XRRayInteractor;

/// Marker for a targetable object.
#[derive(Clone, Copy, Debug)]
pub struct XRInteractable;

/// Transient selection message: produced by the detection pass, consumed
/// exactly once by the commit pass, then discarded.
#[derive(Clone, Copy, PartialEq, Eq, Structural, Debug)]
pub struct InteractionEvent {
    pub interactor: u64,
    pub interactable: u64,
    pub interactable_state: XRInteractableState,
}

/// A targetable object: entity id, world position, authoritative state.
#[derive(Clone, Copy, PartialEq, Eq, Structural, Debug)]
pub struct Interactable {
    pub entity: u64,
    pub position: Vec3,
    pub state: XRInteractableState,
}

/// An interacting agent.  `direct` and `ray` mirror the two marker
/// components an entity may carry (it may carry both); a ray interactor
/// aims along `aim`, a pose expressed relative to the tracking root.
#[derive(Clone, Copy, Debug)]
pub struct Interactor {
    pub entity: u64,
    pub state: XRInteractorState,
    pub direct: bool,
    pub ray: bool,
    pub position: Vec3,
    pub aim: Option<Transform>,
}

pub open spec fn interactor_wf(j: Interactor) -> bool {
    vec_in_range(j.position, POS_LIMIT as int) && match j.aim {
        Some(a) => transform_wf(a),
        None => true,
    }
}

/// A direct interactor hits when its position overlaps the interactable's
/// sphere.
pub open spec fn direct_hit(i: Interactable, j: Interactor) -> bool {
    j.direct && spec_sphere_overlap(gv(j.position), gv(i.position), INTERACTION_RADIUS as int)
}

/// A ray interactor hits when the tracking root is available, it has an aim
/// pose, and the aim ray carried into world space intersects the sphere.
pub open spec fn ray_hit(i: Interactable, j: Interactor, root: Option<Transform>) -> bool {
    j.ray && match (root, j.aim) {
        (Some(rt), Some(aim)) => spec_ray_hit(
            gv(i.position),
            INTERACTION_RADIUS as int,
            spec_world_aim_origin(rt, aim),
            spec_world_aim_dir(rt, aim),
        ),
        _ => false,
    }
}

/// An idle interactor that hits marks the interactable hovered this frame.
pub open spec fn pair_hover(i: Interactable, j: Interactor, root: Option<Transform>) -> bool {
    j.state == XRInteractorState::Idle && (direct_hit(i, j) || ray_hit(i, j, root))
}

pub open spec fn hovered(i: Interactable, js: Seq<Interactor>, root: Option<Transform>) -> bool {
    exists|k: int| 0 <= k < js.len() && pair_hover(i, #[trigger] js[k], root)
}

pub open spec fn select_event(i: Interactable, j: Interactor) -> InteractionEvent {
    InteractionEvent {
        interactor: j.entity,
        interactable: i.entity,
        interactable_state: XRInteractableState::Select,
    }
}

/// Events one interactor emits against one interactable: a selecting
/// interactor emits once per hitting variant, the direct test first.
pub open spec fn pair_events(i: Interactable, j: Interactor, root: Option<Transform>) -> Seq<
    InteractionEvent,
> {
    (if j.state == XRInteractorState::Selecting && direct_hit(i, j) {
        seq![select_event(i, j)]
    } else {
        seq![]
    }) + (if j.state == XRInteractorState::Selecting && ray_hit(i, j, root) {
        seq![select_event(i, j)]
    } else {
        seq![]
    })
}

pub open spec fn events_for_interactable_upto(
    i: Interactable,
    js: Seq<Interactor>,
    root: Option<Transform>,
    n: int,
) -> Seq<InteractionEvent>
    decreases n,
{
    if n <= 0 {
        seq![]
    } else {
        events_for_interactable_upto(i, js, root, n - 1) + pair_events(i, js[n - 1], root)
    }
}

pub open spec fn events_for_interactable(
    i: Interactable,
    js: Seq<Interactor>,
    root: Option<Transform>,
) -> Seq<InteractionEvent> {
    events_for_interactable_upto(i, js, root, js.len() as int)
}

pub open spec fn detection_events_upto(
    is: Seq<Interactable>,
    js: Seq<Interactor>,
    root: Option<Transform>,
    n: int,
) -> Seq<InteractionEvent>
    decreases n,
{
    if n <= 0 {
        seq![]
    } else {
        detection_events_upto(is, js, root, n - 1) + events_for_interactable(is[n - 1], js, root)
    }
}

/// All events one detection pass emits, in interactable-major order.
pub open spec fn detection_events(
    is: Seq<Interactable>,
    js: Seq<Interactor>,
    root: Option<Transform>,
) -> Seq<InteractionEvent> {
    detection_events_upto(is, js, root, is.len() as int)
}

/// The state the detection pass writes: Hover when any idle interactor hits
/// this frame, Idle otherwise — unconditionally overwriting the prior state.
pub open spec fn detect_state(
    i: Interactable,
    js: Seq<Interactor>,
    root: Option<Transform>,
) -> Interactable {
    Interactable {
        entity: i.entity,
        position: i.position,
        state: if hovered(i, js, root) {
            XRInteractableState::Hover
        } else {
            XRInteractableState::Idle
        },
    }
}

/// Detection pass.  For each interactable, every interactor is tested
/// (proximity for direct, root-relative aim ray for ray variants); idle
/// hitters mark it hovered, selecting hitters append an event; the
/// interactable's state is then rewritten to Hover or Idle in this same
/// pass.  `root` is the already-validated tracking root: `None` (absent or
/// duplicated root) skips ray detection only.
pub fn interactions(
    interactables: &mut Vec<Interactable>,
    interactors: &Vec<Interactor>,
    root: Option<Transform>,
    events: &mut Vec<InteractionEvent>,
)
    requires
        forall|k: int|
            0 <= k < old(interactables)@.len() ==> vec_in_range(
                #[trigger] old(interactables)@[k].position,
                POS_LIMIT as int,
            ),
        forall|k: int| 0 <= k < interactors@.len() ==> interactor_wf(#[trigger] interactors@[k]),
        match root {
            Some(rt) => transform_wf(rt),
            None => true,
        },
    ensures
        final(interactables)@.len() == old(interactables)@.len(),
        forall|k: int|
            0 <= k < final(interactables)@.len() ==> final(interactables)@[k] == detect_state(
                #[trigger] old(interactables)@[k],
                interactors@,
                root,
            ),
        final(events)@ == old(events)@ + detection_events(old(interactables)@, interactors@, root),
{
    let ghost is0 = interactables@;
    let ghost js = interactors@;
    let mut a: usize = 0;
    while a < interactables.len()
        invariant
            interactables@.len() == is0.len(),
            a <= is0.len(),
            forall|k: int|
                0 <= k < a ==> interactables@[k] == detect_state(#[trigger] is0[k], js, root),
            forall|k: int| a <= k < is0.len() ==> interactables@[k] == is0[k],
            forall|k: int| 0 <= k < is0.len() ==> vec_in_range(#[trigger] is0[k].position, POS_LIMIT as int),
            forall|k: int| 0 <= k < js.len() ==> interactor_wf(#[trigger] js[k]),
            match root {
                Some(rt) => transform_wf(rt),
                None => true,
            },
            js == interactors@,
            events@ == old(events)@ + detection_events_upto(is0, js, root, a as int),
        decreases is0.len() - a,
    {
        let it = interactables[a];
        let mut hov = false;
        let mut b: usize = 0;
        while b < interactors.len()
            invariant
                b <= js.len(),
                it == is0[a as int],
                a < is0.len(),
                vec_in_range(it.position, POS_LIMIT as int),
                forall|k: int| 0 <= k < js.len() ==> interactor_wf(#[trigger] js[k]),
                match root {
                    Some(rt) => transform_wf(rt),
                    None => true,
                },
                js == interactors@,
                hov == exists|k: int| 0 <= k < b && pair_hover(it, #[trigger] js[k], root),
                events@ == old(events)@ + detection_events_upto(is0, js, root, a as int)
                    + events_for_interactable_upto(it, js, root, b as int),
            decreases js.len() - b,
        {
            let ghost hov_before = hov;
            let ghost events_before = events@;
            let j = interactors[b];
            let mut direct_selected = false;
            let mut ray_selected = false;
            if j.direct {
                if sphere_overlap(&j.position, &it.position, INTERACTION_RADIUS) {
                    match j.state {
                        XRInteractorState::Idle => {
                            hov = true;
                        },
                        XRInteractorState::Selecting => {
                            events.push(
                                InteractionEvent {
                                    interactor: j.entity,
                                    interactable: it.entity,
                                    interactable_state: XRInteractableState::Select,
                                },
                            );
                            direct_selected = true;
                        },
                    }
                }
            }
            if j.ray {
                match root {
                    Some(rt) => {
                        match j.aim {
                            Some(aim) => {
                                let (origin, dir) = world_aim_ray(&rt, &aim);
                                if ray_sphere_intersection(
                                    &it.position,
                                    INTERACTION_RADIUS,
                                    &origin,
                                    &dir,
                                ) {
                                    match j.state {
                                        XRInteractorState::Idle => {
                                            hov = true;
                                        },
                                        XRInteractorState::Selecting => {
                                            events.push(
                                                InteractionEvent {
                                                    interactor: j.entity,
                                                    interactable: it.entity,
                                                    interactable_state: XRInteractableState::Select,
                                                },
                                            );
                                            ray_selected = true;
                                        },
                                    }
                                }
                            },
                            None => {},
                        }
                    },
                    None => {},
                }
            }
            proof {
                assert(j == js[b as int]);
                // the hover flag accumulates exactly the pair-hover relation
                assert(hov == (hov_before || pair_hover(it, js[b as int], root)));
                if hov {
                    if hov_before {
                        assert(exists|k: int| 0 <= k < b && pair_hover(it, #[trigger] js[k], root));
                    } else {
                        assert(pair_hover(it, js[b as int], root));
                    }
                    assert(exists|k: int| 0 <= k < b + 1 && pair_hover(it, #[trigger] js[k], root));
                } else {
                    assert(forall|k: int|
                        0 <= k < b + 1 ==> !pair_hover(it, #[trigger] js[k], root));
                }
                // the pushed events are exactly this pair's events, in order
                assert(direct_selected == (j.state == XRInteractorState::Selecting && direct_hit(
                    it,
                    j,
                )));
                assert(ray_selected == (j.state == XRInteractorState::Selecting && ray_hit(
                    it,
                    j,
                    root,
                )));
                assert(events@ =~= events_before + pair_events(it, js[b as int], root));
                assert(events@ =~= old(events)@ + detection_events_upto(is0, js, root, a as int)
                    + events_for_interactable_upto(it, js, root, b as int + 1));
            }
            b = b + 1;
        }
        let mut updated = it;
        if hov {
            updated.state = XRInteractableState::Hover;
        } else {
            updated.state = XRInteractableState::Idle;
        }
        interactables[a] = updated;
        proof {
            assert(hov == hovered(it, js, root));
            assert(updated == detect_state(is0[a as int], js, root));
            assert(events@ =~= old(events)@ + detection_events_upto(is0, js, root, a as int + 1));
        }
        a = a + 1;
    }
    proof {
        assert(events@ =~= old(events)@ + detection_events(is0, js, root));
    }
}

/// One committed event: every interactable the event references takes the
/// carried state; events referencing no present entity change nothing.
pub open spec fn apply_event(is: Seq<Interactable>, e: InteractionEvent) -> Seq<Interactable> {
    is.map(
        |k: int, it: Interactable|
            if it.entity == e.interactable {
                Interactable { entity: it.entity, position: it.position, state: e.interactable_state }
            } else {
                it
            },
    )
}

pub open spec fn apply_events_upto(
    is: Seq<Interactable>,
    es: Seq<InteractionEvent>,
    n: int,
) -> Seq<Interactable>
    decreases n,
{
    if n <= 0 {
        is
    } else {
        apply_event(apply_events_upto(is, es, n - 1), es[n - 1])
    }
}

/// The commit pass's effect: the events folded over the interactables in
/// emission order.
pub open spec fn apply_events(is: Seq<Interactable>, es: Seq<InteractionEvent>) -> Seq<
    Interactable,
> {
    apply_events_upto(is, es, es.len() as int)
}

proof fn lemma_pair_events_select(i: Interactable, j: Interactor, root: Option<Transform>)
    ensures
        forall|m: int|
            0 <= m < pair_events(i, j, root).len() ==> (#[trigger] pair_events(i, j, root)[m])
                == select_event(i, j),
{
}

proof fn lemma_events_for_interactable_select_upto(
    i: Interactable,
    js: Seq<Interactor>,
    root: Option<Transform>,
    n: int,
)
    requires
        0 <= n <= js.len(),
    ensures
        forall|m: int|
            0 <= m < events_for_interactable_upto(i, js, root, n).len() ==> (
            #[trigger] events_for_interactable_upto(i, js, root, n)[m]).interactable == i.entity
                && events_for_interactable_upto(i, js, root, n)[m].interactable_state
                == XRInteractableState::Select,
    decreases n,
{
    if n > 0 {
        lemma_events_for_interactable_select_upto(i, js, root, n - 1);
        lemma_pair_events_select(i, js[n - 1], root);
    }
}

/// Law: every event the detection pass emits is a selection event, and it
/// references the entity of the interactable it was emitted against.
pub proof fn lemma_detection_events_select(
    is: Seq<Interactable>,
    js: Seq<Interactor>,
    root: Option<Transform>,
    n: int,
)
    requires
        0 <= n <= is.len(),
    ensures
        forall|m: int|
            0 <= m < detection_events_upto(is, js, root, n).len() ==> (
            #[trigger] detection_events_upto(is, js, root, n)[m]).interactable_state
                == XRInteractableState::Select,
    decreases n,
{
    if n > 0 {
        lemma_detection_events_select(is, js, root, n - 1);
        lemma_events_for_interactable_select_upto(is[n - 1], js, root, js.len() as int);
    }
}

proof fn lemma_commit_preserves_identity_upto(
    is: Seq<Interactable>,
    es: Seq<InteractionEvent>,
    n: int,
)
    requires
        0 <= n <= es.len(),
    ensures
        apply_events_upto(is, es, n).len() == is.len(),
        forall|k: int|
            0 <= k < is.len() ==> (#[trigger] apply_events_upto(is, es, n)[k]).entity
                == is[k].entity && apply_events_upto(is, es, n)[k].position == is[k].position,
    decreases n,
{
    if n > 0 {
        lemma_commit_preserves_identity_upto(is, es, n - 1);
    }
}

/// Law: when every queued event is a selection event — as the detection
/// pass guarantees — an interactable that at least one event references
/// leaves the commit pass in the Select state, its identity and position
/// untouched.
pub proof fn lemma_commit_selects_referenced(
    is: Seq<Interactable>,
    es: Seq<InteractionEvent>,
    k: int,
)
    requires
        0 <= k < is.len(),
        forall|m: int|
            0 <= m < es.len() ==> (#[trigger] es[m]).interactable_state
                == XRInteractableState::Select,
        exists|m: int| 0 <= m < es.len() && (#[trigger] es[m]).interactable == is[k].entity,
    ensures
        apply_events(is, es).len() == is.len(),
        apply_events(is, es)[k].entity == is[k].entity,
        apply_events(is, es)[k].position == is[k].position,
        apply_events(is, es)[k].state == XRInteractableState::Select,
{
    lemma_commit_preserves_identity_upto(is, es, es.len() as int);
    let w = choose|m: int| 0 <= m < es.len() && (#[trigger] es[m]).interactable == is[k].entity;
    lemma_commit_selected_after(is, es, k, w);
}

/// After the event at index `w` references slot `k`, the slot's state is
/// Select from that point on: every later selection event either re-selects
/// it or leaves it alone.
proof fn lemma_commit_selected_after(
    is: Seq<Interactable>,
    es: Seq<InteractionEvent>,
    k: int,
    w: int,
)
    requires
        0 <= k < is.len(),
        0 <= w < es.len(),
        es[w].interactable == is[k].entity,
        forall|m: int|
            0 <= m < es.len() ==> (#[trigger] es[m]).interactable_state
                == XRInteractableState::Select,
    ensures
        forall|n: int|
            w < n <= es.len() ==> (#[trigger] apply_events_upto(is, es, n)[k]).state
                == XRInteractableState::Select,
    decreases es.len(),
{
    lemma_commit_preserves_identity_upto(is, es, w);
    assert forall|n: int| w < n <= es.len() implies (#[trigger] apply_events_upto(
        is,
        es,
        n,
    )[k]).state == XRInteractableState::Select by {
        lemma_commit_select_step(is, es, k, w, n);
    }
}

proof fn lemma_commit_select_step(
    is: Seq<Interactable>,
    es: Seq<InteractionEvent>,
    k: int,
    w: int,
    n: int,
)
    requires
        0 <= k < is.len(),
        0 <= w < n <= es.len(),
        es[w].interactable == is[k].entity,
        forall|m: int|
            0 <= m < es.len() ==> (#[trigger] es[m]).interactable_state
                == XRInteractableState::Select,
    ensures
        apply_events_upto(is, es, n)[k].state == XRInteractableState::Select,
    decreases n,
{
    lemma_commit_preserves_identity_upto(is, es, n - 1);
    if n - 1 == w {
        // this is the referencing event: it sets Select
    } else {
        lemma_commit_select_step(is, es, k, w, n - 1);
        // the slot already holds Select; the event either re-selects it or
        // leaves it unchanged
    }
}

proof fn lemma_commit_skips_unreferenced_upto(
    is: Seq<Interactable>,
    es: Seq<InteractionEvent>,
    k: int,
    n: int,
)
    requires
        0 <= k < is.len(),
        0 <= n <= es.len(),
        forall|m: int| 0 <= m < n ==> (#[trigger] es[m]).interactable != is[k].entity,
    ensures
        apply_events_upto(is, es, n).len() == is.len(),
        apply_events_upto(is, es, n)[k] == is[k],
    decreases n,
{
    if n > 0 {
        lemma_commit_skips_unreferenced_upto(is, es, k, n - 1);
    }
}

/// Law: the commit pass touches only referenced interactables — one whose
/// entity no event mentions comes out of the pass exactly as it went in.
pub proof fn lemma_commit_skips_unreferenced(
    is: Seq<Interactable>,
    es: Seq<InteractionEvent>,
    k: int,
)
    requires
        0 <= k < is.len(),
        forall|m: int| 0 <= m < es.len() ==> (#[trigger] es[m]).interactable != is[k].entity,
    ensures
        apply_events(is, es).len() == is.len(),
        apply_events(is, es)[k] == is[k],
{
    lemma_commit_skips_unreferenced_upto(is, es, k, es.len() as int);
}

/// Commit pass.  Consumes the detection pass's events in order and
/// overwrites each referenced interactable's state with the carried state;
/// an event whose interactable no longer exists is silently dropped.
pub fn update_interactable_states(
    events: &Vec<InteractionEvent>,
    interactables: &mut Vec<Interactable>,
)
    ensures
        final(interactables)@ == apply_events(old(interactables)@, events@),
{
    let ghost is0 = interactables@;
    let ghost es = events@;
    let mut i: usize = 0;
    while i < events.len()
        invariant
            i <= es.len(),
            es == events@,
            interactables@ == apply_events_upto(is0, es, i as int),
        decreases es.len() - i,
    {
        let e = events[i];
        let ghost snap = interactables@;
        let mut k: usize = 0;
        while k < interactables.len()
            invariant
                k <= snap.len(),
                interactables@.len() == snap.len(),
                e == es[i as int],
                i < es.len(),
                forall|m: int| 0 <= m < k ==> interactables@[m] == apply_event(snap, e)[m],
                forall|m: int| k <= m < snap.len() ==> interactables@[m] == snap[m],
            decreases snap.len() - k,
        {
            if interactables[k].entity == e.interactable {
                let mut updated = interactables[k];
                updated.state = e.interactable_state;
                interactables[k] = updated;
            }
            k = k + 1;
        }
        proof {
            assert(interactables@ =~= apply_event(snap, e));
            assert(interactables@ =~= apply_events_upto(is0, es, i as int + 1));
        }
        i = i + 1;
    }
}

} // verus!
