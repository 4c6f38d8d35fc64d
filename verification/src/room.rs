//! Decision logic of the room-layout query loop: issue an async request,
//! poll it once per frame until it resolves, then drop the pending-request
//! marker.  The host calls themselves are outside work; a frame driver
//! performs the action chosen here and feeds the outcome back.

use vstd::prelude::*;

verus! {

/// What the room-query loop should do this frame.
#[derive(Clone, Copy, PartialEq, Eq, Structural, Debug)]
pub enum RoomAction {
    /// No session yet: do nothing.
    Wait,
    /// A request is pending: poll it.
    Poll,
    /// No request is pending: issue one.
    Request,
}

/// What came back from the host this frame.
#[derive(Clone, Copy, PartialEq, Eq, Structural, Debug)]
pub enum RoomEvent {
    /// No session, so no call was made.
    NoSession,
    /// The poll resolved with a result.
    PollOk,
    /// The poll failed (or is still pending); the request is kept.
    PollErr,
    /// A new request was accepted under this id.
    RequestOk(u64),
    /// The request could not be issued.
    RequestErr,
}

/// Chooses the frame's action from the loop state.
pub fn room_frame_action(session_present: bool, has_pending: bool) -> (a: RoomAction)
    ensures
        a == (if !session_present {
            RoomAction::Wait
        } else if has_pending {
            RoomAction::Poll
        } else {
            RoomAction::Request
        }),
{
    if !session_present {
        RoomAction::Wait
    } else if has_pending {
        RoomAction::Poll
    } else {
        RoomAction::Request
    }
}

/// The pending-request marker after an outcome: a resolved poll drops it, a
/// failed poll keeps it, an accepted request sets it, everything else
/// leaves it alone.
pub open spec fn spec_room_step(pending: Option<u64>, event: RoomEvent) -> Option<u64> {
    match event {
        RoomEvent::NoSession => pending,
        RoomEvent::PollOk => None,
        RoomEvent::PollErr => pending,
        RoomEvent::RequestOk(id) => if pending is None {
            Some(id)
        } else {
            pending
        },
        RoomEvent::RequestErr => pending,
    }
}

/// Applies one frame's outcome to the pending-request marker.
pub fn room_step(pending: Option<u64>, event: RoomEvent) -> (next: Option<u64>)
    ensures
        next == spec_room_step(pending, event),
{
    match event {
        RoomEvent::NoSession => pending,
        RoomEvent::PollOk => None,
        RoomEvent::PollErr => pending,
        RoomEvent::RequestOk(id) => match pending {
            None => Some(id),
            Some(p) => Some(p),
        },
        RoomEvent::RequestErr => pending,
    }
}

} // verus!
