//! What the controller sees of the physics engine: handles of rigid bodies,
//! their linear velocity, and the contact events of a simulation step.

use vstd::prelude::*;

verus! {

/// The linear velocity of a rigid body, in fixed-point units.
#[derive(Clone, Copy, Debug, PartialEq, Eq, Structural)]
pub struct Velocity {
    pub x: i64,
    pub y: i64,
}

/// The handle of a rigid body in the physics engine's table: a slot and the
/// generation of its occupant.
#[derive(Clone, Copy, Debug, PartialEq, Eq, Structural)]
pub struct BodyHandle {
    pub index: usize,
    pub generation: u64,
}

/// An event of the physics engine about two bodies.
#[derive(Clone, Copy, Debug, PartialEq, Eq, Structural)]
pub enum ContactEvent {
    /// The two bodies began to touch.
    Started(BodyHandle, BodyHandle),
    /// The two bodies ceased to touch.
    Stopped(BodyHandle, BodyHandle),
}

impl ContactEvent {
    /// The event reports that `body` began to touch something.
    pub open spec fn starts_contact_of(self, body: BodyHandle) -> bool {
        match self {
            ContactEvent::Started(first, second) => first == body || second == body,
            ContactEvent::Stopped(_, _) => false,
        }
    }

    /// Tells whether the event reports that `body` began to touch something.
    pub fn names_started(&self, body: BodyHandle) -> (named: bool)
        ensures
            named == self.starts_contact_of(body),
    {
        match self {
            ContactEvent::Started(first, second) => *first == body || *second == body,
            ContactEvent::Stopped(_, _) => false,
        }
    }
}

/// Some event of `events` reports that `body` began to touch something.
pub open spec fn contact_started(events: Seq<ContactEvent>, body: BodyHandle) -> bool {
    exists|k: int| 0 <= k < events.len() && (#[trigger] events[k]).starts_contact_of(body)
}

/// Tells whether some event of `events` reports that `body` began to touch
/// something.
pub fn has_contact_started(events: &Vec<ContactEvent>, body: BodyHandle) -> (started: bool)
    ensures
        started == contact_started(events@, body),
{
    let mut k: usize = 0;
    while k < events.len()
        invariant
            k <= events.len(),
            forall|j: int| 0 <= j < k ==> !(#[trigger] events@[j]).starts_contact_of(body),
        decreases events.len() - k,
    {
        if events[k].names_started(body) {
            return true;
        }
        k += 1;
    }
    false
}

} // verus!
