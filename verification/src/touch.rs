//! The registry of live touch points.

use crate::types::{Fixed, Surface, TouchId};
use std::collections::HashMap;
use vstd::prelude::*;

verus! {

broadcast use vstd::std_specs::hash::group_hash_axioms;

/// The state of one touch contact that is down.
#[derive(Clone, Copy, Debug, PartialEq, Eq)]
pub struct TouchPoint {
    /// The identifier of the contact.
    pub id: TouchId,
    /// The surface on which the contact went down; it receives the
    /// contact's motion and its release.
    pub surface: Surface,
    /// The surface that the contact is over now, if any.
    pub focus: Option<Surface>,
    /// The last known surface-local position.
    pub sx: Fixed,
    pub sy: Fixed,
    /// When the contact went down, in milliseconds.
    pub time: u32,
}

/// The live touch points of a seat, by identifier.
///
/// Its value is a map from the identifier's number to the point; every
/// point is stored under its own identifier.
pub struct TouchRegistry {
    points: HashMap<i32, TouchPoint>,
}

impl View for TouchRegistry {
    type V = Map<i32, TouchPoint>;

    closed spec fn view(&self) -> Map<i32, TouchPoint> {
        self.points@
    }
}

impl TouchRegistry {
    #[verifier::type_invariant]
    spec fn keyed_by_id(&self) -> bool {
        forall|k: i32| #[trigger] self.points@.contains_key(k) ==> self.points@[k].id.0 == k
    }

    /// A registry without points.
    pub fn new() -> (r: TouchRegistry)
        ensures
            r@ == Map::<i32, TouchPoint>::empty(),
    {
        TouchRegistry { points: HashMap::new() }
    }

    /// The number of live points.
    pub fn len(&self) -> (n: usize)
        ensures
            self@.dom().finite(),
            n == self@.len(),
    {
        self.points.len()
    }

    /// Whether a point with this identifier is live.
    pub fn contains(&self, id: TouchId) -> (b: bool)
        ensures
            b == self@.contains_key(id.0),
    {
        self.points.contains_key(&id.0)
    }

    /// The live point with this identifier, if there is one.
    pub fn get(&self, id: TouchId) -> (r: Option<TouchPoint>)
        ensures
            r == (if self@.contains_key(id.0) {
                Some(self@[id.0])
            } else {
                None
            }),
            r matches Some(p) ==> p.id == id,
    {
        proof {
            use_type_invariant(self);
        }
        match self.points.get(&id.0) {
            Some(p) => Some(*p),
            None => None,
        }
    }

    /// Stores `point` under its identifier, in place of any point that was
    /// stored there.
    pub fn insert(&mut self, point: TouchPoint)
        ensures
            final(self)@ == old(self)@.insert(point.id.0, point),
    {
        proof {
            use_type_invariant(&*self);
        }
        let mut points: HashMap<i32, TouchPoint> = HashMap::new();
        std::mem::swap(&mut self.points, &mut points);
        points.insert(point.id.0, point);
        std::mem::swap(&mut self.points, &mut points);
    }

    /// Removes the point with this identifier and returns it, if there was
    /// one.
    pub fn remove(&mut self, id: TouchId) -> (r: Option<TouchPoint>)
        ensures
            final(self)@ == old(self)@.remove(id.0),
            r == (if old(self)@.contains_key(id.0) {
                Some(old(self)@[id.0])
            } else {
                None
            }),
    {
        proof {
            use_type_invariant(&*self);
        }
        let mut points: HashMap<i32, TouchPoint> = HashMap::new();
        std::mem::swap(&mut self.points, &mut points);
        let removed = points.remove(&id.0);
        std::mem::swap(&mut self.points, &mut points);
        removed
    }
}

} // verus!
