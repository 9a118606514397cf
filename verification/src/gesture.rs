//! The pan-gesture tracker: holds the pointer-down origin in local SVG
//! coordinates while a pointer is down, and nothing otherwise. The origin
//! is not updated on pointer moves, so each move's delta is taken relative
//! to where the gesture began (an integrating drag).

use crate::viewport::Pan;
use vstd::prelude::*;

verus! {

/// A point in local SVG coordinates.
pub type LocalPoint = (i64, i64);

/// Tracks whether a pan gesture is active, and from where it started.
#[derive(Clone, Copy, PartialEq, Eq)]
pub struct GestureTracker {
    pub origin: Option<LocalPoint>,
}

impl GestureTracker {
    /// Starts idle: no gesture in progress.
    pub fn new() -> (t: Self)
        ensures
            t.origin is None,
    {
        GestureTracker { origin: None }
    }

    /// Pointer down: the gesture becomes active with the given origin.
    pub fn pointer_down(&mut self, p: LocalPoint)
        ensures
            final(self).origin == Some(p),
    {
        self.origin = Some(p);
    }

    /// Pointer up: the gesture ends; the origin is cleared.
    pub fn pointer_up(&mut self)
        ensures
            final(self).origin is None,
    {
        self.origin = None;
    }

    /// The pan delta for a pointer move to `current`: `origin - current`
    /// while a gesture is active, nothing otherwise. The origin itself is
    /// left unchanged.
    pub fn pan_delta(&self, current: LocalPoint) -> (r: Option<Pan>)
        requires
            (self.origin matches Some(o) ==> i64::MIN <= o.0 - current.0 <= i64::MAX && i64::MIN
                <= o.1 - current.1 <= i64::MAX),
        ensures
            (self.origin matches Some(o) ==> r == Some(
                ((o.0 - current.0) as i64, (o.1 - current.1) as i64),
            )),
            self.origin is None ==> r is None,
    {
        match self.origin {
            Some(o) => Some((o.0 - current.0, o.1 - current.1)),
            None => None,
        }
    }
}

} // verus!
