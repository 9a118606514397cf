//! The viewer as a whole: a viewport center and a gesture tracker, driven by
//! pointer events. Each handler's contract ties it to a pure step function
//! over the mathematical state `((center x, center y), optional origin)`,
//! and the laws about event sequences are proved over those step functions.

use crate::gesture::GestureTracker;
use crate::gesture::LocalPoint;
use crate::viewport::ViewBoxCenter;
use vstd::prelude::*;

verus! {

/// The mathematical state of the viewer: the center of the view box and,
/// while a gesture is active, its origin.
pub type ViewerModel = ((int, int), Option<(int, int)>);

/// Pointer down at `p`: the gesture becomes active with origin `p`; the
/// center does not move.
pub open spec fn step_down(s: ViewerModel, p: (int, int)) -> ViewerModel {
    (s.0, Some(p))
}

/// Pointer move to `p`: while a gesture is active the center is translated
/// by `origin - p`, and the origin is kept (the delta of every move is
/// relative to where the gesture began); otherwise nothing changes.
pub open spec fn step_move(s: ViewerModel, p: (int, int)) -> ViewerModel {
    match s.1 {
        Some(o) => (((s.0).0 + (o.0 - p.0), (s.0).1 + (o.1 - p.1)), s.1),
        None => s,
    }
}

/// Pointer up: the gesture ends; the center does not move.
pub open spec fn step_up(s: ViewerModel) -> ViewerModel {
    (s.0, None)
}

/// A pannable view of a fixed 100x100 view box: one viewport center and one
/// gesture tracker.
#[derive(Clone, Copy, PartialEq, Eq)]
pub struct PanViewer {
    pub center: ViewBoxCenter,
    pub gesture: GestureTracker,
}

impl PanViewer {
    /// The mathematical state this viewer stands for.
    pub open spec fn model(self) -> ViewerModel {
        (
            (self.center.x as int, self.center.y as int),
            match self.gesture.origin {
                Some(o) => Some((o.0 as int, o.1 as int)),
                None => None,
            },
        )
    }

    /// Starts with the center at (50, 50) and no gesture in progress.
    pub fn new() -> (v: Self)
        ensures
            v.model() == (((50int, 50int), None::<(int, int)>)),
    {
        PanViewer { center: ViewBoxCenter { x: 50, y: 50 }, gesture: GestureTracker::new() }
    }

    /// Handles pointer down at local point `p`.
    pub fn on_pointer_down(&mut self, p: LocalPoint)
        ensures
            final(self).model() == step_down(old(self).model(), (p.0 as int, p.1 as int)),
    {
        self.gesture.pointer_down(p);
    }

    /// Handles a pointer move to local point `p`.
    pub fn on_pointer_move(&mut self, p: LocalPoint)
        requires
            (old(self).gesture.origin matches Some(o) ==> i64::MIN <= o.0 - p.0 <= i64::MAX
                && i64::MIN <= o.1 - p.1 <= i64::MAX && i64::MIN <= old(self).center.x + (o.0
                - p.0) <= i64::MAX && i64::MIN <= old(self).center.y + (o.1 - p.1) <= i64::MAX),
        ensures
            final(self).model() == step_move(old(self).model(), (p.0 as int, p.1 as int)),
    {
        let delta = self.gesture.pan_delta(p);
        match delta {
            Some(d) => {
                self.center = self.center.reduce(d);
            },
            None => {},
        }
    }

    /// Handles pointer up.
    pub fn on_pointer_up(&mut self)
        ensures
            final(self).model() == step_up(old(self).model()),
    {
        self.gesture.pointer_up();
    }
}

/// Law: pointer down followed by pointer up, with no move in between, leaves
/// the viewport center unchanged.
pub proof fn lemma_down_up_keeps_center(s: ViewerModel, p: (int, int))
    ensures
        step_up(step_down(s, p)).0 == s.0,
{
}

/// Law: a drag that goes down at local point `a` and moves to local point
/// `b` translates the center by the delta `b - a` inverted in sign, that is
/// by `(a.0 - b.0, a.1 - b.1)`.
pub proof fn lemma_drag_translates_center(s: ViewerModel, a: (int, int), b: (int, int))
    ensures
        step_move(step_down(s, a), b).0 == (((s.0).0 + (a.0 - b.0), (s.0).1 + (a.1 - b.1))),
{
}

} // verus!
