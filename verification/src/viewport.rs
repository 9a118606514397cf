//! The viewport model: the center point of a fixed 100x100 SVG view box.
//! The view box is always `(x - 50, y - 50, 100, 100)` for the current
//! center `(x, y)`.

use crate::numfmt::int_str;
use crate::numfmt::push_i64_dec;
use vstd::prelude::*;
use vstd::string::StringExecFns;

verus! {

/// The `viewBox` attribute string for a viewport centered at `(cx, cy)`:
/// `"{cx-50} {cy-50} 100 100"`.
pub open spec fn view_box_str(cx: int, cy: int) -> Seq<char> {
    int_str(cx - 50) + seq![' '] + int_str(cy - 50) + seq![' ', '1', '0', '0', ' ', '1', '0', '0']
}

/// The center of the viewport, in local SVG coordinates.
#[derive(Clone, Copy, PartialEq, Eq, Structural)]
pub struct ViewBoxCenter {
    pub x: i64,
    pub y: i64,
}

/// A pan delta: the vector by which the viewport center shifts in response
/// to drag motion.
pub type Pan = (i64, i64);

impl ViewBoxCenter {
    /// The left edge of the view box.
    pub fn min_x(&self) -> (r: i64)
        requires
            i64::MIN + 50 <= self.x,
        ensures
            r == self.x - 50,
    {
        self.x - 50
    }

    /// The top edge of the view box.
    pub fn min_y(&self) -> (r: i64)
        requires
            i64::MIN + 50 <= self.y,
        ensures
            r == self.y - 50,
    {
        self.y - 50
    }

    /// Renders the `viewBox` attribute: always `"{x-50} {y-50} 100 100"`
    /// for the current center `(x, y)`.
    pub fn to_svg_prop(&self) -> (s: String)
        requires
            i64::MIN + 50 <= self.x,
            i64::MIN + 50 <= self.y,
        ensures
            s@ == view_box_str(self.x as int, self.y as int),
    {
        let mut s = String::new();
        push_i64_dec(&mut s, self.min_x());
        proof {
            reveal_strlit(" ");
        }
        s.append(" ");
        push_i64_dec(&mut s, self.min_y());
        proof {
            reveal_strlit(" 100 100");
        }
        s.append(" 100 100");
        proof {
            assert(s@ =~= view_box_str(self.x as int, self.y as int));
        }
        s
    }

    /// The viewport reducer: translates the center by a pan delta.
    /// No clamping, no bounds.
    pub fn reduce(self, action: Pan) -> (r: Self)
        requires
            i64::MIN <= self.x + action.0 <= i64::MAX,
            i64::MIN <= self.y + action.1 <= i64::MAX,
        ensures
            r.x == self.x + action.0,
            r.y == self.y + action.1,
    {
        ViewBoxCenter { x: self.x + action.0, y: self.y + action.1 }
    }
}

} // verus!
