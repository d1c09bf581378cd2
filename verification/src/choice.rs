//! The two sides of a question and the click zones that select them.

use vstd::prelude::*;

verus! {

/// One of the two answer cards.
#[derive(Clone, Copy, Debug, PartialEq, Eq, Structural)]
pub enum Choice {
    Left,
    Right,
}

/// The play surface: a rectangle centred on the origin, given by its half
/// extents. Its left half selects the left card, its right half the right one.
#[derive(Clone, Copy, Debug, PartialEq, Eq, Structural)]
pub struct PlayArea {
    pub half_width: u32,
    pub half_height: u32,
}

impl PlayArea {
    /// Whether the point lies on the play surface, borders included.
    pub open spec fn contains(self, x: int, y: int) -> bool {
        &&& -(self.half_width as int) <= x <= self.half_width as int
        &&& -(self.half_height as int) <= y <= self.half_height as int
    }

    /// The card that a click at the point selects: none off the surface, the
    /// left card for a negative `x`, the right card otherwise.
    pub open spec fn spec_zone_at(self, x: int, y: int) -> Option<Choice> {
        if !self.contains(x, y) {
            None
        } else if x < 0 {
            Some(Choice::Left)
        } else {
            Some(Choice::Right)
        }
    }

    /// The card that a click at the point selects, if the point is on the
    /// play surface.
    pub fn zone_at(&self, x: i32, y: i32) -> (zone: Option<Choice>)
        ensures
            zone == self.spec_zone_at(x as int, y as int),
    {
        let px: i64 = x as i64;
        let py: i64 = y as i64;
        let hw: i64 = self.half_width as i64;
        let hh: i64 = self.half_height as i64;
        if px < -hw || px > hw || py < -hh || py > hh {
            None
        } else if px < 0 {
            Some(Choice::Left)
        } else {
            Some(Choice::Right)
        }
    }
}

} // verus!
