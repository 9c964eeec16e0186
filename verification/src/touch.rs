//! Touch input.
//!
//! A touch sample carries integer pixel coordinates and, where the native
//! motion event offered a previous sample of the same pointer, that
//! historical position. Backends without historical data hand out `None`,
//! and callers must tolerate it as a capability gap.

use vstd::prelude::*;

verus! {

/// The phase of a touch pointer within its gesture.
#[derive(Clone, Copy, Debug, PartialEq, Eq, Structural)]
pub enum TouchPhase {
    Started,
    Moved,
    Ended,
    Cancelled,
}

/// A position on the touch surface, in pixels.
#[derive(Clone, Copy, Debug, PartialEq, Eq, Structural)]
pub struct TouchPoint {
    pub x: i32,
    pub y: i32,
}

/// One sample of one touch pointer.
#[derive(Clone, Copy, Debug, PartialEq)]
pub struct Touch {
    /// Where this pointer stands in its gesture.
    pub phase: TouchPhase,
    /// The current position of the pointer.
    pub location: TouchPoint,
    /// The index of this pointer within its motion event.
    pub pointer_index: usize,
    /// A monotonically assigned pointer id, stable across the gesture.
    pub id: u64,
    /// The previous sample of the same pointer within the same native
    /// motion event, where the backend recorded one.
    pub historical: Option<TouchPoint>,
}

/// Coordinates small enough that touch deltas cannot overflow `i64`.
pub open spec fn point_in_range(p: TouchPoint) -> bool {
    -1000000 <= p.x <= 1000000 && -1000000 <= p.y <= 1000000
}

impl Touch {
    /// The previous position of this pointer within the same native motion
    /// event, or `None` where the backend keeps no history.
    pub fn historical(&self) -> (r: Option<TouchPoint>)
        ensures r == self.historical,
    {
        self.historical
    }

    /// The motion of this pointer since its historical sample: current
    /// position minus previous position, or `None` without history.
    pub fn delta(&self) -> (r: Option<(i64, i64)>)
        ensures
            self.historical is None ==> r is None,
            self.historical matches Some(h) ==> r == Some((
                (self.location.x - h.x) as i64,
                (self.location.y - h.y) as i64,
            )),
    {
        match self.historical {
            Some(h) => Some((
                self.location.x as i64 - h.x as i64,
                self.location.y as i64 - h.y as i64,
            )),
            None => None,
        }
    }
}

/// The squared distance between two touch positions.
pub open spec fn spec_distance_sq(a: TouchPoint, b: TouchPoint) -> int {
    (a.x - b.x) * (a.x - b.x) + (a.y - b.y) * (a.y - b.y)
}

/// The squared distance between two touch positions, for pinch gestures.
pub fn distance_sq(a: TouchPoint, b: TouchPoint) -> (r: i64)
    requires
        point_in_range(a),
        point_in_range(b),
    ensures
        r == spec_distance_sq(a, b),
        0 <= r <= 8000000000000,
{
    let dx: i64 = a.x as i64 - b.x as i64;
    let dy: i64 = a.y as i64 - b.y as i64;
    proof {
        assert(0 <= dx * dx <= 4000000000000) by (nonlinear_arith)
            requires -2000000 <= dx <= 2000000;
        assert(0 <= dy * dy <= 4000000000000) by (nonlinear_arith)
            requires -2000000 <= dy <= 2000000;
    }
    dx * dx + dy * dy
}

/// The change of the squared distance between two pointers across one motion
/// event: the squared distance of the current samples minus the squared
/// distance of the historical samples. `None` where either pointer carries
/// no history.
pub fn pinch_delta_sq(a: &Touch, b: &Touch) -> (r: Option<i64>)
    requires
        point_in_range(a.location),
        point_in_range(b.location),
        a.historical matches Some(h) ==> point_in_range(h),
        b.historical matches Some(h) ==> point_in_range(h),
    ensures
        a.historical is None || b.historical is None ==> r is None,
        a.historical matches Some(ha) ==> b.historical matches Some(hb) ==> r == Some(
            (spec_distance_sq(a.location, b.location) - spec_distance_sq(ha, hb)) as i64,
        ),
{
    match (a.historical, b.historical) {
        (Some(ha), Some(hb)) => {
            let current: i64 = distance_sq(a.location, b.location);
            let historical: i64 = distance_sq(ha, hb);
            Some(current - historical)
        },
        _ => None,
    }
}

} // verus!
