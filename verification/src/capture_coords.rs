//! Screens and the points on them, for capturing slot positions.

use vstd::prelude::*;

verus! {

/// A connected screen: its place in the virtual desktop and its size.
#[derive(Debug, Clone)]
pub struct MonitorInfo {
    pub name: String,
    pub x: i32,
    pub y: i32,
    pub width: i32,
    pub height: i32,
    pub is_primary: bool,
}

impl MonitorInfo {
    /// The point lies on the screen: at or right of its left edge and left of
    /// its right edge, and the same from top to bottom.
    pub open spec fn contains(self, x: i32, y: i32) -> bool {
        &&& self.x <= x < self.x + self.width
        &&& self.y <= y < self.y + self.height
    }

    /// Whether the point lies on the screen.
    pub fn holds(&self, x: i32, y: i32) -> (r: bool)
        ensures
            r == self.contains(x, y),
    {
        let right: i64 = self.x as i64 + self.width as i64;
        let bottom: i64 = self.y as i64 + self.height as i64;
        x >= self.x && (x as i64) < right && y >= self.y && (y as i64) < bottom
    }
}

/// Index of the first screen from `from` on that the point lies on.
pub open spec fn first_monitor_at(
    monitors: Seq<MonitorInfo>,
    x: i32,
    y: i32,
    from: int,
) -> Option<int>
    decreases monitors.len() - from,
{
    if from < 0 || from >= monitors.len() {
        None
    } else if monitors[from].contains(x, y) {
        Some(from)
    } else {
        first_monitor_at(monitors, x, y, from + 1)
    }
}

/// The first screen that the point lies on.
pub fn find_monitor_for_point(
    monitors: &Vec<MonitorInfo>,
    x: i32,
    y: i32,
) -> (r: Option<&MonitorInfo>)
    ensures
        match first_monitor_at(monitors@, x, y, 0) {
            Some(i) => r == Some(&monitors@[i]),
            None => r is None,
        },
{
    let mut i: usize = 0;
    while i < monitors.len()
        invariant
            i <= monitors.len(),
            first_monitor_at(monitors@, x, y, 0) == first_monitor_at(monitors@, x, y, i as int),
        decreases monitors.len() - i,
    {
        if monitors[i].holds(x, y) {
            return Some(&monitors[i]);
        }
        i += 1;
    }
    None
}

} // verus!
