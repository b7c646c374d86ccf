//! Monitors, and the choice of the monitor that a window belongs to.

use vstd::prelude::*;
use crate::error::WindowError;
use crate::rect::Rect;

verus! {

/// A monitor: its origin and extent in the coordinate space that windows
/// share with it.
#[derive(Debug, Clone, Copy, PartialEq, Eq, Structural)]
pub struct ImplMonitor {
    pub x: i32,
    pub y: i32,
    pub width: u32,
    pub height: u32,
}

impl ImplMonitor {
    /// The rectangle that the monitor covers.
    pub open spec fn spec_rect(self) -> Rect {
        Rect { x: self.x, y: self.y, width: self.width, height: self.height }
    }

    /// The rectangle that the monitor covers.
    pub fn rect(&self) -> (rect: Rect)
        ensures
            rect == self.spec_rect(),
    {
        Rect::new(self.x, self.y, self.width, self.height)
    }
}

/// The area that `window` shares with the monitor at `index`.
pub open spec fn overlap_at(window: Rect, monitors: Seq<ImplMonitor>, index: int) -> int {
    window.spec_overlap_area(monitors[index].spec_rect())
}

/// Whether the monitor at `index` is the one that `window` belongs to: no
/// monitor shares more area with the window, and every monitor before it
/// shares less.
pub open spec fn is_owner(window: Rect, monitors: Seq<ImplMonitor>, index: int) -> bool {
    &&& 0 <= index < monitors.len()
    &&& forall|j: int|
        0 <= j < monitors.len() ==> #[trigger] overlap_at(window, monitors, j) <= overlap_at(
            window,
            monitors,
            index,
        )
    &&& forall|j: int|
        0 <= j < index ==> #[trigger] overlap_at(window, monitors, j) < overlap_at(
            window,
            monitors,
            index,
        )
}

/// The index of the monitor that `window` belongs to, among at least one.
pub open spec fn owner_index(window: Rect, monitors: Seq<ImplMonitor>) -> int {
    choose|index: int| is_owner(window, monitors, index)
}

/// The monitor that `window` belongs to, or the error for want of any.
pub open spec fn spec_assign(window: Rect, monitors: Seq<ImplMonitor>) -> Result<
    ImplMonitor,
    WindowError,
> {
    if monitors.len() == 0 {
        Err(WindowError::NoMonitors)
    } else {
        Ok(monitors[owner_index(window, monitors)])
    }
}

/// A window belongs to one monitor and no other.
pub proof fn owner_unique(window: Rect, monitors: Seq<ImplMonitor>, index: int)
    requires
        is_owner(window, monitors, index),
    ensures
        owner_index(window, monitors) == index,
{
    let chosen = owner_index(window, monitors);
    assert(is_owner(window, monitors, chosen));
    if chosen < index {
        assert(overlap_at(window, monitors, chosen) < overlap_at(window, monitors, index));
        assert(overlap_at(window, monitors, index) <= overlap_at(window, monitors, chosen));
    }
    if index < chosen {
        assert(overlap_at(window, monitors, index) < overlap_at(window, monitors, chosen));
        assert(overlap_at(window, monitors, chosen) <= overlap_at(window, monitors, index));
    }
}

/// Finds the position in `monitors` of the monitor that `window` belongs
/// to: the first of those that share the most area with it, and so the first
/// monitor of all where none shares any.
pub fn assign_index(window: Rect, monitors: &Vec<ImplMonitor>) -> (r: Option<usize>)
    ensures
        match r {
            Some(index) => index < monitors.len() && index == owner_index(window, monitors@),
            None => monitors.len() == 0,
        },
{
    if monitors.len() == 0 {
        return None;
    }
    let mut best: usize = 0;
    let mut max_area: u64 = window.overlap_area(monitors[0].rect());
    let mut i: usize = 1;
    while i < monitors.len()
        invariant
            1 <= i <= monitors.len(),
            best < i,
            max_area == overlap_at(window, monitors@, best as int),
            forall|j: int|
                0 <= j < i ==> #[trigger] overlap_at(window, monitors@, j) <= max_area,
            forall|j: int|
                0 <= j < best ==> #[trigger] overlap_at(window, monitors@, j) < max_area,
        decreases monitors.len() - i,
    {
        let area: u64 = window.overlap_area(monitors[i].rect());
        if area > max_area {
            max_area = area;
            best = i;
        }
        i = i + 1;
    }
    proof {
        owner_unique(window, monitors@, best as int);
    }
    Some(best)
}

/// Assigns `window` to the monitor that shares the most area with it; of
/// several that share as much, to the first. Without monitors there is
/// nothing to assign to.
pub fn assign(window: Rect, monitors: &Vec<ImplMonitor>) -> (r: Result<ImplMonitor, WindowError>)
    ensures
        r == spec_assign(window, monitors@),
{
    match assign_index(window, monitors) {
        Some(index) => Ok(monitors[index]),
        None => Err(WindowError::NoMonitors),
    }
}

/// The monitor that a window is assigned to shares at least as much area
/// with it as any other, and where another shares as much, the assigned one
/// comes first.
pub proof fn assigned_monitor_overlaps_most(window: Rect, monitors: Seq<ImplMonitor>, other: int)
    requires
        0 <= other < monitors.len(),
    ensures
        spec_assign(window, monitors) is Ok,
        0 <= owner_index(window, monitors) < monitors.len(),
        spec_assign(window, monitors) == Ok::<ImplMonitor, WindowError>(
            monitors[owner_index(window, monitors)],
        ),
        overlap_at(window, monitors, other) <= overlap_at(
            window,
            monitors,
            owner_index(window, monitors),
        ),
        overlap_at(window, monitors, other) == overlap_at(
            window,
            monitors,
            owner_index(window, monitors),
        ) ==> owner_index(window, monitors) <= other,
{
    owner_exists(window, monitors);
    let index = owner_index(window, monitors);
    assert(overlap_at(window, monitors, other) <= overlap_at(window, monitors, index));
    if other < index {
        assert(overlap_at(window, monitors, other) < overlap_at(window, monitors, index));
    }
}

/// Among at least one monitor, a window has an owner.
pub proof fn owner_exists(window: Rect, monitors: Seq<ImplMonitor>)
    requires
        monitors.len() > 0,
    ensures
        is_owner(window, monitors, owner_index(window, monitors)),
    decreases monitors.len(),
{
    if monitors.len() == 1 {
        assert(is_owner(window, monitors, 0));
    } else {
        let front = monitors.drop_last();
        let last = monitors.len() - 1;
        owner_exists(window, front);
        let prev = owner_index(window, front);
        assert forall|j: int| 0 <= j < front.len() implies overlap_at(window, front, j)
            == overlap_at(window, monitors, j) by {
            assert(front[j] == monitors[j]);
        }
        if overlap_at(window, monitors, last) > overlap_at(window, monitors, prev) {
            assert forall|j: int| 0 <= j < last implies #[trigger] overlap_at(window, monitors, j)
                < overlap_at(window, monitors, last) by {
                assert(overlap_at(window, front, j) <= overlap_at(window, front, prev));
            }
            assert(is_owner(window, monitors, last));
        } else {
            assert forall|j: int| 0 <= j < monitors.len() implies #[trigger] overlap_at(
                window,
                monitors,
                j,
            ) <= overlap_at(window, monitors, prev) by {
                if j < last {
                    assert(overlap_at(window, front, j) <= overlap_at(window, front, prev));
                }
            }
            assert forall|j: int| 0 <= j < prev implies #[trigger] overlap_at(window, monitors, j)
                < overlap_at(window, monitors, prev) by {
                assert(overlap_at(window, front, j) < overlap_at(window, front, prev));
            }
            assert(is_owner(window, monitors, prev));
        }
    }
}

/// A window that shares area with one monitor only belongs to that monitor,
/// wherever it stands among the others.
pub proof fn sole_overlapping_monitor_is_owner(
    window: Rect,
    monitors: Seq<ImplMonitor>,
    index: int,
)
    requires
        0 <= index < monitors.len(),
        overlap_at(window, monitors, index) > 0,
        forall|j: int|
            0 <= j < monitors.len() && j != index ==> #[trigger] overlap_at(window, monitors, j)
                == 0,
    ensures
        owner_index(window, monitors) == index,
        spec_assign(window, monitors) == Ok::<ImplMonitor, WindowError>(monitors[index]),
{
    assert(is_owner(window, monitors, index));
    owner_unique(window, monitors, index);
}

} // verus!
