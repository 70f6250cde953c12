//! Geometry of a screenshot that spans every monitor.

use vstd::prelude::*;
use crate::text::to_owned_string;

verus! {

/// A monitor's position on the virtual desktop and its size.
#[derive(Clone, Copy, Debug, PartialEq, Eq, Structural)]
pub struct MonitorRect {
    pub x: i32,
    pub y: i32,
    pub width: u32,
    pub height: u32,
}

/// The smallest rectangle that holds every monitor.
#[derive(Clone, Copy, Debug, PartialEq, Eq, Structural)]
pub struct BoundingBox {
    pub min_x: i32,
    pub min_y: i32,
    pub max_x: i32,
    pub max_y: i32,
    pub width: u32,
    pub height: u32,
}

/// The right edge of a monitor.
pub open spec fn right(m: MonitorRect) -> int {
    m.x + m.width
}

/// The bottom edge of a monitor.
pub open spec fn bottom(m: MonitorRect) -> int {
    m.y + m.height
}

/// Every edge, and the distance between any two edges, fits in an `i32`.
pub open spec fn monitors_fit(ms: Seq<MonitorRect>) -> bool {
    &&& forall|i: int|
        0 <= i < ms.len() ==> right(#[trigger] ms[i]) <= i32::MAX && bottom(ms[i]) <= i32::MAX
    &&& forall|i: int, j: int|
        0 <= i < ms.len() && 0 <= j < ms.len() ==> right(#[trigger] ms[i]) - ms[j].x <= i32::MAX
            && bottom(ms[i]) - (#[trigger] ms[j]).y <= i32::MAX
}

/// `b` is the tightest box around the monitors `ms`: each edge of the box is
/// an edge of some monitor, and no monitor sticks out of it.
pub open spec fn is_bounding_box(b: BoundingBox, ms: Seq<MonitorRect>) -> bool {
    &&& forall|i: int|
        0 <= i < ms.len() ==> b.min_x <= (#[trigger] ms[i]).x && b.min_y <= ms[i].y && right(ms[i])
            <= b.max_x && bottom(ms[i]) <= b.max_y
    &&& exists|i: int| 0 <= i < ms.len() && (#[trigger] ms[i]).x == b.min_x
    &&& exists|i: int| 0 <= i < ms.len() && (#[trigger] ms[i]).y == b.min_y
    &&& exists|i: int| 0 <= i < ms.len() && right(#[trigger] ms[i]) == b.max_x
    &&& exists|i: int| 0 <= i < ms.len() && bottom(#[trigger] ms[i]) == b.max_y
    &&& b.width == b.max_x - b.min_x
    &&& b.height == b.max_y - b.min_y
}

/// The bounding box of all monitors; fails when there is none.
pub fn monitors_bounding_box(monitors: &Vec<MonitorRect>) -> (res: Result<BoundingBox, String>)
    requires
        monitors_fit(monitors@),
    ensures
        monitors@.len() == 0 ==> (res matches Err(m) && m@ == "No monitors found"@),
        monitors@.len() > 0 ==> (res matches Ok(b) && is_bounding_box(b, monitors@)),
{
    if monitors.len() == 0 {
        return Err(to_owned_string("No monitors found"));
    }
    let ghost ms = monitors@;
    let first = monitors[0];
    assert(right(ms[0]) - ms[0].x <= i32::MAX && bottom(ms[0]) - ms[0].y <= i32::MAX);
    assert(right(ms[0]) <= i32::MAX && bottom(ms[0]) <= i32::MAX);
    let mut min_x = first.x;
    let mut min_y = first.y;
    let mut max_x = first.x + first.width as i32;
    let mut max_y = first.y + first.height as i32;
    let mut i: usize = 1;
    while i < monitors.len()
        invariant
            ms == monitors@,
            monitors_fit(ms),
            1 <= i <= ms.len(),
            forall|k: int|
                0 <= k < i ==> min_x <= (#[trigger] ms[k]).x && min_y <= ms[k].y && right(ms[k])
                    <= max_x && bottom(ms[k]) <= max_y,
            exists|k: int| 0 <= k < i && (#[trigger] ms[k]).x == min_x,
            exists|k: int| 0 <= k < i && (#[trigger] ms[k]).y == min_y,
            exists|k: int| 0 <= k < i && right(#[trigger] ms[k]) == max_x,
            exists|k: int| 0 <= k < i && bottom(#[trigger] ms[k]) == max_y,
        decreases ms.len() - i,
    {
        let m = monitors[i];
        assert(right(ms[i as int]) - ms[i as int].x <= i32::MAX && bottom(ms[i as int]) - ms[i
            as int].y <= i32::MAX);
        assert(right(ms[i as int]) <= i32::MAX && bottom(ms[i as int]) <= i32::MAX);
        let r = m.x + m.width as i32;
        let b = m.y + m.height as i32;
        if m.x < min_x {
            min_x = m.x;
        }
        if m.y < min_y {
            min_y = m.y;
        }
        if r > max_x {
            max_x = r;
        }
        if b > max_y {
            max_y = b;
        }
        i = i + 1;
    }
    let ghost kx = choose|k: int| 0 <= k < ms.len() && (#[trigger] ms[k]).x == min_x;
    let ghost kr = choose|k: int| 0 <= k < ms.len() && right(#[trigger] ms[k]) == max_x;
    let ghost ky = choose|k: int| 0 <= k < ms.len() && (#[trigger] ms[k]).y == min_y;
    let ghost kb = choose|k: int| 0 <= k < ms.len() && bottom(#[trigger] ms[k]) == max_y;
    assert(right(ms[kr]) - ms[kx].x <= i32::MAX);
    assert(bottom(ms[kb]) - ms[ky].y <= i32::MAX);
    let width = (max_x - min_x) as u32;
    let height = (max_y - min_y) as u32;
    Ok(BoundingBox { min_x, min_y, max_x, max_y, width, height })
}

/// Where each monitor's capture goes on the canvas of the bounding box:
/// its offset from the box's top-left corner.
pub fn capture_offsets(monitors: &Vec<MonitorRect>, bbox: BoundingBox) -> (res: Vec<(u32, u32)>)
    requires
        monitors@.len() > 0,
        monitors_fit(monitors@),
        is_bounding_box(bbox, monitors@),
    ensures
        res@.len() == monitors@.len(),
        forall|i: int|
            0 <= i < res@.len() ==> (#[trigger] res@[i]).0 == monitors@[i].x - bbox.min_x
                && res@[i].1 == monitors@[i].y - bbox.min_y,
{
    let mut res: Vec<(u32, u32)> = Vec::new();
    let mut i: usize = 0;
    while i < monitors.len()
        invariant
            monitors@.len() > 0,
            monitors_fit(monitors@),
            is_bounding_box(bbox, monitors@),
            i <= monitors@.len(),
            res@.len() == i,
            forall|k: int|
                0 <= k < i ==> (#[trigger] res@[k]).0 == monitors@[k].x - bbox.min_x && res@[k].1
                    == monitors@[k].y - bbox.min_y,
        decreases monitors@.len() - i,
    {
        let m = monitors[i];
        assert(bbox.min_x <= monitors@[i as int].x && right(monitors@[i as int]) <= bbox.max_x);
        assert(bbox.min_y <= monitors@[i as int].y && bottom(monitors@[i as int]) <= bbox.max_y);
        let ghost kx = choose|k: int| 0 <= k < monitors@.len() && (#[trigger] monitors@[k]).x == bbox.min_x;
        let ghost ky = choose|k: int| 0 <= k < monitors@.len() && (#[trigger] monitors@[k]).y == bbox.min_y;
        assert(right(monitors@[i as int]) - monitors@[kx].x <= i32::MAX);
        assert(bottom(monitors@[i as int]) - monitors@[ky].y <= i32::MAX);
        let dx = (m.x - bbox.min_x) as u32;
        let dy = (m.y - bbox.min_y) as u32;
        res.push((dx, dy));
        i = i + 1;
    }
    res
}

} // verus!
