//! Scrolling: how the visible window follows the cursor along one axis.

use vstd::prelude::*;

verus! {

/// Where the window's first cell stands on one axis once `pos` has been brought into it.
///
/// `pos` is the cursor's coordinate, `offset` the coordinate of the first visible cell and
/// `extent` the number of visible cells. A cursor before the window pulls the window back to
/// itself; a cursor at or past the window's end becomes its last cell; otherwise the window
/// stays. The coordinate is capped at `usize::MAX`, which only matters for an empty window.
pub open spec fn scroll_axis(pos: int, offset: int, extent: int) -> int {
    if pos < offset {
        pos
    } else if pos >= offset + extent {
        if pos - extent + 1 <= usize::MAX {
            pos - extent + 1
        } else {
            usize::MAX as int
        }
    } else {
        offset
    }
}

/// Brings `pos` into the window `[offset, offset + extent)` on one axis and returns the
/// window's new first coordinate.
pub fn scroll_to(pos: usize, offset: usize, extent: usize) -> (shifted: usize)
    ensures
        shifted == scroll_axis(pos as int, offset as int, extent as int),
        extent > 0 ==> shifted <= pos && pos - shifted < extent,
{
    if pos < offset {
        pos
    } else if pos - offset >= extent {
        (pos - extent).saturating_add(1)
    } else {
        offset
    }
}

/// After scrolling, a window of at least one cell holds the cursor: the window begins at or
/// before the cursor and ends after it.
pub proof fn lemma_scroll_contains(pos: int, offset: int, extent: int)
    requires
        0 <= pos <= usize::MAX,
        0 <= offset,
        0 < extent,
    ensures
        scroll_axis(pos, offset, extent) <= pos < scroll_axis(pos, offset, extent) + extent,
        0 <= scroll_axis(pos, offset, extent),
{
}

/// A window that already holds the cursor does not move.
pub proof fn lemma_scroll_keeps_visible(pos: int, offset: int, extent: int)
    requires
        offset <= pos < offset + extent,
    ensures
        scroll_axis(pos, offset, extent) == offset,
{
}

} // verus!
