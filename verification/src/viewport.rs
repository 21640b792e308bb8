use vstd::prelude::*;

verus! {

/// A computed viewport: the slice of the projection that fits on screen.
///
/// `height` rows are available in total; one is reserved for the header bar,
/// one for the footer bar, and one for a truncation marker, leaving
/// `height - 3` rows counted from `start` for entries and markers.
pub struct Window {
    /// Index of the first projection entry covered by the window.
    pub start: usize,
    /// True when entries before `start` exist: a top truncation marker is
    /// drawn in place of the window's first row.
    pub truncated_top: bool,
    /// True when entries beyond the window exist: a bottom truncation marker
    /// is drawn after the last visible row.
    pub truncated_bottom: bool,
}

/// Number of projection rows the window can cover on a screen of `height`
/// rows: everything but the header, footer and bottom-marker rows.
pub open spec fn visible_rows(height: int) -> int {
    height - 3
}

/// Window start that keeps `cursor` inside the window: `0` while the
/// selection fits in the top `height - 3` rows, otherwise just far enough
/// down that the selection sits on the window's last row.
pub open spec fn spec_window_start(cursor: int, height: int) -> int {
    if cursor <= height - 4 {
        0
    } else {
        cursor - (height - 4)
    }
}

/// Compute the viewport over a projection of `len` entries with the
/// selection at `cursor`, for a screen of `height` rows.
///
/// The selection always lies within `[start, start + visible_rows)`.
pub fn window(cursor: usize, len: usize, height: usize) -> (w: Window)
    requires
        height >= 4,
        cursor < len || (len == 0 && cursor == 0),
    ensures
        w.start == spec_window_start(cursor as int, height as int),
        w.start <= cursor < w.start + visible_rows(height as int),
        w.truncated_top == (w.start > 0),
        w.truncated_bottom == (len > w.start + visible_rows(height as int)),
{
    let start: usize = if cursor <= height - 4 {
        0
    } else {
        cursor - (height - 4)
    };
    let truncated_bottom = len > start && len - start > height - 3;
    Window { start, truncated_top: start > 0, truncated_bottom }
}

} // verus!
