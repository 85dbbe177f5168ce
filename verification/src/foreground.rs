//! The window in the foreground: saved when a dictation starts, focused again
//! before pasting. Outside Windows there is no such window to track.

use vstd::prelude::*;

verus! {

/// Handle of the foreground window; none is tracked on this platform.
pub fn capture_foreground_window() -> (r: Option<usize>)
    ensures
        r is None,
{
    None
}

/// Gives the focus back to a window; nothing to do on this platform.
pub fn try_focus_window(_hwnd: usize) {
}

} // verus!
