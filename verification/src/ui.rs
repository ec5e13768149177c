//! State shared with the overlay window: the display name of the action
//! that fired most recently, shown as a tooltip near the cursor.

use vstd::prelude::*;

verus! {

/// What the overlay window currently shows.
pub struct WindowState {
    pub tool: String,
}

} // verus!
