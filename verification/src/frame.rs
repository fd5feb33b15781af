//! The frame loop's continue decision. The loop itself — polling platform
//! events, advancing the GUI context, rendering and presenting — lives
//! outside the library; after each rendered iteration it asks this module
//! whether to run another.

use vstd::prelude::*;
use crate::input::InputSnapshot;

verus! {

/// Whether the frame loop runs another iteration after the one that just
/// rendered: only where the per-frame callback asked to continue and no
/// window-close event was observed. A close observed this iteration ends the
/// loop whatever the callback returned.
pub fn continue_running(input: &InputSnapshot, callback_continue: bool) -> (r: bool)
    ensures
        r == (callback_continue && !input@.close_requested),
        input@.close_requested ==> !r,
{
    callback_continue && !input.close_requested
}

} // verus!
