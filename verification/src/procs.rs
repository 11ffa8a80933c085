//! Process-control results on platforms without a window system call.

use vstd::prelude::*;

verus! {

/// Request that the process with the given identifier be brought to the
/// foreground. On this platform there is no window to raise; the call
/// reports success, as the platform stub does.
pub fn set_foreground_by_pid(_pid: u32) -> (r: i32)
    ensures
        r == 0,
{
    0
}

} // verus!
