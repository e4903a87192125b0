//! The lowest-priority task.
//!
//! Once boot completes, the idle task raises the power indicator exactly
//! once and then occupies the processor forever, doing no further work. The
//! surrounding runtime parks in that loop; the dispatch task preempts it on
//! every USB controller interrupt.

use vstd::prelude::*;

verus! {

/// The idle task's whole state: whether the power indicator is driven high.
#[derive(Clone, Copy, Debug, PartialEq, Eq, Structural)]
pub struct IdleTask {
    /// Whether the power indicator pin is driven high.
    pub power_on: bool,
}

impl IdleTask {
    /// The idle task as it stands when boot hands control over: the power
    /// indicator not yet driven.
    pub fn new() -> (t: Self)
        ensures
            !t.power_on,
    {
        IdleTask { power_on: false }
    }
}

/// The idle task's one decision: assert the power indicator. Everything
/// after this point is an empty loop that the runtime owns; invoking it
/// again changes nothing.
pub fn idle(task: &mut IdleTask)
    ensures
        final(task).power_on,
{
    task.power_on = true;
}

} // verus!
