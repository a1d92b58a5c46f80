//! The execution governor: the policy that bounds one script execution by a
//! wall-clock deadline and a heap ceiling. The engine offers no cooperative
//! preemption inside pure compute, so a supervisor outside the executing call
//! watches the clock and the heap and, on a breach, signals the isolate to
//! terminate; a terminated execution surfaces as a script failure, never as a
//! partial value.

use vstd::prelude::*;

verus! {

/// The ceilings for one script execution; absence means unbounded.
#[derive(Debug, Clone, Copy, PartialEq, Eq, Structural)]
pub struct ExecLimits {
    /// Wall-clock ceiling in milliseconds.
    pub time_limit_ms: Option<u64>,
    /// Heap ceiling in bytes; requires the isolate to have been built with a
    /// maximum heap, and a breach is observed as the engine's own
    /// out-of-memory termination, not a crash.
    pub memory_limit_bytes: Option<u64>,
}

/// The wall-clock ceiling is set and has been reached.
pub open spec fn time_exceeded(limits: ExecLimits, elapsed_ms: u64) -> bool {
    limits.time_limit_ms matches Some(t) && elapsed_ms >= t
}

/// The heap ceiling is set and has been reached.
pub open spec fn memory_exceeded(limits: ExecLimits, heap_bytes: u64) -> bool {
    limits.memory_limit_bytes matches Some(m) && heap_bytes >= m
}

/// The supervisor's decision at one observation of the running execution:
/// terminate exactly when a set ceiling has been reached. With no ceilings
/// set, it never terminates; delivering the resulting signal to an already
/// idle isolate is a safe no-op.
pub fn should_terminate(limits: &ExecLimits, elapsed_ms: u64, heap_bytes: u64) -> (r: bool)
    ensures
        r == (time_exceeded(*limits, elapsed_ms) || memory_exceeded(*limits, heap_bytes)),
{
    let time_hit = match limits.time_limit_ms {
        Some(t) => elapsed_ms >= t,
        Option::None => false,
    };
    let memory_hit = match limits.memory_limit_bytes {
        Some(m) => heap_bytes >= m,
        Option::None => false,
    };
    time_hit || memory_hit
}

} // verus!
