//! Values that pass between the agent and the driver that carries out its
//! requests: what is asked of the operating system, and what came back.

use vstd::prelude::*;
use crate::logline::LogLine;

verus! {

/// One adjustment asked of the operating system, with the values it carries.
#[derive(Debug, PartialEq, Eq)]
pub enum OsCall {
    /// Set the process error mode to the given flags.
    SetErrorMode { flags: u32 },
    /// Ask the native interface for a timer resolution, in units of 100 ns.
    SetTimerResolution { hundred_ns: u32 },
    /// Reserve a timer period through the legacy multimedia interface.
    BeginTimerPeriod { millis: u32 },
    /// Give back a timer period reserved through the legacy interface.
    EndTimerPeriod { millis: u32 },
    /// Set the priority class of the process.
    SetPriorityClass { class: u32 },
    /// Restrict the process to the processors whose bits are set.
    SetAffinityMask { mask: u64 },
    /// Set the memory priority of the process.
    SetMemoryPriority { level: u32 },
    /// Set the bounds of the working set, in bytes.
    SetWorkingSetBounds { min_bytes: u64, max_bytes: u64, flags: u32 },
    /// Set the power-throttling state of the process.
    SetPowerThrottling { version: u32, control_mask: u32, state_mask: u32 },
    /// Set the I/O priority hint of the process.
    SetIoPriority { hint: u32 },
    /// Set the execution state that keeps system and display awake.
    SetExecutionState { flags: u32 },
    /// Register with the multimedia class scheduler under a profile name.
    RegisterSchedulingClass { profile: String },
    /// Sound a system tone.
    Beep { sound: u32 },
}

impl Clone for OsCall {
    fn clone(&self) -> (copy: Self)
        ensures
            copy == *self,
    {
        match self {
            OsCall::SetErrorMode { flags } => OsCall::SetErrorMode { flags: *flags },
            OsCall::SetTimerResolution { hundred_ns } => OsCall::SetTimerResolution {
                hundred_ns: *hundred_ns,
            },
            OsCall::BeginTimerPeriod { millis } => OsCall::BeginTimerPeriod { millis: *millis },
            OsCall::EndTimerPeriod { millis } => OsCall::EndTimerPeriod { millis: *millis },
            OsCall::SetPriorityClass { class } => OsCall::SetPriorityClass { class: *class },
            OsCall::SetAffinityMask { mask } => OsCall::SetAffinityMask { mask: *mask },
            OsCall::SetMemoryPriority { level } => OsCall::SetMemoryPriority { level: *level },
            OsCall::SetWorkingSetBounds { min_bytes, max_bytes, flags } => {
                OsCall::SetWorkingSetBounds {
                    min_bytes: *min_bytes,
                    max_bytes: *max_bytes,
                    flags: *flags,
                }
            },
            OsCall::SetPowerThrottling { version, control_mask, state_mask } => {
                OsCall::SetPowerThrottling {
                    version: *version,
                    control_mask: *control_mask,
                    state_mask: *state_mask,
                }
            },
            OsCall::SetIoPriority { hint } => OsCall::SetIoPriority { hint: *hint },
            OsCall::SetExecutionState { flags } => OsCall::SetExecutionState { flags: *flags },
            OsCall::RegisterSchedulingClass { profile } => OsCall::RegisterSchedulingClass {
                profile: profile.clone(),
            },
            OsCall::Beep { sound } => OsCall::Beep { sound: *sound },
        }
    }
}

/// Whether the value that came back from a call reports success.
///
/// The native timer call and the two legacy timer calls report success as
/// zero. Setting the error mode returns the mode that was in force before
/// and cannot fail. Every other call reports failure as zero.
pub open spec fn call_succeeded(call: OsCall, value: i64) -> bool {
    match call {
        OsCall::SetErrorMode { .. } => true,
        OsCall::SetTimerResolution { .. } => value == 0,
        OsCall::BeginTimerPeriod { .. } => value == 0,
        OsCall::EndTimerPeriod { .. } => value == 0,
        _ => value != 0,
    }
}

impl OsCall {
    /// Whether `value`, returned by this call, reports success.
    pub fn succeeded(&self, value: i64) -> (ok: bool)
        ensures
            ok == call_succeeded(*self, value),
    {
        match self {
            OsCall::SetErrorMode { .. } => true,
            OsCall::SetTimerResolution { .. } => value == 0,
            OsCall::BeginTimerPeriod { .. } => value == 0,
            OsCall::EndTimerPeriod { .. } => value == 0,
            _ => value != 0,
        }
    }
}

/// A length of time to let pass.
#[derive(Clone, Copy, Debug, PartialEq, Eq)]
pub struct Pause {
    /// Whole seconds.
    pub secs: u64,
    /// Milliseconds on top of the seconds.
    pub millis: u32,
}

/// What the driver reports after it has carried out a request.
#[derive(Clone, Copy, Debug, PartialEq, Eq)]
pub struct Reply {
    /// The value the request yielded: what an operating-system call
    /// returned, the handle of the window a probe found or zero where it
    /// found none, the reading of the clock in milliseconds. Zero where the
    /// request yields nothing.
    pub value: i64,
    /// A second value, where the request yields one: the task index of a
    /// registration with the multimedia class scheduler. Zero otherwise.
    pub extra: u32,
}

/// What the agent asks its driver to do next.
#[derive(Debug, PartialEq, Eq)]
pub enum Action {
    /// Append the line to the log.
    Log(LogLine),
    /// Let the time pass.
    Sleep(Pause),
    /// Read the monotonic clock, in milliseconds.
    ReadClock,
    /// Look for a top-level window with this title.
    Probe { title: String },
    /// Make the operating-system call.
    Call(OsCall),
    /// Nothing is left to do.
    Finish,
}

} // verus!
