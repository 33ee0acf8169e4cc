//! The tuning steps: what each asks of the operating system, when it is
//! switched on, and which line reports how it went.

use vstd::prelude::*;
use crate::config::Config;
use crate::flags::{
    affinity_mask, affinity_mask_of, lemma_affinity_mask_bits, mask_admits, priority_class,
    priority_class_of, stay_awake_state, suppressed_error_mode, ERROR_MODE_SUPPRESSED,
    EXEC_STAY_AWAKE, IO_PRIORITY_HIGH, MEMORY_PRIORITY_HIGH, PRIORITY_NORMAL,
    THROTTLING_EXECUTION_SPEED, THROTTLING_VERSION, TIMER_LEGACY_PERIOD, TIMER_NATIVE_RESOLUTION,
    WORKING_SET_FLAGS, WORKING_SET_MAX, WORKING_SET_MIN,
};
use crate::logline::{is_skip_line, LogLine, Outcome, StepKind};
use crate::port::{call_succeeded, Action, OsCall, Reply};

verus! {

/// One unit of work of the pipeline.
#[derive(Debug, PartialEq, Eq)]
pub struct TuningStep {
    /// Which adjustment this is.
    pub kind: StepKind,
    /// Whether the step is to touch the operating system at all.
    pub enabled: bool,
    /// The call that makes the adjustment.
    pub action: OsCall,
    /// The call to make instead where `action` fails, if there is one.
    pub fallback: Option<OsCall>,
}

impl Clone for TuningStep {
    fn clone(&self) -> (copy: Self)
        ensures
            copy == *self,
    {
        let fallback = match &self.fallback {
            Some(call) => Some(call.clone()),
            None => None,
        };
        TuningStep { kind: self.kind, enabled: self.enabled, action: self.action.clone(), fallback }
    }
}

/// Whether a configuration option switches steps of this kind on and off.
/// The other kinds run whatever the configuration says; the affinity step
/// alone looks at the machine instead.
pub open spec fn is_toggled(kind: StepKind) -> bool {
    kind is Timer || kind is WorkingSet || kind is Throttling || kind is SleepPrevention
}

/// The number of steps in the pipeline.
pub const STEP_COUNT: usize = 10;

/// The steps of the pipeline, in the order in which they run, for a
/// configuration and the number of logical processors the machine reports.
pub open spec fn plan_of(config: Config, processors: u32) -> Seq<TuningStep> {
    seq![
        TuningStep {
            kind: StepKind::ErrorMode,
            enabled: true,
            action: OsCall::SetErrorMode { flags: ERROR_MODE_SUPPRESSED },
            fallback: None,
        },
        TuningStep {
            kind: StepKind::Timer,
            enabled: config.high_precision_timer,
            action: OsCall::SetTimerResolution { hundred_ns: TIMER_NATIVE_RESOLUTION },
            fallback: Some(OsCall::BeginTimerPeriod { millis: TIMER_LEGACY_PERIOD }),
        },
        TuningStep {
            kind: StepKind::Priority { level: config.priority_level },
            enabled: true,
            action: OsCall::SetPriorityClass { class: priority_class_of(config.priority_level) },
            fallback: None,
        },
        TuningStep {
            kind: StepKind::Affinity {
                mask: affinity_mask_of(config.bypass_core0),
                cores: processors,
            },
            enabled: processors > 1,
            action: OsCall::SetAffinityMask { mask: affinity_mask_of(config.bypass_core0) },
            fallback: None,
        },
        TuningStep {
            kind: StepKind::MemoryPriority,
            enabled: true,
            action: OsCall::SetMemoryPriority { level: MEMORY_PRIORITY_HIGH },
            fallback: None,
        },
        TuningStep {
            kind: StepKind::WorkingSet,
            enabled: config.optimize_working_set,
            action: OsCall::SetWorkingSetBounds {
                min_bytes: WORKING_SET_MIN,
                max_bytes: WORKING_SET_MAX,
                flags: WORKING_SET_FLAGS,
            },
            fallback: None,
        },
        TuningStep {
            kind: StepKind::Throttling,
            enabled: config.disable_throttling,
            action: OsCall::SetPowerThrottling {
                version: THROTTLING_VERSION,
                control_mask: THROTTLING_EXECUTION_SPEED,
                state_mask: 0,
            },
            fallback: None,
        },
        TuningStep {
            kind: StepKind::IoPriority,
            enabled: true,
            action: OsCall::SetIoPriority { hint: IO_PRIORITY_HIGH },
            fallback: None,
        },
        TuningStep {
            kind: StepKind::SleepPrevention,
            enabled: config.prevent_sleep,
            action: OsCall::SetExecutionState { flags: EXEC_STAY_AWAKE },
            fallback: None,
        },
        TuningStep {
            kind: StepKind::SchedulingClass,
            enabled: true,
            action: OsCall::RegisterSchedulingClass { profile: config.mmcss_profile },
            fallback: None,
        },
    ]
}

/// Builds the steps of the pipeline from the configuration and the number
/// of logical processors the machine reports. The driver asks the machine
/// for that number once, before the agent starts.
pub fn plan(config: &Config, processors: u32) -> (steps: Vec<TuningStep>)
    ensures
        steps@ == plan_of(*config, processors),
        steps@.len() == STEP_COUNT,
{
    let mut steps: Vec<TuningStep> = Vec::new();
    steps.push(
        TuningStep {
            kind: StepKind::ErrorMode,
            enabled: true,
            action: OsCall::SetErrorMode { flags: suppressed_error_mode() },
            fallback: None,
        },
    );
    steps.push(
        TuningStep {
            kind: StepKind::Timer,
            enabled: config.high_precision_timer,
            action: OsCall::SetTimerResolution { hundred_ns: TIMER_NATIVE_RESOLUTION },
            fallback: Some(OsCall::BeginTimerPeriod { millis: TIMER_LEGACY_PERIOD }),
        },
    );
    steps.push(
        TuningStep {
            kind: StepKind::Priority { level: config.priority_level },
            enabled: true,
            action: OsCall::SetPriorityClass { class: priority_class(config.priority_level) },
            fallback: None,
        },
    );
    let mask: u64 = affinity_mask(config.bypass_core0);
    steps.push(
        TuningStep {
            kind: StepKind::Affinity { mask, cores: processors },
            enabled: processors > 1,
            action: OsCall::SetAffinityMask { mask },
            fallback: None,
        },
    );
    steps.push(
        TuningStep {
            kind: StepKind::MemoryPriority,
            enabled: true,
            action: OsCall::SetMemoryPriority { level: MEMORY_PRIORITY_HIGH },
            fallback: None,
        },
    );
    steps.push(
        TuningStep {
            kind: StepKind::WorkingSet,
            enabled: config.optimize_working_set,
            action: OsCall::SetWorkingSetBounds {
                min_bytes: WORKING_SET_MIN,
                max_bytes: WORKING_SET_MAX,
                flags: WORKING_SET_FLAGS,
            },
            fallback: None,
        },
    );
    steps.push(
        TuningStep {
            kind: StepKind::Throttling,
            enabled: config.disable_throttling,
            action: OsCall::SetPowerThrottling {
                version: THROTTLING_VERSION,
                control_mask: THROTTLING_EXECUTION_SPEED,
                state_mask: 0,
            },
            fallback: None,
        },
    );
    steps.push(
        TuningStep {
            kind: StepKind::IoPriority,
            enabled: true,
            action: OsCall::SetIoPriority { hint: IO_PRIORITY_HIGH },
            fallback: None,
        },
    );
    steps.push(
        TuningStep {
            kind: StepKind::SleepPrevention,
            enabled: config.prevent_sleep,
            action: OsCall::SetExecutionState { flags: stay_awake_state() },
            fallback: None,
        },
    );
    steps.push(
        TuningStep {
            kind: StepKind::SchedulingClass,
            enabled: true,
            action: OsCall::RegisterSchedulingClass { profile: config.mmcss_profile.clone() },
            fallback: None,
        },
    );
    assert(steps@ =~= plan_of(*config, processors));
    steps
}

impl TuningStep {
    /// The line that reports this step where it is switched off.
    pub open spec fn skipped_line_of(self) -> LogLine {
        LogLine::Step { kind: self.kind, outcome: Outcome::Skipped }
    }

    /// The line that reports this step where nothing it tried succeeded.
    pub open spec fn failed_line_of(self) -> LogLine {
        LogLine::Step { kind: self.kind, outcome: Outcome::Failed }
    }

    /// The line that reports this step where its fallback is in force.
    pub open spec fn fell_back_line_of(self) -> LogLine {
        LogLine::Step { kind: self.kind, outcome: Outcome::FellBack }
    }

    /// The line that reports this step where its adjustment is in force.
    /// A registration with the multimedia class scheduler reports the
    /// profile and the task index that came back with the reply.
    pub open spec fn applied_line_of(self, extra: u32) -> LogLine {
        match self.action {
            OsCall::RegisterSchedulingClass { profile } => LogLine::Registered {
                profile,
                task_index: extra,
            },
            _ => LogLine::Step { kind: self.kind, outcome: Outcome::Applied },
        }
    }

    /// The line for a step that is switched off.
    pub fn skipped_line(&self) -> (line: LogLine)
        ensures
            line == self.skipped_line_of(),
    {
        LogLine::Step { kind: self.kind, outcome: Outcome::Skipped }
    }

    /// The line for a step of which nothing succeeded.
    pub fn failed_line(&self) -> (line: LogLine)
        ensures
            line == self.failed_line_of(),
    {
        LogLine::Step { kind: self.kind, outcome: Outcome::Failed }
    }

    /// The line for a step whose fallback is in force.
    pub fn fell_back_line(&self) -> (line: LogLine)
        ensures
            line == self.fell_back_line_of(),
    {
        LogLine::Step { kind: self.kind, outcome: Outcome::FellBack }
    }

    /// The line for a step whose adjustment is in force; `extra` is the
    /// second value of the reply to its call.
    pub fn applied_line(&self, extra: u32) -> (line: LogLine)
        ensures
            line == self.applied_line_of(extra),
    {
        match &self.action {
            OsCall::RegisterSchedulingClass { profile } => LogLine::Registered {
                profile: profile.clone(),
                task_index: extra,
            },
            _ => LogLine::Step { kind: self.kind, outcome: Outcome::Applied },
        }
    }
}

/// Everything a step asks for, in order, where `first` is the reply to its
/// action and `second` the reply to its fallback.
///
/// A step that is switched off is one line and no call. A step that is
/// switched on is its action and one line; between the two stands the
/// fallback, where the action failed and the step has one.
pub open spec fn step_script(step: TuningStep, first: Reply, second: Reply) -> Seq<Action> {
    if !step.enabled {
        seq![Action::Log(step.skipped_line_of())]
    } else if call_succeeded(step.action, first.value) {
        seq![Action::Call(step.action), Action::Log(step.applied_line_of(first.extra))]
    } else {
        match step.fallback {
            None => seq![Action::Call(step.action), Action::Log(step.failed_line_of())],
            Some(call) => seq![
                Action::Call(step.action),
                Action::Call(call),
                Action::Log(
                    if call_succeeded(call, second.value) {
                        step.fell_back_line_of()
                    } else {
                        step.failed_line_of()
                    },
                ),
            ],
        }
    }
}

/// Whether a step ends holding a legacy timer period: its action failed
/// and its fallback, the reservation of such a period, succeeded.
pub open spec fn step_reserves_timer(step: TuningStep, first: Reply, second: Reply) -> bool {
    &&& step.enabled
    &&& !call_succeeded(step.action, first.value)
    &&& step.fallback matches Some(call)
    &&& call is BeginTimerPeriod
    &&& call_succeeded(call, second.value)
}

/// Every step writes exactly one line, and writes it last; whatever it asks
/// for before that is a call. The line tells of a skipped step exactly
/// when the step is switched off, and a step that is switched off makes no
/// call at all.
pub proof fn lemma_step_writes_one_line(step: TuningStep, first: Reply, second: Reply)
    ensures
        step_script(step, first, second).len() >= 1,
        step_script(step, first, second).last() is Log,
        forall|i: int|
            0 <= i < step_script(step, first, second).len() - 1 ==> (#[trigger] step_script(
                step,
                first,
                second,
            )[i]) is Call,
        is_skip_line(step_script(step, first, second).last()->Log_0) <==> !step.enabled,
        !step.enabled ==> step_script(step, first, second).len() == 1,
{
}

/// The fallback is asked for only after the action has failed: a step
/// never has both its adjustment and its fallback in force.
pub proof fn lemma_fallback_only_after_failure(step: TuningStep, first: Reply, second: Reply)
    ensures
        step_script(step, first, second).len() == 3 ==> {
            &&& step.enabled
            &&& !call_succeeded(step.action, first.value)
            &&& step.fallback == Some(step_script(step, first, second)[1]->Call_0)
        },
        call_succeeded(step.action, first.value) ==> step_script(step, first, second).len() <= 2,
{
}

/// With the four toggles of the pipeline off, the timer, the working set,
/// the throttling and the sleep prevention each are one line that tells
/// of a skipped step, and none of them makes a call. The steps that no
/// toggle governs run all the same: the error mode, the priority class,
/// the memory priority, the I/O priority and the registration always, and
/// the affinity wherever the machine has more than one processor.
pub proof fn lemma_toggles_off(config: Config, processors: u32, first: Reply, second: Reply)
    requires
        !config.high_precision_timer,
        !config.optimize_working_set,
        !config.disable_throttling,
        !config.prevent_sleep,
    ensures
        forall|i: int|
            0 <= i < STEP_COUNT ==> {
                let step = #[trigger] plan_of(config, processors)[i];
                &&& is_toggled(step.kind) ==> step_script(step, first, second) == seq![
                    Action::Log(LogLine::Step { kind: step.kind, outcome: Outcome::Skipped }),
                ]
                &&& !is_toggled(step.kind) && !(step.kind is Affinity) ==> step.enabled
                &&& step.kind is Affinity ==> step.enabled == (processors > 1)
            },
        config.priority_level == 0 ==> plan_of(config, processors)[2].action
            == (OsCall::SetPriorityClass { class: PRIORITY_NORMAL }),
{
    let steps = plan_of(config, processors);
    assert forall|i: int| 0 <= i < STEP_COUNT implies {
        let step = #[trigger] steps[i];
        &&& is_toggled(step.kind) ==> step_script(step, first, second) == seq![
            Action::Log(LogLine::Step { kind: step.kind, outcome: Outcome::Skipped }),
        ]
        &&& !is_toggled(step.kind) && !(step.kind is Affinity) ==> step.enabled
        &&& step.kind is Affinity ==> step.enabled == (processors > 1)
    } by {
        if i == 0 {
        } else if i == 1 {
        } else if i == 2 {
        } else if i == 3 {
        } else if i == 4 {
        } else if i == 5 {
        } else if i == 6 {
        } else if i == 7 {
        } else if i == 8 {
        } else {
            assert(i == 9);
        }
    }
}

/// The affinity step, fourth in the plan. On a machine that reports one
/// processor, or none, it is one line and makes no call, so the mask of
/// the process stays as it is. On any other machine it asks for a mask
/// that leaves the first processor out exactly when the first processor
/// is to be bypassed, and that admits every other processor.
pub proof fn lemma_affinity_step(
    config: Config,
    processors: u32,
    first: Reply,
    second: Reply,
    core: u64,
)
    requires
        core < 64,
    ensures
        plan_of(config, processors)[3].kind is Affinity,
        processors <= 1 ==> step_script(plan_of(config, processors)[3], first, second) == seq![
            Action::Log(
                LogLine::Step {
                    kind: plan_of(config, processors)[3].kind,
                    outcome: Outcome::Skipped,
                },
            ),
        ],
        processors > 1 ==> step_script(plan_of(config, processors)[3], first, second)[0] == (
        Action::Call(OsCall::SetAffinityMask { mask: affinity_mask_of(config.bypass_core0) })),
        mask_admits(affinity_mask_of(config.bypass_core0), core) <==> !(config.bypass_core0 && core
            == 0),
{
    lemma_affinity_mask_bits(config.bypass_core0, core);
}

} // verus!
