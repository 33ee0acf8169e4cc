//! A model of what the pipeline leaves behind in the operating system.
//!
//! Every call the pipeline makes sets one property of the process to the
//! values the call carries, whatever the property was before. The model
//! keeps, for each property, the call that set it last; a call that fails
//! leaves the property as it was.

use vstd::prelude::*;
use crate::config::Config;
use crate::port::{call_succeeded, Action, OsCall, Reply};
use crate::steps::{plan_of, step_script, TuningStep};

verus! {

/// What of the process a call sets.
pub enum Property {
    ErrorMode,
    TimerResolution,
    TimerPeriod,
    PriorityClass,
    Affinity,
    MemoryPriority,
    WorkingSet,
    PowerThrottling,
    IoPriority,
    ExecutionState,
    SchedulingClass,
}

/// The property a call sets; `None` for the tone, which sets nothing.
pub open spec fn property_of(call: OsCall) -> Option<Property> {
    match call {
        OsCall::SetErrorMode { .. } => Some(Property::ErrorMode),
        OsCall::SetTimerResolution { .. } => Some(Property::TimerResolution),
        OsCall::BeginTimerPeriod { .. } => Some(Property::TimerPeriod),
        OsCall::EndTimerPeriod { .. } => Some(Property::TimerPeriod),
        OsCall::SetPriorityClass { .. } => Some(Property::PriorityClass),
        OsCall::SetAffinityMask { .. } => Some(Property::Affinity),
        OsCall::SetMemoryPriority { .. } => Some(Property::MemoryPriority),
        OsCall::SetWorkingSetBounds { .. } => Some(Property::WorkingSet),
        OsCall::SetPowerThrottling { .. } => Some(Property::PowerThrottling),
        OsCall::SetIoPriority { .. } => Some(Property::IoPriority),
        OsCall::SetExecutionState { .. } => Some(Property::ExecutionState),
        OsCall::RegisterSchedulingClass { .. } => Some(Property::SchedulingClass),
        OsCall::Beep { .. } => None,
    }
}

/// The settings after a call that returned `value`.
pub open spec fn after_call(settings: Map<Property, OsCall>, call: OsCall, value: i64) -> Map<
    Property,
    OsCall,
> {
    match property_of(call) {
        Some(property) => if call_succeeded(call, value) {
            settings.insert(property, call)
        } else {
            settings
        },
        None => settings,
    }
}

/// The settings after the first `count` requests of a script, where each
/// reply stands at the place of the request it answers.
pub open spec fn after_requests(
    settings: Map<Property, OsCall>,
    script: Seq<Action>,
    replies: Seq<Reply>,
    count: nat,
) -> Map<Property, OsCall>
    decreases count,
{
    if count == 0 {
        settings
    } else {
        let before = after_requests(settings, script, replies, (count - 1) as nat);
        match script[count - 1] {
            Action::Call(call) => after_call(before, call, replies[count - 1].value),
            _ => before,
        }
    }
}

/// The settings after a step has run its script, where `first` is the
/// reply to its action and `second` the reply to its fallback.
pub open spec fn after_step(
    settings: Map<Property, OsCall>,
    step: TuningStep,
    first: Reply,
    second: Reply,
) -> Map<Property, OsCall> {
    after_requests(
        settings,
        step_script(step, first, second),
        seq![first, second],
        step_script(step, first, second).len(),
    )
}

/// The settings after the steps from place `from` on.
pub open spec fn after_steps(
    settings: Map<Property, OsCall>,
    steps: Seq<TuningStep>,
    env: Seq<(Reply, Reply)>,
    from: int,
) -> Map<Property, OsCall>
    decreases steps.len() - from,
{
    if from < 0 || from >= steps.len() {
        settings
    } else {
        after_steps(
            after_step(settings, steps[from], env[from].0, env[from].1),
            steps,
            env,
            from + 1,
        )
    }
}

/// What a run of steps leaves behind is what was there before, overlaid
/// with what the same run leaves behind where nothing was set before.
pub proof fn lemma_steps_overlay(
    settings: Map<Property, OsCall>,
    steps: Seq<TuningStep>,
    env: Seq<(Reply, Reply)>,
    from: int,
)
    ensures
        after_steps(settings, steps, env, from) == settings.union_prefer_right(
            after_steps(Map::empty(), steps, env, from),
        ),
    decreases steps.len() - from,
{
    let nothing = Map::<Property, OsCall>::empty();
    reveal_with_fuel(after_requests, 4);
    if from < 0 || from >= steps.len() {
        assert(settings =~= settings.union_prefer_right(nothing));
    } else {
        let here = after_step(settings, steps[from], env[from].0, env[from].1);
        let alone = after_step(nothing, steps[from], env[from].0, env[from].1);
        lemma_steps_overlay(here, steps, env, from + 1);
        lemma_steps_overlay(alone, steps, env, from + 1);
        let later = after_steps(nothing, steps, env, from + 1);
        assert(here =~= settings.union_prefer_right(alone));
        assert(here.union_prefer_right(later) =~= settings.union_prefer_right(
            alone.union_prefer_right(later),
        ));
    }
}

/// In this model, to run the pipeline a second time on the same process
/// changes nothing: with the same configuration, the same number of
/// processors and the same replies, the settings after two runs are the
/// settings after one.
pub proof fn lemma_second_run_changes_nothing(
    settings: Map<Property, OsCall>,
    config: Config,
    processors: u32,
    env: Seq<(Reply, Reply)>,
)
    ensures
        after_steps(
            after_steps(settings, plan_of(config, processors), env, 0),
            plan_of(config, processors),
            env,
            0,
        ) == after_steps(settings, plan_of(config, processors), env, 0),
{
    let steps = plan_of(config, processors);
    let once = after_steps(settings, steps, env, 0);
    let alone = after_steps(Map::empty(), steps, env, 0);
    lemma_steps_overlay(settings, steps, env, 0);
    lemma_steps_overlay(once, steps, env, 0);
    assert(settings.union_prefer_right(alone).union_prefer_right(alone)
        =~= settings.union_prefer_right(alone));
}

} // verus!
