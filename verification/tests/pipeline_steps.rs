use er_performance_tweaks::config::Config;
use er_performance_tweaks::flags::{
    affinity_mask, priority_class, stay_awake_state, suppressed_error_mode,
};
use er_performance_tweaks::logline::{LogLine, Outcome, StepKind};
use er_performance_tweaks::pipeline::Pipeline;
use er_performance_tweaks::port::{Action, OsCall, Reply};
use er_performance_tweaks::steps::{plan, TuningStep};

fn reply(value: i64) -> Reply {
    Reply { value, extra: 0 }
}

/// A driver whose every call succeeds.
fn succeed(call: &OsCall) -> Reply {
    match call {
        OsCall::SetTimerResolution { .. }
        | OsCall::BeginTimerPeriod { .. }
        | OsCall::EndTimerPeriod { .. } => reply(0),
        OsCall::RegisterSchedulingClass { .. } => Reply { value: 0x40, extra: 5 },
        _ => reply(1),
    }
}

/// A driver whose every call fails.
fn fail(call: &OsCall) -> Reply {
    match call {
        OsCall::SetTimerResolution { .. } => reply(-1073741823),
        OsCall::BeginTimerPeriod { .. } | OsCall::EndTimerPeriod { .. } => reply(97),
        _ => reply(0),
    }
}

fn run_pipeline(pipeline: &mut Pipeline, os: fn(&OsCall) -> Reply) -> Vec<Action> {
    let mut asked = Vec::new();
    let mut last = reply(0);
    loop {
        let action = pipeline.advance(last);
        last = match &action {
            Action::Call(call) => os(call),
            _ => reply(0),
        };
        let done = action == Action::Finish;
        asked.push(action);
        if done {
            return asked;
        }
        assert!(asked.len() < 100);
    }
}

fn line(kind: StepKind, outcome: Outcome) -> Action {
    Action::Log(LogLine::Step { kind, outcome })
}

fn calls(asked: &[Action]) -> Vec<&OsCall> {
    let mut found = Vec::new();
    for action in asked {
        if let Action::Call(call) = action {
            found.push(call);
        }
    }
    found
}

fn all_toggles_off() -> Config {
    Config {
        enable_logging: false,
        init_delay: 0,
        smart_wait: false,
        priority_level: 0,
        bypass_core0: false,
        prefer_pcores: false,
        high_precision_timer: false,
        mmcss_profile: String::from("Pro Audio"),
        window_title: String::new(),
        optimize_working_set: false,
        disable_throttling: false,
        prevent_sleep: false,
    }
}

#[test]
fn priority_levels_map_to_classes() {
    assert_eq!(priority_class(0), 0x20);
    assert_eq!(priority_class(1), 0x8000);
    assert_eq!(priority_class(2), 0x80);
    assert_eq!(priority_class(3), 0x100);
    assert_eq!(priority_class(4), 0x20);
    assert_eq!(priority_class(u32::MAX), 0x20);
}

#[test]
fn flag_sets_have_their_values() {
    assert_eq!(suppressed_error_mode(), 0x3);
    assert_eq!(stay_awake_state(), 0x8000_0003);
}

#[test]
fn affinity_mask_leaves_out_the_first_processor_only_on_bypass() {
    assert_eq!(affinity_mask(true), 0xFFFF_FFFF_FFFF_FFFE);
    assert_eq!(affinity_mask(false), 0xFFFF_FFFF_FFFF_FFFF);
    assert_eq!(affinity_mask(true) & 1, 0);
    assert_eq!(affinity_mask(false) & 1, 1);
    for core in 1..64 {
        assert_eq!((affinity_mask(true) >> core) & 1, 1);
        assert_eq!((affinity_mask(false) >> core) & 1, 1);
    }
}

#[test]
fn plan_holds_the_ten_steps_in_order() {
    let steps = plan(&Config::default(), 8);
    assert_eq!(steps.len(), 10);
    let mask = 0xFFFF_FFFF_FFFF_FFFE;
    let expected = vec![
        TuningStep {
            kind: StepKind::ErrorMode,
            enabled: true,
            action: OsCall::SetErrorMode { flags: 3 },
            fallback: None,
        },
        TuningStep {
            kind: StepKind::Timer,
            enabled: true,
            action: OsCall::SetTimerResolution { hundred_ns: 5000 },
            fallback: Some(OsCall::BeginTimerPeriod { millis: 1 }),
        },
        TuningStep {
            kind: StepKind::Priority { level: 1 },
            enabled: true,
            action: OsCall::SetPriorityClass { class: 0x8000 },
            fallback: None,
        },
        TuningStep {
            kind: StepKind::Affinity { mask, cores: 8 },
            enabled: true,
            action: OsCall::SetAffinityMask { mask },
            fallback: None,
        },
        TuningStep {
            kind: StepKind::MemoryPriority,
            enabled: true,
            action: OsCall::SetMemoryPriority { level: 7 },
            fallback: None,
        },
        TuningStep {
            kind: StepKind::WorkingSet,
            enabled: true,
            action: OsCall::SetWorkingSetBounds {
                min_bytes: 512 * 1024 * 1024,
                max_bytes: 2048 * 1024 * 1024,
                flags: 0,
            },
            fallback: None,
        },
        TuningStep {
            kind: StepKind::Throttling,
            enabled: true,
            action: OsCall::SetPowerThrottling { version: 1, control_mask: 1, state_mask: 0 },
            fallback: None,
        },
        TuningStep {
            kind: StepKind::IoPriority,
            enabled: true,
            action: OsCall::SetIoPriority { hint: 3 },
            fallback: None,
        },
        TuningStep {
            kind: StepKind::SleepPrevention,
            enabled: true,
            action: OsCall::SetExecutionState { flags: 0x8000_0003 },
            fallback: None,
        },
        TuningStep {
            kind: StepKind::SchedulingClass,
            enabled: true,
            action: OsCall::RegisterSchedulingClass { profile: String::from("Pro Audio") },
            fallback: None,
        },
    ];
    assert_eq!(steps, expected);
}

#[test]
fn pipeline_opens_with_its_line_and_the_error_mode() {
    let config = Config::default();
    let mut pipeline = Pipeline::new(&config, 8);
    assert!(!pipeline.is_finished());
    assert_eq!(pipeline.advance(reply(1)), Action::Log(LogLine::Initializing));
    assert_eq!(pipeline.advance(reply(1)), Action::Call(OsCall::SetErrorMode { flags: 3 }));
    assert_eq!(pipeline.advance(reply(0)), line(StepKind::ErrorMode, Outcome::Applied));
}

#[test]
fn with_every_toggle_off_only_the_ungoverned_steps_call() {
    let config = all_toggles_off();
    let mut pipeline = Pipeline::new(&config, 1);
    let asked = run_pipeline(&mut pipeline, succeed);
    let expected = vec![
        Action::Log(LogLine::Initializing),
        Action::Call(OsCall::SetErrorMode { flags: 3 }),
        line(StepKind::ErrorMode, Outcome::Applied),
        line(StepKind::Timer, Outcome::Skipped),
        Action::Call(OsCall::SetPriorityClass { class: 0x20 }),
        line(StepKind::Priority { level: 0 }, Outcome::Applied),
        line(StepKind::Affinity { mask: u64::MAX, cores: 1 }, Outcome::Skipped),
        Action::Call(OsCall::SetMemoryPriority { level: 7 }),
        line(StepKind::MemoryPriority, Outcome::Applied),
        line(StepKind::WorkingSet, Outcome::Skipped),
        line(StepKind::Throttling, Outcome::Skipped),
        Action::Call(OsCall::SetIoPriority { hint: 3 }),
        line(StepKind::IoPriority, Outcome::Applied),
        line(StepKind::SleepPrevention, Outcome::Skipped),
        Action::Call(OsCall::RegisterSchedulingClass { profile: String::from("Pro Audio") }),
        Action::Log(LogLine::Registered { profile: String::from("Pro Audio"), task_index: 5 }),
        Action::Finish,
    ];
    assert_eq!(asked, expected);
    assert!(pipeline.is_finished());
    assert!(!pipeline.timer_reserved());
}

#[test]
fn with_every_toggle_off_a_second_processor_brings_the_full_mask() {
    let config = all_toggles_off();
    let mut pipeline = Pipeline::new(&config, 2);
    let asked = run_pipeline(&mut pipeline, succeed);
    assert_eq!(
        calls(&asked),
        vec![
            &OsCall::SetErrorMode { flags: 3 },
            &OsCall::SetPriorityClass { class: 0x20 },
            &OsCall::SetAffinityMask { mask: u64::MAX },
            &OsCall::SetMemoryPriority { level: 7 },
            &OsCall::SetIoPriority { hint: 3 },
            &OsCall::RegisterSchedulingClass { profile: String::from("Pro Audio") },
        ]
    );
    assert!(asked.contains(&line(StepKind::Affinity { mask: u64::MAX, cores: 2 }, Outcome::Applied)));
}

#[test]
fn single_processor_leaves_the_affinity_alone() {
    for processors in [0, 1] {
        let mut pipeline = Pipeline::new(&Config::default(), processors);
        let asked = run_pipeline(&mut pipeline, succeed);
        for call in calls(&asked) {
            assert!(!matches!(call, OsCall::SetAffinityMask { .. }));
        }
        let mask = 0xFFFF_FFFF_FFFF_FFFE;
        assert!(asked.contains(&line(StepKind::Affinity { mask, cores: processors }, Outcome::Skipped)));
    }
}

#[test]
fn native_timer_success_asks_for_no_fallback() {
    let mut pipeline = Pipeline::new(&Config::default(), 4);
    let asked = run_pipeline(&mut pipeline, succeed);
    assert!(asked.contains(&Action::Call(OsCall::SetTimerResolution { hundred_ns: 5000 })));
    assert!(!asked.contains(&Action::Call(OsCall::BeginTimerPeriod { millis: 1 })));
    assert!(asked.contains(&line(StepKind::Timer, Outcome::Applied)));
    assert!(!pipeline.timer_reserved());
}

#[test]
fn native_timer_failure_falls_back_to_the_legacy_period() {
    fn os(call: &OsCall) -> Reply {
        match call {
            OsCall::SetTimerResolution { .. } => Reply { value: -1073741790, extra: 0 },
            other => succeed(other),
        }
    }
    let mut pipeline = Pipeline::new(&Config::default(), 4);
    let asked = run_pipeline(&mut pipeline, os);
    assert_eq!(asked[3], Action::Call(OsCall::SetTimerResolution { hundred_ns: 5000 }));
    assert_eq!(asked[4], Action::Call(OsCall::BeginTimerPeriod { millis: 1 }));
    assert_eq!(asked[5], line(StepKind::Timer, Outcome::FellBack));
    assert_eq!(asked[6], Action::Call(OsCall::SetPriorityClass { class: 0x8000 }));
    assert!(pipeline.timer_reserved());
}

#[test]
fn every_failure_is_one_line_and_the_pipeline_goes_on() {
    let mut pipeline = Pipeline::new(&Config::default(), 4);
    let asked = run_pipeline(&mut pipeline, fail);
    let mask = 0xFFFF_FFFF_FFFF_FFFE;
    let expected = vec![
        Action::Log(LogLine::Initializing),
        Action::Call(OsCall::SetErrorMode { flags: 3 }),
        line(StepKind::ErrorMode, Outcome::Applied),
        Action::Call(OsCall::SetTimerResolution { hundred_ns: 5000 }),
        Action::Call(OsCall::BeginTimerPeriod { millis: 1 }),
        line(StepKind::Timer, Outcome::Failed),
        Action::Call(OsCall::SetPriorityClass { class: 0x8000 }),
        line(StepKind::Priority { level: 1 }, Outcome::Failed),
        Action::Call(OsCall::SetAffinityMask { mask }),
        line(StepKind::Affinity { mask, cores: 4 }, Outcome::Failed),
        Action::Call(OsCall::SetMemoryPriority { level: 7 }),
        line(StepKind::MemoryPriority, Outcome::Failed),
        Action::Call(OsCall::SetWorkingSetBounds {
            min_bytes: 536_870_912,
            max_bytes: 2_147_483_648,
            flags: 0,
        }),
        line(StepKind::WorkingSet, Outcome::Failed),
        Action::Call(OsCall::SetPowerThrottling { version: 1, control_mask: 1, state_mask: 0 }),
        line(StepKind::Throttling, Outcome::Failed),
        Action::Call(OsCall::SetIoPriority { hint: 3 }),
        line(StepKind::IoPriority, Outcome::Failed),
        Action::Call(OsCall::SetExecutionState { flags: 0x8000_0003 }),
        line(StepKind::SleepPrevention, Outcome::Failed),
        Action::Call(OsCall::RegisterSchedulingClass { profile: String::from("Pro Audio") }),
        line(StepKind::SchedulingClass, Outcome::Failed),
        Action::Log(LogLine::AllApplied),
        Action::Call(OsCall::Beep { sound: 0x30 }),
        Action::Finish,
    ];
    assert_eq!(asked, expected);
    assert!(!pipeline.timer_reserved());
}

#[test]
fn completion_signal_is_left_out_where_logging_is_off() {
    let mut config = Config::default();
    config.enable_logging = false;
    let mut pipeline = Pipeline::new(&config, 4);
    let asked = run_pipeline(&mut pipeline, succeed);
    assert!(!asked.contains(&Action::Log(LogLine::AllApplied)));
    assert!(!asked.contains(&Action::Call(OsCall::Beep { sound: 0x30 })));
    assert_eq!(asked.last(), Some(&Action::Finish));
    assert_eq!(asked.len(), 22);
}

#[test]
fn finished_pipeline_stays_finished() {
    let mut pipeline = Pipeline::new(&Config::default(), 4);
    run_pipeline(&mut pipeline, succeed);
    assert!(pipeline.is_finished());
    assert_eq!(pipeline.advance(reply(1)), Action::Finish);
    assert_eq!(pipeline.advance(reply(0)), Action::Finish);
    assert!(pipeline.is_finished());
}

#[test]
fn replies_are_read_by_the_call_they_answer() {
    assert!(OsCall::SetErrorMode { flags: 3 }.succeeded(0));
    assert!(OsCall::SetErrorMode { flags: 3 }.succeeded(3));
    assert!(OsCall::SetTimerResolution { hundred_ns: 5000 }.succeeded(0));
    assert!(!OsCall::SetTimerResolution { hundred_ns: 5000 }.succeeded(1));
    assert!(!OsCall::SetTimerResolution { hundred_ns: 5000 }.succeeded(-1));
    assert!(OsCall::BeginTimerPeriod { millis: 1 }.succeeded(0));
    assert!(!OsCall::BeginTimerPeriod { millis: 1 }.succeeded(97));
    assert!(OsCall::EndTimerPeriod { millis: 1 }.succeeded(0));
    assert!(OsCall::SetPriorityClass { class: 0x80 }.succeeded(1));
    assert!(!OsCall::SetPriorityClass { class: 0x80 }.succeeded(0));
    assert!(OsCall::SetExecutionState { flags: 1 }.succeeded(0x8000_0000));
    assert!(!OsCall::SetExecutionState { flags: 1 }.succeeded(0));
    assert!(OsCall::RegisterSchedulingClass { profile: String::new() }.succeeded(-8));
    assert!(!OsCall::RegisterSchedulingClass { profile: String::new() }.succeeded(0));
    assert!(!OsCall::Beep { sound: 0x30 }.succeeded(0));
}

#[test]
fn step_lines_follow_the_step() {
    let steps = plan(&Config::default(), 8);
    assert_eq!(
        steps[1].skipped_line(),
        LogLine::Step { kind: StepKind::Timer, outcome: Outcome::Skipped }
    );
    assert_eq!(
        steps[1].fell_back_line(),
        LogLine::Step { kind: StepKind::Timer, outcome: Outcome::FellBack }
    );
    assert_eq!(
        steps[2].failed_line(),
        LogLine::Step { kind: StepKind::Priority { level: 1 }, outcome: Outcome::Failed }
    );
    assert_eq!(
        steps[2].applied_line(9),
        LogLine::Step { kind: StepKind::Priority { level: 1 }, outcome: Outcome::Applied }
    );
    assert_eq!(
        steps[9].applied_line(9),
        LogLine::Registered { profile: String::from("Pro Audio"), task_index: 9 }
    );
    assert_eq!(steps[9].clone(), steps[9]);
}
