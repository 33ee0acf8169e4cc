use er_performance_tweaks::logline::{log_header, LogLine, Outcome, StepKind};

fn step(kind: StepKind, outcome: Outcome) -> String {
    LogLine::Step { kind, outcome }.text()
}

#[test]
fn plain_lines_have_their_text() {
    assert_eq!(LogLine::WaitingForWindow.text(), "Waiting for game window...");
    assert_eq!(LogLine::WindowDetected.text(), " - Success: Game window detected.");
    assert_eq!(
        LogLine::WaitTimedOut.text(),
        " - Warning: SmartWait timeout (40s). Proceeding anyway."
    );
    assert_eq!(LogLine::Initializing.text(), "Initializing performance adjustments v1.0...");
    assert_eq!(LogLine::AllApplied.text(), "=== All optimizations applied successfully! ===");
}

#[test]
fn applied_steps_have_their_text() {
    assert_eq!(step(StepKind::ErrorMode, Outcome::Applied), " - Error Mode: Suppressed (Auto)");
    assert_eq!(step(StepKind::Timer, Outcome::Applied), " - Timer: Set to 0.5ms (Native)");
    assert_eq!(step(StepKind::Timer, Outcome::FellBack), " - Timer: Fallback to 1ms (Legacy)");
    assert_eq!(
        step(StepKind::MemoryPriority, Outcome::Applied),
        " - Memory: Priority set to High (Auto)"
    );
    assert_eq!(
        step(StepKind::WorkingSet, Outcome::Applied),
        " - Memory: Working set optimized (expanded to 512MB-2GB)"
    );
    assert_eq!(step(StepKind::Throttling, Outcome::Applied), " - Power: Throttling (Disabled)");
    assert_eq!(step(StepKind::IoPriority, Outcome::Applied), " - I/O: Priority set to High (Auto)");
    assert_eq!(
        step(StepKind::SleepPrevention, Outcome::Applied),
        " - Power: Sleep/Idle prevention (Enabled)"
    );
    assert_eq!(step(StepKind::SchedulingClass, Outcome::Applied), " - MMCSS: Registered successfully");
}

#[test]
fn skipped_steps_have_their_text() {
    assert_eq!(step(StepKind::Timer, Outcome::Skipped), " - Timer: Skipping (Disabled in config)");
    assert_eq!(
        step(StepKind::Affinity { mask: 1, cores: 1 }, Outcome::Skipped),
        " - Scheduling: Single core detected, affinity skipped"
    );
    assert_eq!(
        step(StepKind::WorkingSet, Outcome::Skipped),
        " - Memory: Working set optimization (Disabled in config)"
    );
    assert_eq!(step(StepKind::Throttling, Outcome::Skipped), " - Power: Throttling (Skipping)");
    assert_eq!(
        step(StepKind::SleepPrevention, Outcome::Skipped),
        " - Power: Sleep/Idle prevention (Disabled)"
    );
}

#[test]
fn failed_steps_have_their_text() {
    assert_eq!(step(StepKind::Timer, Outcome::Failed), " - Timer: Failed to set");
    assert_eq!(
        step(StepKind::Priority { level: 2 }, Outcome::Failed),
        " - CPU Priority: Failed to set"
    );
    assert_eq!(
        step(StepKind::Affinity { mask: 3, cores: 2 }, Outcome::Failed),
        " - Scheduling: Failed to apply mask"
    );
    assert_eq!(step(StepKind::WorkingSet, Outcome::Failed), " - Memory: Working set expansion failed");
    assert_eq!(
        step(StepKind::SchedulingClass, Outcome::Failed),
        " - MMCSS: Registration failed (Service might be disabled)"
    );
}

#[test]
fn priority_line_quotes_the_level_in_decimal() {
    assert_eq!(
        step(StepKind::Priority { level: 2 }, Outcome::Applied),
        " - CPU Priority: Set successfully (Level 2)"
    );
    assert_eq!(
        step(StepKind::Priority { level: 0 }, Outcome::Applied),
        " - CPU Priority: Set successfully (Level 0)"
    );
    assert_eq!(
        step(StepKind::Priority { level: 4294967295 }, Outcome::Applied),
        " - CPU Priority: Set successfully (Level 4294967295)"
    );
    assert_eq!(
        step(StepKind::Priority { level: 100 }, Outcome::Applied),
        " - CPU Priority: Set successfully (Level 100)"
    );
}

#[test]
fn affinity_line_quotes_the_mask_in_upper_case_hex() {
    assert_eq!(
        step(StepKind::Affinity { mask: 0xFFFF_FFFF_FFFF_FFFE, cores: 8 }, Outcome::Applied),
        " - Scheduling: Mask applied (FFFFFFFFFFFFFFFE) for 8 cores"
    );
    assert_eq!(
        step(StepKind::Affinity { mask: u64::MAX, cores: 16 }, Outcome::Applied),
        " - Scheduling: Mask applied (FFFFFFFFFFFFFFFF) for 16 cores"
    );
    assert_eq!(
        step(StepKind::Affinity { mask: 0, cores: 2 }, Outcome::Applied),
        " - Scheduling: Mask applied (0) for 2 cores"
    );
    assert_eq!(
        step(StepKind::Affinity { mask: 0x1A0B, cores: 128 }, Outcome::Applied),
        " - Scheduling: Mask applied (1A0B) for 128 cores"
    );
}

#[test]
fn registration_line_quotes_profile_and_task_index() {
    let line = LogLine::Registered { profile: String::from("Pro Audio"), task_index: 17 };
    assert_eq!(line.text(), " - MMCSS: Registered as 'Pro Audio' successfully (Task index 17)");
    let line = LogLine::Registered { profile: String::new(), task_index: 0 };
    assert_eq!(line.text(), " - MMCSS: Registered as '' successfully (Task index 0)");
}

#[test]
fn record_is_prefix_text_and_line_end() {
    assert_eq!(
        LogLine::Initializing.record(),
        "[ER Performance] Initializing performance adjustments v1.0...\n"
    );
    assert_eq!(
        step(StepKind::Timer, Outcome::Skipped),
        " - Timer: Skipping (Disabled in config)"
    );
    assert_eq!(
        LogLine::Step { kind: StepKind::Timer, outcome: Outcome::Skipped }.record(),
        "[ER Performance]  - Timer: Skipping (Disabled in config)\n"
    );
}

#[test]
fn header_resets_the_log() {
    assert_eq!(log_header(), "=== Elden Ring Performance Tweaks v1.0 Initialized ===\n");
}
