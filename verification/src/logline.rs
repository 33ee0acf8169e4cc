//! The lines the agent writes to its log.

use vstd::prelude::*;

verus! {

/// Which adjustment a step makes.
#[derive(Clone, Copy, Debug, PartialEq, Eq)]
pub enum StepKind {
    /// Suppress the error dialogs.
    ErrorMode,
    /// Raise the timer resolution.
    Timer,
    /// Set the priority class for the configured level.
    Priority { level: u32 },
    /// Set this affinity mask on a machine of this many logical processors.
    Affinity { mask: u64, cores: u32 },
    /// Raise the memory priority.
    MemoryPriority,
    /// Raise the working-set bounds.
    WorkingSet,
    /// Switch power throttling off.
    Throttling,
    /// Raise the I/O priority.
    IoPriority,
    /// Keep system and display awake.
    SleepPrevention,
    /// Register with the multimedia class scheduler.
    SchedulingClass,
}

/// How a step went.
#[derive(Clone, Copy, Debug, PartialEq, Eq)]
pub enum Outcome {
    /// The step is switched off and left the operating system alone.
    Skipped,
    /// The adjustment is in force.
    Applied,
    /// The adjustment failed and the fallback is in force instead.
    FellBack,
    /// Nothing the step tried succeeded.
    Failed,
}

/// One line of the log.
#[derive(Debug, PartialEq, Eq)]
pub enum LogLine {
    /// The wait for the target's window begins.
    WaitingForWindow,
    /// The target's window was found.
    WindowDetected,
    /// The wait ran out of time; tuning goes ahead all the same.
    WaitTimedOut,
    /// The tuning pipeline begins.
    Initializing,
    /// How one step of the pipeline went.
    Step { kind: StepKind, outcome: Outcome },
    /// The process is registered with the multimedia class scheduler under
    /// this profile, as the task of this index.
    Registered { profile: String, task_index: u32 },
    /// Every step has run.
    AllApplied,
}

/// Whether a line reports a step that is switched off.
pub open spec fn is_skip_line(line: LogLine) -> bool {
    line matches LogLine::Step { outcome, .. } && outcome is Skipped
}

/// The character that writes a digit below sixteen, in upper case.
pub open spec fn digit_char(d: nat) -> char {
    if d == 0 {
        '0'
    } else if d == 1 {
        '1'
    } else if d == 2 {
        '2'
    } else if d == 3 {
        '3'
    } else if d == 4 {
        '4'
    } else if d == 5 {
        '5'
    } else if d == 6 {
        '6'
    } else if d == 7 {
        '7'
    } else if d == 8 {
        '8'
    } else if d == 9 {
        '9'
    } else if d == 10 {
        'A'
    } else if d == 11 {
        'B'
    } else if d == 12 {
        'C'
    } else if d == 13 {
        'D'
    } else if d == 14 {
        'E'
    } else {
        'F'
    }
}

/// A number written in decimal, without leading zeros.
pub open spec fn decimal_of(n: nat) -> Seq<char>
    decreases n,
{
    if n < 10 {
        seq![digit_char(n)]
    } else {
        decimal_of(n / 10).push(digit_char(n % 10))
    }
}

/// A number written in hexadecimal, in upper case and without leading
/// zeros.
pub open spec fn hex_of(n: nat) -> Seq<char>
    decreases n,
{
    if n < 16 {
        seq![digit_char(n)]
    } else {
        hex_of(n / 16).push(digit_char(n % 16))
    }
}

/// A number written in base sixteen or, for every other base, in base ten.
pub open spec fn digits_of(n: nat, base: nat) -> Seq<char> {
    if base == 16 {
        hex_of(n)
    } else {
        decimal_of(n)
    }
}

fn digit(d: u64) -> (c: char)
    requires
        d < 16,
    ensures
        c == digit_char(d as nat),
{
    match d {
        0 => '0',
        1 => '1',
        2 => '2',
        3 => '3',
        4 => '4',
        5 => '5',
        6 => '6',
        7 => '7',
        8 => '8',
        9 => '9',
        10 => 'A',
        11 => 'B',
        12 => 'C',
        13 => 'D',
        14 => 'E',
        _ => 'F',
    }
}

fn push_digits(out: &mut String, n: u64, base: u64)
    requires
        base == 10 || base == 16,
    ensures
        final(out)@ == old(out)@ + digits_of(n as nat, base as nat),
    decreases n,
{
    if n >= base {
        push_digits(out, n / base, base);
    }
    out.push(digit(n % base));
    assert(out@ =~= old(out)@ + digits_of(n as nat, base as nat));
}

/// The text of the line that tells how a step went, but for the numbers
/// that the lines of an applied priority and an applied mask end with.
pub open spec fn step_phrase(kind: StepKind, outcome: Outcome) -> Seq<char> {
    match kind {
        StepKind::ErrorMode => match outcome {
            Outcome::Skipped => " - Error Mode: Skipped"@,
            Outcome::Applied => " - Error Mode: Suppressed (Auto)"@,
            Outcome::FellBack => " - Error Mode: Fallback applied"@,
            Outcome::Failed => " - Error Mode: Failed to set"@,
        },
        StepKind::Timer => match outcome {
            Outcome::Skipped => " - Timer: Skipping (Disabled in config)"@,
            Outcome::Applied => " - Timer: Set to 0.5ms (Native)"@,
            Outcome::FellBack => " - Timer: Fallback to 1ms (Legacy)"@,
            Outcome::Failed => " - Timer: Failed to set"@,
        },
        StepKind::Priority { .. } => match outcome {
            Outcome::Skipped => " - CPU Priority: Skipped"@,
            Outcome::Applied => " - CPU Priority: Set successfully"@,
            Outcome::FellBack => " - CPU Priority: Fallback applied"@,
            Outcome::Failed => " - CPU Priority: Failed to set"@,
        },
        StepKind::Affinity { .. } => match outcome {
            Outcome::Skipped => " - Scheduling: Single core detected, affinity skipped"@,
            Outcome::Applied => " - Scheduling: Mask applied"@,
            Outcome::FellBack => " - Scheduling: Fallback applied"@,
            Outcome::Failed => " - Scheduling: Failed to apply mask"@,
        },
        StepKind::MemoryPriority => match outcome {
            Outcome::Skipped => " - Memory: Priority (Skipped)"@,
            Outcome::Applied => " - Memory: Priority set to High (Auto)"@,
            Outcome::FellBack => " - Memory: Priority fallback applied"@,
            Outcome::Failed => " - Memory: Priority change failed"@,
        },
        StepKind::WorkingSet => match outcome {
            Outcome::Skipped => " - Memory: Working set optimization (Disabled in config)"@,
            Outcome::Applied => " - Memory: Working set optimized (expanded to 512MB-2GB)"@,
            Outcome::FellBack => " - Memory: Working set fallback applied"@,
            Outcome::Failed => " - Memory: Working set expansion failed"@,
        },
        StepKind::Throttling => match outcome {
            Outcome::Skipped => " - Power: Throttling (Skipping)"@,
            Outcome::Applied => " - Power: Throttling (Disabled)"@,
            Outcome::FellBack => " - Power: Throttling (Fallback applied)"@,
            Outcome::Failed => " - Power: Throttling (Failed)"@,
        },
        StepKind::IoPriority => match outcome {
            Outcome::Skipped => " - I/O: Priority (Skipped)"@,
            Outcome::Applied => " - I/O: Priority set to High (Auto)"@,
            Outcome::FellBack => " - I/O: Priority fallback applied"@,
            Outcome::Failed => " - I/O: Priority change failed"@,
        },
        StepKind::SleepPrevention => match outcome {
            Outcome::Skipped => " - Power: Sleep/Idle prevention (Disabled)"@,
            Outcome::Applied => " - Power: Sleep/Idle prevention (Enabled)"@,
            Outcome::FellBack => " - Power: Sleep/Idle prevention (Fallback applied)"@,
            Outcome::Failed => " - Power: Sleep/Idle prevention (Failed)"@,
        },
        StepKind::SchedulingClass => match outcome {
            Outcome::Skipped => " - MMCSS: Registration (Skipped)"@,
            Outcome::Applied => " - MMCSS: Registered successfully"@,
            Outcome::FellBack => " - MMCSS: Fallback applied"@,
            Outcome::Failed => " - MMCSS: Registration failed (Service might be disabled)"@,
        },
    }
}

/// The text of a line.
pub open spec fn line_text(line: LogLine) -> Seq<char> {
    match line {
        LogLine::WaitingForWindow => "Waiting for game window..."@,
        LogLine::WindowDetected => " - Success: Game window detected."@,
        LogLine::WaitTimedOut => " - Warning: SmartWait timeout (40s). Proceeding anyway."@,
        LogLine::Initializing => "Initializing performance adjustments v1.0..."@,
        LogLine::AllApplied => "=== All optimizations applied successfully! ==="@,
        LogLine::Registered { profile, task_index } => " - MMCSS: Registered as '"@ + profile@
            + "' successfully (Task index "@ + decimal_of(task_index as nat) + ")"@,
        LogLine::Step { kind, outcome } => match (kind, outcome) {
            (StepKind::Priority { level }, Outcome::Applied) => step_phrase(kind, outcome)
                + " (Level "@ + decimal_of(level as nat) + ")"@,
            (StepKind::Affinity { mask, cores }, Outcome::Applied) => step_phrase(kind, outcome)
                + " ("@ + hex_of(mask as nat) + ") for "@ + decimal_of(cores as nat) + " cores"@,
            _ => step_phrase(kind, outcome),
        },
    }
}

/// What stands before every line in the log.
pub open spec fn record_prefix() -> Seq<char> {
    "[ER Performance] "@
}

fn phrase(kind: StepKind, outcome: Outcome) -> (text: &'static str)
    ensures
        text@ == step_phrase(kind, outcome),
{
    match kind {
        StepKind::ErrorMode => match outcome {
            Outcome::Skipped => " - Error Mode: Skipped",
            Outcome::Applied => " - Error Mode: Suppressed (Auto)",
            Outcome::FellBack => " - Error Mode: Fallback applied",
            Outcome::Failed => " - Error Mode: Failed to set",
        },
        StepKind::Timer => match outcome {
            Outcome::Skipped => " - Timer: Skipping (Disabled in config)",
            Outcome::Applied => " - Timer: Set to 0.5ms (Native)",
            Outcome::FellBack => " - Timer: Fallback to 1ms (Legacy)",
            Outcome::Failed => " - Timer: Failed to set",
        },
        StepKind::Priority { .. } => match outcome {
            Outcome::Skipped => " - CPU Priority: Skipped",
            Outcome::Applied => " - CPU Priority: Set successfully",
            Outcome::FellBack => " - CPU Priority: Fallback applied",
            Outcome::Failed => " - CPU Priority: Failed to set",
        },
        StepKind::Affinity { .. } => match outcome {
            Outcome::Skipped => " - Scheduling: Single core detected, affinity skipped",
            Outcome::Applied => " - Scheduling: Mask applied",
            Outcome::FellBack => " - Scheduling: Fallback applied",
            Outcome::Failed => " - Scheduling: Failed to apply mask",
        },
        StepKind::MemoryPriority => match outcome {
            Outcome::Skipped => " - Memory: Priority (Skipped)",
            Outcome::Applied => " - Memory: Priority set to High (Auto)",
            Outcome::FellBack => " - Memory: Priority fallback applied",
            Outcome::Failed => " - Memory: Priority change failed",
        },
        StepKind::WorkingSet => match outcome {
            Outcome::Skipped => " - Memory: Working set optimization (Disabled in config)",
            Outcome::Applied => " - Memory: Working set optimized (expanded to 512MB-2GB)",
            Outcome::FellBack => " - Memory: Working set fallback applied",
            Outcome::Failed => " - Memory: Working set expansion failed",
        },
        StepKind::Throttling => match outcome {
            Outcome::Skipped => " - Power: Throttling (Skipping)",
            Outcome::Applied => " - Power: Throttling (Disabled)",
            Outcome::FellBack => " - Power: Throttling (Fallback applied)",
            Outcome::Failed => " - Power: Throttling (Failed)",
        },
        StepKind::IoPriority => match outcome {
            Outcome::Skipped => " - I/O: Priority (Skipped)",
            Outcome::Applied => " - I/O: Priority set to High (Auto)",
            Outcome::FellBack => " - I/O: Priority fallback applied",
            Outcome::Failed => " - I/O: Priority change failed",
        },
        StepKind::SleepPrevention => match outcome {
            Outcome::Skipped => " - Power: Sleep/Idle prevention (Disabled)",
            Outcome::Applied => " - Power: Sleep/Idle prevention (Enabled)",
            Outcome::FellBack => " - Power: Sleep/Idle prevention (Fallback applied)",
            Outcome::Failed => " - Power: Sleep/Idle prevention (Failed)",
        },
        StepKind::SchedulingClass => match outcome {
            Outcome::Skipped => " - MMCSS: Registration (Skipped)",
            Outcome::Applied => " - MMCSS: Registered successfully",
            Outcome::FellBack => " - MMCSS: Fallback applied",
            Outcome::Failed => " - MMCSS: Registration failed (Service might be disabled)",
        },
    }
}

impl LogLine {
    /// The text of the line.
    pub fn text(&self) -> (text: String)
        ensures
            text@ == line_text(*self),
    {
        match self {
            LogLine::WaitingForWindow => String::from_str("Waiting for game window..."),
            LogLine::WindowDetected => String::from_str(" - Success: Game window detected."),
            LogLine::WaitTimedOut => String::from_str(
                " - Warning: SmartWait timeout (40s). Proceeding anyway.",
            ),
            LogLine::Initializing => String::from_str("Initializing performance adjustments v1.0..."),
            LogLine::AllApplied => String::from_str("=== All optimizations applied successfully! ==="),
            LogLine::Registered { profile, task_index } => {
                let mut text = String::from_str(" - MMCSS: Registered as '");
                text.append(profile.as_str());
                text.append("' successfully (Task index ");
                push_digits(&mut text, *task_index as u64, 10);
                text.append(")");
                text
            },
            LogLine::Step { kind, outcome } => {
                let mut text = String::from_str(phrase(*kind, *outcome));
                match (kind, outcome) {
                    (StepKind::Priority { level }, Outcome::Applied) => {
                        text.append(" (Level ");
                        push_digits(&mut text, *level as u64, 10);
                        text.append(")");
                    },
                    (StepKind::Affinity { mask, cores }, Outcome::Applied) => {
                        text.append(" (");
                        push_digits(&mut text, *mask, 16);
                        text.append(") for ");
                        push_digits(&mut text, *cores as u64, 10);
                        text.append(" cores");
                    },
                    _ => {},
                }
                text
            },
        }
    }

    /// The line as it stands in the log: the prefix, the text, and the end
    /// of the line.
    pub fn record(&self) -> (record: String)
        ensures
            record@ == record_prefix() + line_text(*self) + seq!['\n'],
    {
        let mut record = String::from_str("[ER Performance] ");
        let text = self.text();
        record.append(text.as_str());
        proof {
            reveal_strlit("\n");
        }
        record.append("\n");
        assert("\n"@ =~= seq!['\n']);
        record
    }
}

/// The text to which the log is reset when the agent is loaded.
pub open spec fn log_header_text() -> Seq<char> {
    "=== Elden Ring Performance Tweaks v1.0 Initialized ===\n"@
}

/// The text to which the log is reset when the agent is loaded.
pub fn log_header() -> (header: String)
    ensures
        header@ == log_header_text(),
{
    String::from_str("=== Elden Ring Performance Tweaks v1.0 Initialized ===\n")
}

} // verus!
