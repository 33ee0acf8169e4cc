//! The tuning pipeline: a machine that asks for one thing at a time and
//! takes the reply to it before it asks for the next.
//!
//! The line of every step is asked for whether or not logging is enabled
//! in the configuration: that option governs the completion signal alone,
//! the closing line and the tone.

use vstd::prelude::*;
use crate::config::Config;
use crate::flags::BEEP_EXCLAMATION;
use crate::logline::LogLine;
use crate::port::{call_succeeded, Action, OsCall, Reply};
use crate::steps::{plan, plan_of, step_reserves_timer, step_script, TuningStep};

verus! {

/// Where the pipeline stands between two requests.
#[derive(Clone, Copy, Debug, PartialEq, Eq)]
pub enum Phase {
    /// Nothing has been asked for yet.
    Opening,
    /// The last request is dealt with; the step under the cursor is next.
    Ready,
    /// The action of the step under the cursor was asked for.
    Primary,
    /// The fallback of the step under the cursor was asked for.
    Fallback,
    /// The closing line was asked for; the tone is next.
    Closing,
    /// The tone was asked for.
    Signalled,
    /// The pipeline is over.
    Finished,
}

/// The state of a pipeline, as contracts see it.
pub struct PipelineState {
    /// The steps, in the order in which they run.
    pub steps: Seq<TuningStep>,
    /// How many steps are over.
    pub cursor: nat,
    /// Where the pipeline stands.
    pub phase: Phase,
    /// Whether the completion signal is given at the end.
    pub announce: bool,
    /// Whether a legacy timer period was reserved and is still held.
    pub timer_reserved: bool,
}

/// The tuning pipeline.
pub struct Pipeline {
    steps: Vec<TuningStep>,
    cursor: usize,
    phase: Phase,
    announce: bool,
    timer_reserved: bool,
}

impl View for Pipeline {
    type V = PipelineState;

    closed spec fn view(&self) -> PipelineState {
        PipelineState {
            steps: self.steps@,
            cursor: self.cursor as nat,
            phase: self.phase,
            announce: self.announce,
            timer_reserved: self.timer_reserved,
        }
    }
}

/// The state in which a pipeline starts.
pub open spec fn initial_state(config: Config, processors: u32) -> PipelineState {
    PipelineState {
        steps: plan_of(config, processors),
        cursor: 0,
        phase: Phase::Opening,
        announce: config.enable_logging,
        timer_reserved: false,
    }
}

/// The request with which the pipeline ends its steps: the closing line
/// where the completion signal is to be given, the end otherwise.
pub open spec fn close(s: PipelineState) -> (PipelineState, Action) {
    if s.announce {
        (PipelineState { phase: Phase::Closing, ..s }, Action::Log(LogLine::AllApplied))
    } else {
        (PipelineState { phase: Phase::Finished, ..s }, Action::Finish)
    }
}

/// The state after the step under the cursor is over.
pub open spec fn step_over(s: PipelineState) -> PipelineState {
    PipelineState { cursor: s.cursor + 1, phase: Phase::Ready, ..s }
}

/// What the step under the cursor asks for, given where it stands and
/// the reply to what it asked for last.
pub open spec fn within_step(s: PipelineState, reply: Reply) -> (PipelineState, Action)
    recommends
        s.cursor < s.steps.len(),
{
    let step = s.steps[s.cursor as int];
    match s.phase {
        Phase::Primary => {
            if call_succeeded(step.action, reply.value) {
                (step_over(s), Action::Log(step.applied_line_of(reply.extra)))
            } else {
                match step.fallback {
                    Some(call) => (PipelineState { phase: Phase::Fallback, ..s }, Action::Call(call)),
                    None => (step_over(s), Action::Log(step.failed_line_of())),
                }
            }
        },
        Phase::Fallback => {
            match step.fallback {
                Some(call) => {
                    if call_succeeded(call, reply.value) {
                        (
                            PipelineState {
                                timer_reserved: s.timer_reserved || call is BeginTimerPeriod,
                                ..step_over(s)
                            },
                            Action::Log(step.fell_back_line_of()),
                        )
                    } else {
                        (step_over(s), Action::Log(step.failed_line_of()))
                    }
                },
                None => (step_over(s), Action::Log(step.failed_line_of())),
            }
        },
        _ => {
            if step.enabled {
                (PipelineState { phase: Phase::Primary, ..s }, Action::Call(step.action))
            } else {
                (step_over(s), Action::Log(step.skipped_line_of()))
            }
        },
    }
}

/// The transition of the pipeline: the state it moves to and the request
/// it makes, given the reply to its last request.
///
/// It opens with a line that says so. Each step that is switched off is
/// one line and nothing else. Each step that is switched on is its call
/// and then one line: of success where the call succeeded; else the
/// fallback call, where the step has one, and then one line that says
/// whether the fallback holds; else a line of failure. A step's failure
/// never keeps the next step from running. After the last step come the
/// closing line and the tone, where the completion signal is to be given,
/// and then the end.
pub open spec fn next(s: PipelineState, reply: Reply) -> (PipelineState, Action) {
    match s.phase {
        Phase::Opening => (PipelineState { phase: Phase::Ready, ..s }, Action::Log(LogLine::Initializing)),
        Phase::Closing => (
            PipelineState { phase: Phase::Signalled, ..s },
            Action::Call(OsCall::Beep { sound: BEEP_EXCLAMATION }),
        ),
        Phase::Signalled => (PipelineState { phase: Phase::Finished, ..s }, Action::Finish),
        Phase::Finished => (s, Action::Finish),
        _ => {
            if s.cursor < s.steps.len() {
                within_step(s, reply)
            } else {
                close(s)
            }
        },
    }
}

impl Pipeline {
    /// A pipeline for a configuration and the number of logical
    /// processors the machine reports, before its first request.
    pub fn new(config: &Config, processors: u32) -> (pipeline: Pipeline)
        ensures
            pipeline@ == initial_state(*config, processors),
    {
        Pipeline {
            steps: plan(config, processors),
            cursor: 0,
            phase: Phase::Opening,
            announce: config.enable_logging,
            timer_reserved: false,
        }
    }

    /// Whether the pipeline is over.
    pub fn is_finished(&self) -> (finished: bool)
        ensures
            finished == (self@.phase is Finished),
    {
        match self.phase {
            Phase::Finished => true,
            _ => false,
        }
    }

    /// Whether a legacy timer period was reserved, to be given back when
    /// the agent is unloaded.
    pub fn timer_reserved(&self) -> (held: bool)
        ensures
            held == self@.timer_reserved,
    {
        self.timer_reserved
    }

    /// Takes the reply to the last request and makes the next one. The
    /// reply to the first call is not read.
    pub fn advance(&mut self, reply: Reply) -> (action: Action)
        ensures
            (final(self)@, action) == next(old(self)@, reply),
    {
        match self.phase {
            Phase::Opening => {
                self.phase = Phase::Ready;
                Action::Log(LogLine::Initializing)
            },
            Phase::Closing => {
                self.phase = Phase::Signalled;
                Action::Call(OsCall::Beep { sound: BEEP_EXCLAMATION })
            },
            Phase::Signalled => {
                self.phase = Phase::Finished;
                Action::Finish
            },
            Phase::Finished => Action::Finish,
            Phase::Primary => {
                if self.cursor < self.steps.len() {
                    let step = &self.steps[self.cursor];
                    if step.action.succeeded(reply.value) {
                        let line = step.applied_line(reply.extra);
                        self.cursor = self.cursor + 1;
                        self.phase = Phase::Ready;
                        Action::Log(line)
                    } else {
                        match &step.fallback {
                            Some(call) => {
                                let call = call.clone();
                                self.phase = Phase::Fallback;
                                Action::Call(call)
                            },
                            None => {
                                let line = step.failed_line();
                                self.cursor = self.cursor + 1;
                                self.phase = Phase::Ready;
                                Action::Log(line)
                            },
                        }
                    }
                } else {
                    self.finish_steps()
                }
            },
            Phase::Fallback => {
                if self.cursor < self.steps.len() {
                    let step = &self.steps[self.cursor];
                    let (line, reserved) = match &step.fallback {
                        Some(call) => {
                            if call.succeeded(reply.value) {
                                let reserved = match call {
                                    OsCall::BeginTimerPeriod { .. } => true,
                                    _ => false,
                                };
                                (step.fell_back_line(), reserved)
                            } else {
                                (step.failed_line(), false)
                            }
                        },
                        None => (step.failed_line(), false),
                    };
                    self.timer_reserved = self.timer_reserved || reserved;
                    self.cursor = self.cursor + 1;
                    self.phase = Phase::Ready;
                    Action::Log(line)
                } else {
                    self.finish_steps()
                }
            },
            Phase::Ready => {
                if self.cursor < self.steps.len() {
                    let step = &self.steps[self.cursor];
                    if step.enabled {
                        let call = step.action.clone();
                        self.phase = Phase::Primary;
                        Action::Call(call)
                    } else {
                        let line = step.skipped_line();
                        self.cursor = self.cursor + 1;
                        self.phase = Phase::Ready;
                        Action::Log(line)
                    }
                } else {
                    self.finish_steps()
                }
            },
        }
    }

    fn finish_steps(&mut self) -> (action: Action)
        ensures
            (final(self)@, action) == close(old(self)@),
    {
        if self.announce {
            self.phase = Phase::Closing;
            Action::Log(LogLine::AllApplied)
        } else {
            self.phase = Phase::Finished;
            Action::Finish
        }
    }
}

/// The requests the pipeline makes, and the state it is left in, where it
/// is handed the given replies one after the other.
pub open spec fn run(s: PipelineState, replies: Seq<Reply>) -> (PipelineState, Seq<Action>)
    decreases replies.len(),
{
    if replies.len() == 0 {
        (s, Seq::empty())
    } else {
        let (t, action) = next(s, replies[0]);
        let (u, actions) = run(t, replies.drop_first());
        (u, seq![action] + actions)
    }
}

/// Handing over two runs of replies one after the other is handing over
/// the first and then, from where that leaves the pipeline, the second.
pub proof fn lemma_run_concat(s: PipelineState, a: Seq<Reply>, b: Seq<Reply>)
    ensures
        run(s, a + b) == (run(run(s, a).0, b).0, run(s, a).1 + run(run(s, a).0, b).1),
    decreases a.len(),
{
    if a.len() == 0 {
        assert(a + b =~= b);
        assert(run(s, a).1 + run(s, b).1 =~= run(s, b).1);
    } else {
        let (t, action) = next(s, a[0]);
        assert((a + b).drop_first() =~= a.drop_first() + b);
        lemma_run_concat(t, a.drop_first(), b);
        assert(seq![action] + (run(t, a.drop_first()).1 + run(run(s, a).0, b).1) =~= run(s, a).1
            + run(run(s, a).0, b).1);
    }
}

/// The replies the pipeline is handed while a step runs: `quiet`, the
/// reply to the line before the step, which nothing reads; then the reply
/// to the step's action and the reply to its fallback, as far as the step
/// asks for them.
pub open spec fn step_replies(step: TuningStep, quiet: Reply, first: Reply, second: Reply) -> Seq<
    Reply,
> {
    seq![quiet, first, second].take(step_script(step, first, second).len() as int)
}

/// From where a step is next, the pipeline asks for exactly what the step's
/// script holds, and is then where the step after it is next.
pub proof fn lemma_step_conforms(s: PipelineState, quiet: Reply, first: Reply, second: Reply)
    requires
        s.phase is Ready,
        s.cursor < s.steps.len(),
    ensures
        run(s, step_replies(s.steps[s.cursor as int], quiet, first, second)) == (
            PipelineState {
                timer_reserved: s.timer_reserved || step_reserves_timer(
                    s.steps[s.cursor as int],
                    first,
                    second,
                ),
                ..step_over(s)
            },
            step_script(s.steps[s.cursor as int], first, second),
        ),
{
    let step = s.steps[s.cursor as int];
    let replies = step_replies(step, quiet, first, second);
    let script = step_script(step, first, second);
    reveal_with_fuel(run, 4);
    let (s1, a1) = next(s, quiet);
    assert(replies[0] == quiet);
    if script.len() == 1 {
        assert(replies.drop_first() =~= Seq::<Reply>::empty());
        assert(run(s, replies).1 =~= script);
    } else {
        let (s2, a2) = next(s1, first);
        assert(replies.drop_first()[0] == first);
        if script.len() == 2 {
            assert(replies.drop_first().drop_first() =~= Seq::<Reply>::empty());
            assert(run(s, replies).1 =~= script);
        } else {
            let (s3, a3) = next(s2, second);
            assert(replies.drop_first().drop_first()[0] == second);
            assert(replies.drop_first().drop_first().drop_first() =~= Seq::<Reply>::empty());
            assert(run(s, replies).1 =~= script);
        }
    }
}

/// What the steps from place `from` on ask for, in order, where `env`
/// holds for each step the reply to its action and the reply to its
/// fallback.
pub open spec fn steps_script(steps: Seq<TuningStep>, env: Seq<(Reply, Reply)>, from: int) -> Seq<
    Action,
>
    decreases steps.len() - from,
{
    if from < 0 || from >= steps.len() {
        Seq::empty()
    } else {
        step_script(steps[from], env[from].0, env[from].1) + steps_script(steps, env, from + 1)
    }
}

/// The replies the pipeline is handed while the steps from place `from`
/// on run.
pub open spec fn steps_replies(
    steps: Seq<TuningStep>,
    env: Seq<(Reply, Reply)>,
    quiet: Reply,
    from: int,
) -> Seq<Reply>
    decreases steps.len() - from,
{
    if from < 0 || from >= steps.len() {
        Seq::empty()
    } else {
        step_replies(steps[from], quiet, env[from].0, env[from].1) + steps_replies(
            steps,
            env,
            quiet,
            from + 1,
        )
    }
}

/// Whether a legacy timer period is held after the steps from place `from`
/// on, where `held` says whether one was held before them.
pub open spec fn timer_reserved_after(
    steps: Seq<TuningStep>,
    env: Seq<(Reply, Reply)>,
    from: int,
    held: bool,
) -> bool
    decreases steps.len() - from,
{
    if from < 0 || from >= steps.len() {
        held
    } else {
        timer_reserved_after(
            steps,
            env,
            from + 1,
            held || step_reserves_timer(steps[from], env[from].0, env[from].1),
        )
    }
}

/// From where a step is next, the pipeline asks for what the scripts of
/// that step and of every later step hold, one script after the other in
/// the order of the steps, and is then past the last step.
pub proof fn lemma_steps_conform(s: PipelineState, env: Seq<(Reply, Reply)>, quiet: Reply)
    requires
        s.phase is Ready,
        s.cursor <= s.steps.len(),
    ensures
        run(s, steps_replies(s.steps, env, quiet, s.cursor as int)) == (
            PipelineState {
                cursor: s.steps.len(),
                timer_reserved: timer_reserved_after(
                    s.steps,
                    env,
                    s.cursor as int,
                    s.timer_reserved,
                ),
                ..s
            },
            steps_script(s.steps, env, s.cursor as int),
        ),
    decreases s.steps.len() - s.cursor,
{
    if s.cursor < s.steps.len() {
        let from = s.cursor as int;
        let step = s.steps[from];
        let here = step_replies(step, quiet, env[from].0, env[from].1);
        let later = steps_replies(s.steps, env, quiet, from + 1);
        lemma_step_conforms(s, quiet, env[from].0, env[from].1);
        let t = run(s, here).0;
        lemma_steps_conform(t, env, quiet);
        lemma_run_concat(s, here, later);
    }
}

/// What the pipeline asks for after its last step: the closing line, the
/// tone and the end where the completion signal is to be given, and the
/// end alone where it is not.
pub open spec fn closing_script(announce: bool) -> Seq<Action> {
    if announce {
        seq![
            Action::Log(LogLine::AllApplied),
            Action::Call(OsCall::Beep { sound: BEEP_EXCLAMATION }),
            Action::Finish,
        ]
    } else {
        seq![Action::Finish]
    }
}

/// Everything the pipeline asks for, from its opening line to its end.
pub open spec fn pipeline_script(config: Config, processors: u32, env: Seq<(Reply, Reply)>) -> Seq<
    Action,
> {
    seq![Action::Log(LogLine::Initializing)] + steps_script(plan_of(config, processors), env, 0)
        + closing_script(config.enable_logging)
}

/// The replies the pipeline is handed from its first request to its end:
/// `quiet` wherever the reply is to a line, to the tone or to nothing,
/// and for each call of a step the reply to it that `env` holds.
pub open spec fn pipeline_replies(
    config: Config,
    processors: u32,
    env: Seq<(Reply, Reply)>,
    quiet: Reply,
) -> Seq<Reply> {
    seq![quiet] + steps_replies(plan_of(config, processors), env, quiet, 0) + Seq::new(
        closing_script(config.enable_logging).len(),
        |i: int| quiet,
    )
}

/// A pipeline runs its script: the opening line, every step in the order
/// of the plan whatever became of the steps before it, and the closing.
/// It ends after that and holds a legacy timer period exactly where the
/// fallback of the timer step reserved one.
pub proof fn lemma_pipeline_conforms(
    config: Config,
    processors: u32,
    env: Seq<(Reply, Reply)>,
    quiet: Reply,
)
    ensures
        run(initial_state(config, processors), pipeline_replies(config, processors, env, quiet)).1
            == pipeline_script(config, processors, env),
        run(initial_state(config, processors), pipeline_replies(config, processors, env, quiet)).0
            == (PipelineState {
            cursor: plan_of(config, processors).len(),
            phase: Phase::Finished,
            timer_reserved: timer_reserved_after(plan_of(config, processors), env, 0, false),
            ..initial_state(config, processors)
        }),
{
    let s0 = initial_state(config, processors);
    let steps = plan_of(config, processors);
    let opening = seq![quiet];
    let middle = steps_replies(steps, env, quiet, 0);
    let closing = Seq::new(closing_script(config.enable_logging).len(), |i: int| quiet);
    reveal_with_fuel(run, 4);
    let s1 = PipelineState { phase: Phase::Ready, ..s0 };
    assert(opening.drop_first() =~= Seq::<Reply>::empty());
    assert(run(s0, opening) == (s1, seq![Action::Log(LogLine::Initializing)])) by {
        assert(seq![Action::Log(LogLine::Initializing)] + Seq::<Action>::empty() =~= seq![
            Action::Log(LogLine::Initializing),
        ]);
    }
    lemma_steps_conform(s1, env, quiet);
    let s2 = run(s1, middle).0;
    assert(run(s2, closing).1 =~= closing_script(config.enable_logging) && run(s2, closing).0 == (
    PipelineState { phase: Phase::Finished, ..s2 })) by {
        if config.enable_logging {
            assert(closing.drop_first().drop_first().drop_first() =~= Seq::<Reply>::empty());
        } else {
            assert(closing.drop_first() =~= Seq::<Reply>::empty());
        }
    }
    lemma_run_concat(s1, middle, closing);
    lemma_run_concat(s0, opening, middle + closing);
    assert(opening + (middle + closing) =~= pipeline_replies(config, processors, env, quiet));
    assert(seq![Action::Log(LogLine::Initializing)] + (steps_script(steps, env, 0)
        + closing_script(config.enable_logging)) =~= pipeline_script(config, processors, env));
}

} // verus!
