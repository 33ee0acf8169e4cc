//! The agent: the wait for the target, the pause that follows it, and the
//! tuning pipeline, one after the other.

use vstd::prelude::*;
use crate::acquire::{
    candidate_titles_of, initial_wait, next_wait, title_texts, Acquisition, AcquisitionResult,
    WaitState,
};
use crate::config::Config;
use crate::flags::{dll_process_attach, dll_process_detach, HOOK_ATTACH, HOOK_DETACH, TIMER_LEGACY_PERIOD};
use crate::pipeline::{
    initial_state, next, pipeline_replies, pipeline_script, run, lemma_pipeline_conforms, Pipeline,
    PipelineState,
};
use crate::port::{Action, OsCall, Pause, Reply};

verus! {

/// Seconds to let pass between the end of the wait and the first step, so
/// that the tuning does not race the target's own start.
pub const SETTLE_SECS: u64 = 1;

/// Which part of its run the agent is in.
#[derive(Clone, Copy, Debug, PartialEq, Eq)]
pub enum Stage {
    /// Nothing has been asked for yet.
    Start,
    /// The wait for the target goes on.
    Acquiring,
    /// The pause before the pipeline was asked for, or the pipeline runs.
    Tuning,
}

/// The state of an agent, as contracts see it.
pub struct AgentState {
    /// Which part of its run the agent is in.
    pub stage: Stage,
    /// Whether the agent waits for the target's window.
    pub smart_wait: bool,
    /// Seconds to let pass instead, where it does not.
    pub init_delay: u64,
    /// The wait.
    pub wait: WaitState,
    /// The pipeline.
    pub pipeline: PipelineState,
}

/// The agent.
pub struct Agent {
    stage: Stage,
    smart_wait: bool,
    init_delay: u64,
    wait: Acquisition,
    pipeline: Pipeline,
}

impl View for Agent {
    type V = AgentState;

    closed spec fn view(&self) -> AgentState {
        AgentState {
            stage: self.stage,
            smart_wait: self.smart_wait,
            init_delay: self.init_delay,
            wait: self.wait@,
            pipeline: self.pipeline@,
        }
    }
}

/// The pause between the wait and the pipeline.
pub open spec fn settle_pause() -> Pause {
    Pause { secs: SETTLE_SECS, millis: 0 }
}

/// The pause before the pipeline where the agent does not wait for the
/// target.
pub open spec fn fixed_pause(init_delay: u64) -> Pause {
    Pause { secs: init_delay, millis: 0 }
}

/// What the agent asks for while it waits: what the wait asks for, and the
/// settle pause in place of the wait's end, whichever way the wait ended.
pub open spec fn waiting(s: AgentState, reply: Reply) -> (AgentState, Action) {
    let (wait, action) = next_wait(s.wait, reply);
    if action is Finish {
        (AgentState { stage: Stage::Tuning, wait, ..s }, Action::Sleep(settle_pause()))
    } else {
        (AgentState { stage: Stage::Acquiring, wait, ..s }, action)
    }
}

/// The transition of the agent: the state it moves to and the request it
/// makes, given the reply to its last request.
///
/// Where the smart wait is on, the agent waits for the target, lets the
/// settle pause pass and runs the pipeline. Where it is off, the agent
/// lets the configured delay pass and runs the pipeline. The pipeline
/// does not begin before the pause was asked for.
pub open spec fn next_agent(s: AgentState, reply: Reply) -> (AgentState, Action) {
    match s.stage {
        Stage::Start => {
            if s.smart_wait {
                waiting(s, reply)
            } else {
                (AgentState { stage: Stage::Tuning, ..s }, Action::Sleep(fixed_pause(s.init_delay)))
            }
        },
        Stage::Acquiring => waiting(s, reply),
        Stage::Tuning => {
            let (pipeline, action) = next(s.pipeline, reply);
            (AgentState { pipeline, ..s }, action)
        },
    }
}

impl Agent {
    /// An agent for a configuration and the number of logical processors
    /// the machine reports, before its first request.
    pub fn new(config: &Config, processors: u32) -> (agent: Agent)
        ensures
            agent@.stage is Start,
            agent@.smart_wait == config.smart_wait,
            agent@.init_delay == config.init_delay,
            agent@.wait == initial_wait(agent@.wait.titles),
            title_texts(agent@.wait.titles) == candidate_titles_of(config.window_title@),
            agent@.wait.titles.len() == candidate_titles_of(config.window_title@).len(),
            agent@.pipeline == initial_state(*config, processors),
    {
        Agent {
            stage: Stage::Start,
            smart_wait: config.smart_wait,
            init_delay: config.init_delay,
            wait: Acquisition::new(config.window_title.as_str()),
            pipeline: Pipeline::new(config, processors),
        }
    }

    /// Takes the reply to the last request and makes the next one. The
    /// reply to the first call is not read.
    pub fn advance(&mut self, reply: Reply) -> (action: Action)
        ensures
            (final(self)@, action) == next_agent(old(self)@, reply),
    {
        match self.stage {
            Stage::Tuning => self.pipeline.advance(reply),
            Stage::Start => {
                if self.smart_wait {
                    self.advance_wait(reply)
                } else {
                    self.stage = Stage::Tuning;
                    Action::Sleep(Pause { secs: self.init_delay, millis: 0 })
                }
            },
            Stage::Acquiring => self.advance_wait(reply),
        }
    }

    fn advance_wait(&mut self, reply: Reply) -> (action: Action)
        ensures
            (final(self)@, action) == waiting(old(self)@, reply),
    {
        let action = self.wait.advance(reply);
        match action {
            Action::Finish => {
                self.stage = Stage::Tuning;
                Action::Sleep(Pause { secs: SETTLE_SECS, millis: 0 })
            },
            _ => {
                self.stage = Stage::Acquiring;
                action
            },
        }
    }

    /// How the wait for the target ended; `None` while it has not, and
    /// where the agent does not wait at all.
    pub fn acquisition(&self) -> (result: Option<AcquisitionResult>)
        ensures
            result == self@.wait.result,
    {
        self.wait.result()
    }

    /// Whether the agent has nothing left to ask for.
    pub fn is_finished(&self) -> (finished: bool)
        ensures
            finished == (self@.stage is Tuning && self@.pipeline.phase is Finished),
    {
        match self.stage {
            Stage::Tuning => self.pipeline.is_finished(),
            _ => false,
        }
    }

    /// Whether a legacy timer period was reserved, to be given back when
    /// the agent is unloaded.
    pub fn timer_reserved(&self) -> (held: bool)
        ensures
            held == self@.pipeline.timer_reserved,
    {
        self.pipeline.timer_reserved()
    }
}

/// The requests the agent makes, and the state it is left in, where it is
/// handed the given replies one after the other.
pub open spec fn run_agent(s: AgentState, replies: Seq<Reply>) -> (AgentState, Seq<Action>)
    decreases replies.len(),
{
    if replies.len() == 0 {
        (s, Seq::empty())
    } else {
        let (t, action) = next_agent(s, replies[0]);
        let (u, actions) = run_agent(t, replies.drop_first());
        (u, seq![action] + actions)
    }
}

/// The wait is over before the pipeline begins: as long as the agent has
/// not asked for the pause that ends its first part, the pipeline stands
/// where it started, and the request with which the agent leaves that
/// part is the pause and nothing of the pipeline.
pub proof fn lemma_pipeline_waits_its_turn(s: AgentState, reply: Reply)
    requires
        !(s.stage is Tuning),
    ensures
        next_agent(s, reply).0.pipeline == s.pipeline,
        next_agent(s, reply).0.stage is Tuning ==> next_agent(s, reply).1 is Sleep,
        next_agent(s, reply).0.stage is Tuning && s.smart_wait ==> next_agent(s, reply).1
            == Action::Sleep(settle_pause()),
        s.stage is Start && !s.smart_wait ==> next_agent(s, reply) == (
            AgentState { stage: Stage::Tuning, ..s },
            Action::Sleep(fixed_pause(s.init_delay)),
        ),
{
}

/// Once the pause is asked for, the agent asks for what the pipeline asks
/// for, and nothing else.
pub proof fn lemma_tuning_runs_pipeline(s: AgentState, replies: Seq<Reply>)
    requires
        s.stage is Tuning,
    ensures
        run_agent(s, replies) == (
            AgentState { pipeline: run(s.pipeline, replies).0, ..s },
            run(s.pipeline, replies).1,
        ),
    decreases replies.len(),
{
    if replies.len() > 0 {
        lemma_tuning_runs_pipeline(next_agent(s, replies[0]).0, replies.drop_first());
    }
}

/// Without the smart wait the agent asks for the configured delay, be it
/// of no seconds at all, and then for the whole script of the pipeline,
/// from its opening line to its end.
pub proof fn lemma_fixed_delay_run(
    s: AgentState,
    config: Config,
    processors: u32,
    env: Seq<(Reply, Reply)>,
    quiet: Reply,
)
    requires
        s.stage is Start,
        !s.smart_wait,
        s.pipeline == initial_state(config, processors),
    ensures
        run_agent(s, seq![quiet] + pipeline_replies(config, processors, env, quiet)).1 == seq![
            Action::Sleep(fixed_pause(s.init_delay)),
        ] + pipeline_script(config, processors, env),
{
    let replies = pipeline_replies(config, processors, env, quiet);
    let t = AgentState { stage: Stage::Tuning, ..s };
    assert((seq![quiet] + replies).drop_first() =~= replies);
    lemma_tuning_runs_pipeline(t, replies);
    lemma_pipeline_conforms(config, processors, env, quiet);
}

/// What the host tells the agent through its hook.
#[derive(Clone, Copy, Debug, PartialEq, Eq)]
pub enum HookEvent {
    /// The agent was loaded: the log is reset and the agent starts.
    Attached,
    /// The agent is unloaded: what it holds is given back.
    Detached,
    /// Anything else; the agent does not react.
    Other,
}

/// Spec form of [`hook_event`].
pub open spec fn hook_event_of(reason: u32) -> HookEvent {
    if reason == HOOK_ATTACH {
        HookEvent::Attached
    } else if reason == HOOK_DETACH {
        HookEvent::Detached
    } else {
        HookEvent::Other
    }
}

/// Reads the reason code with which the host calls the hook.
pub fn hook_event(reason: u32) -> (event: HookEvent)
    ensures
        event == hook_event_of(reason),
{
    if reason == dll_process_attach() {
        HookEvent::Attached
    } else if reason == dll_process_detach() {
        HookEvent::Detached
    } else {
        HookEvent::Other
    }
}

/// What to ask of the operating system when the agent is unloaded: the
/// legacy timer period is given back if it was reserved, and only then.
pub fn release_on_detach(timer_reserved: bool) -> (call: Option<OsCall>)
    ensures
        call == if timer_reserved {
            Some(OsCall::EndTimerPeriod { millis: TIMER_LEGACY_PERIOD })
        } else {
            None
        },
{
    if timer_reserved {
        Some(OsCall::EndTimerPeriod { millis: TIMER_LEGACY_PERIOD })
    } else {
        None
    }
}

} // verus!
