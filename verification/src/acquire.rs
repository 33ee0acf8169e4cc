//! Target acquisition: the wait for the window of the target.
//!
//! The wait probes every candidate title in turn, lets a polling interval
//! pass and probes again, until a window is there or the time is up. It
//! cannot fail: both ends lead on to the tuning.

use vstd::prelude::*;
use crate::logline::LogLine;
use crate::port::{Action, Pause, Reply};

verus! {

/// Milliseconds between two rounds of probes.
pub const POLL_INTERVAL_MS: u32 = 500;

/// Milliseconds after which the wait gives up.
pub const WAIT_BUDGET_MS: u64 = 40_000;

/// How the wait ended.
#[derive(Clone, Copy, Debug, PartialEq, Eq)]
pub enum AcquisitionResult {
    /// A window with one of the candidate titles is there.
    Found,
    /// The time ran out before any candidate matched.
    TimedOut,
}

/// The titles to probe, in the order in which each round probes them: the
/// custom title first, where there is one, then the two built-in titles.
pub open spec fn candidate_titles_of(custom: Seq<char>) -> Seq<Seq<char>> {
    if custom.len() == 0 {
        seq!["ELDEN RING"@, "ELDEN RING™"@]
    } else {
        seq![custom, "ELDEN RING"@, "ELDEN RING™"@]
    }
}

/// A custom title stands before the two built-in titles, and without one
/// the two built-in titles are all there is.
pub proof fn lemma_custom_title_first(custom: Seq<char>)
    ensures
        custom.len() > 0 ==> candidate_titles_of(custom) == seq![
            custom,
            "ELDEN RING"@,
            "ELDEN RING™"@,
        ],
        custom.len() == 0 ==> candidate_titles_of(custom) == seq!["ELDEN RING"@, "ELDEN RING™"@],
{
}

/// The texts of a list of titles.
pub open spec fn title_texts(titles: Seq<String>) -> Seq<Seq<char>> {
    Seq::new(titles.len(), |i: int| titles[i]@)
}

/// Builds the list of titles to probe from the custom title, which is
/// empty where there is none.
pub fn candidate_titles(custom: &str) -> (titles: Vec<String>)
    ensures
        title_texts(titles@) == candidate_titles_of(custom@),
        titles@.len() == candidate_titles_of(custom@).len(),
        titles@.len() >= 2,
{
    let mut titles: Vec<String> = Vec::new();
    if !custom.is_empty() {
        titles.push(String::from_str(custom));
    }
    titles.push(String::from_str("ELDEN RING"));
    titles.push(String::from_str("ELDEN RING™"));
    assert(title_texts(titles@) =~= candidate_titles_of(custom@));
    titles
}

/// Where the wait stands between two requests.
#[derive(Clone, Copy, Debug, PartialEq, Eq)]
pub enum WaitPhase {
    /// Nothing has been asked for yet.
    Opening,
    /// The opening line was asked for; the clock is read next.
    Announced,
    /// The clock was asked for, to note when the wait began.
    Started,
    /// The title under the cursor was probed.
    Probing,
    /// A round found nothing and the clock was asked for.
    Checking,
    /// The polling interval was asked for.
    Pausing,
    /// The line that tells how the wait ended was asked for.
    Reported,
    /// The wait is over.
    Finished,
}

/// The state of a wait, as contracts see it.
pub struct WaitState {
    /// The titles to probe, in order.
    pub titles: Seq<String>,
    /// Which title of the round was probed last.
    pub cursor: nat,
    /// The reading of the clock when the wait began.
    pub started_at: u64,
    /// Where the wait stands.
    pub phase: WaitPhase,
    /// How the wait ended, once it has.
    pub result: Option<AcquisitionResult>,
}

/// The wait for the window of the target.
pub struct Acquisition {
    titles: Vec<String>,
    cursor: usize,
    started_at: u64,
    phase: WaitPhase,
    result: Option<AcquisitionResult>,
}

impl View for Acquisition {
    type V = WaitState;

    closed spec fn view(&self) -> WaitState {
        WaitState {
            titles: self.titles@,
            cursor: self.cursor as nat,
            started_at: self.started_at,
            phase: self.phase,
            result: self.result,
        }
    }
}

/// The reading of the clock that a reply carries; a negative value reads
/// as zero.
pub open spec fn clock_of(reply: Reply) -> u64 {
    if reply.value < 0 {
        0
    } else {
        reply.value as u64
    }
}

/// The milliseconds between two readings of the clock; zero where the
/// second is not later than the first.
pub open spec fn elapsed(started_at: u64, now: u64) -> int {
    if now >= started_at {
        now - started_at
    } else {
        0
    }
}

/// Whether the time is up at a reading of the clock.
pub open spec fn budget_spent(started_at: u64, now: u64) -> bool {
    elapsed(started_at, now) >= WAIT_BUDGET_MS
}

/// The polling interval.
pub open spec fn poll_interval() -> Pause {
    Pause { secs: 0, millis: POLL_INTERVAL_MS }
}

/// The start of a round: the first title is probed. With no title at all
/// there is nothing to probe and the clock is read at once.
pub open spec fn begin_round(s: WaitState) -> (WaitState, Action) {
    if s.titles.len() > 0 {
        (WaitState { cursor: 0, phase: WaitPhase::Probing, ..s }, Action::Probe { title: s.titles[0] })
    } else {
        (WaitState { cursor: 0, phase: WaitPhase::Checking, ..s }, Action::ReadClock)
    }
}

/// The transition of the wait: the state it moves to and the request it
/// makes, given the reply to its last request.
///
/// It opens with a line that says so and notes the time. Each round then
/// probes the titles in their order, from the first on. A probe that
/// returns a window ends the wait with the line of detection. A round in
/// which no probe returns one reads the clock: if the budget is spent
/// since the wait began, the wait ends with the line of the timeout;
/// else one polling interval passes and the next round begins.
pub open spec fn next_wait(s: WaitState, reply: Reply) -> (WaitState, Action) {
    match s.phase {
        WaitPhase::Opening => (
            WaitState { phase: WaitPhase::Announced, ..s },
            Action::Log(LogLine::WaitingForWindow),
        ),
        WaitPhase::Announced => (WaitState { phase: WaitPhase::Started, ..s }, Action::ReadClock),
        WaitPhase::Started => begin_round(WaitState { started_at: clock_of(reply), ..s }),
        WaitPhase::Pausing => begin_round(s),
        WaitPhase::Probing => {
            if reply.value != 0 {
                (
                    WaitState {
                        phase: WaitPhase::Reported,
                        result: Some(AcquisitionResult::Found),
                        ..s
                    },
                    Action::Log(LogLine::WindowDetected),
                )
            } else if s.cursor + 1 < s.titles.len() {
                (
                    WaitState { cursor: s.cursor + 1, ..s },
                    Action::Probe { title: s.titles[s.cursor as int + 1] },
                )
            } else {
                (WaitState { phase: WaitPhase::Checking, ..s }, Action::ReadClock)
            }
        },
        WaitPhase::Checking => {
            if budget_spent(s.started_at, clock_of(reply)) {
                (
                    WaitState {
                        phase: WaitPhase::Reported,
                        result: Some(AcquisitionResult::TimedOut),
                        ..s
                    },
                    Action::Log(LogLine::WaitTimedOut),
                )
            } else {
                (WaitState { phase: WaitPhase::Pausing, ..s }, Action::Sleep(poll_interval()))
            }
        },
        WaitPhase::Reported => (WaitState { phase: WaitPhase::Finished, ..s }, Action::Finish),
        WaitPhase::Finished => (s, Action::Finish),
    }
}

/// The state in which a wait starts.
pub open spec fn initial_wait(titles: Seq<String>) -> WaitState {
    WaitState { titles, cursor: 0, started_at: 0, phase: WaitPhase::Opening, result: None }
}

impl Acquisition {
    /// A wait for a window with the custom title, where there is one, or
    /// with one of the built-in titles, before its first request.
    pub fn new(custom_title: &str) -> (wait: Acquisition)
        ensures
            title_texts(wait@.titles) == candidate_titles_of(custom_title@),
            wait@.titles.len() == candidate_titles_of(custom_title@).len(),
            wait@ == initial_wait(wait@.titles),
    {
        Acquisition {
            titles: candidate_titles(custom_title),
            cursor: 0,
            started_at: 0,
            phase: WaitPhase::Opening,
            result: None,
        }
    }

    /// How the wait ended; `None` while it goes on.
    pub fn result(&self) -> (result: Option<AcquisitionResult>)
        ensures
            result == self@.result,
    {
        self.result
    }

    /// Whether the wait is over.
    pub fn is_finished(&self) -> (finished: bool)
        ensures
            finished == (self@.phase is Finished),
    {
        match self.phase {
            WaitPhase::Finished => true,
            _ => false,
        }
    }

    /// Takes the reply to the last request and makes the next one. The
    /// reply to the first call is not read.
    pub fn advance(&mut self, reply: Reply) -> (action: Action)
        ensures
            (final(self)@, action) == next_wait(old(self)@, reply),
    {
        match self.phase {
            WaitPhase::Opening => {
                self.phase = WaitPhase::Announced;
                Action::Log(LogLine::WaitingForWindow)
            },
            WaitPhase::Announced => {
                self.phase = WaitPhase::Started;
                Action::ReadClock
            },
            WaitPhase::Started => {
                self.started_at = if reply.value < 0 {
                    0
                } else {
                    reply.value as u64
                };
                self.start_round()
            },
            WaitPhase::Pausing => self.start_round(),
            WaitPhase::Probing => {
                if reply.value != 0 {
                    self.phase = WaitPhase::Reported;
                    self.result = Some(AcquisitionResult::Found);
                    Action::Log(LogLine::WindowDetected)
                } else if self.cursor < self.titles.len() && self.cursor + 1 < self.titles.len() {
                    self.cursor = self.cursor + 1;
                    Action::Probe { title: self.titles[self.cursor].clone() }
                } else {
                    self.phase = WaitPhase::Checking;
                    Action::ReadClock
                }
            },
            WaitPhase::Checking => {
                let now: u64 = if reply.value < 0 {
                    0
                } else {
                    reply.value as u64
                };
                if now >= self.started_at && now - self.started_at >= WAIT_BUDGET_MS {
                    self.phase = WaitPhase::Reported;
                    self.result = Some(AcquisitionResult::TimedOut);
                    Action::Log(LogLine::WaitTimedOut)
                } else {
                    self.phase = WaitPhase::Pausing;
                    Action::Sleep(Pause { secs: 0, millis: POLL_INTERVAL_MS })
                }
            },
            WaitPhase::Reported => {
                self.phase = WaitPhase::Finished;
                Action::Finish
            },
            WaitPhase::Finished => Action::Finish,
        }
    }

    fn start_round(&mut self) -> (action: Action)
        ensures
            (final(self)@, action) == begin_round(old(self)@),
    {
        self.cursor = 0;
        if self.titles.len() > 0 {
            self.phase = WaitPhase::Probing;
            Action::Probe { title: self.titles[0].clone() }
        } else {
            self.phase = WaitPhase::Checking;
            Action::ReadClock
        }
    }
}

/// The requests the wait makes, and the state it is left in, where it is
/// handed the given replies one after the other.
pub open spec fn run_wait(s: WaitState, replies: Seq<Reply>) -> (WaitState, Seq<Action>)
    decreases replies.len(),
{
    if replies.len() == 0 {
        (s, Seq::empty())
    } else {
        let (t, action) = next_wait(s, replies[0]);
        let (u, actions) = run_wait(t, replies.drop_first());
        (u, seq![action] + actions)
    }
}

/// Handing over two runs of replies one after the other is handing over
/// the first and then, from where that leaves the wait, the second.
pub proof fn lemma_run_wait_concat(s: WaitState, a: Seq<Reply>, b: Seq<Reply>)
    ensures
        run_wait(s, a + b) == (
            run_wait(run_wait(s, a).0, b).0,
            run_wait(s, a).1 + run_wait(run_wait(s, a).0, b).1,
        ),
    decreases a.len(),
{
    if a.len() == 0 {
        assert(a + b =~= b);
        assert(run_wait(s, a).1 + run_wait(s, b).1 =~= run_wait(s, b).1);
    } else {
        let (t, action) = next_wait(s, a[0]);
        assert((a + b).drop_first() =~= a.drop_first() + b);
        lemma_run_wait_concat(t, a.drop_first(), b);
        assert(seq![action] + (run_wait(t, a.drop_first()).1 + run_wait(run_wait(s, a).0, b).1)
            =~= run_wait(s, a).1 + run_wait(run_wait(s, a).0, b).1);
    }
}

/// The probes of the titles from place `from` on, in the order of the
/// titles.
pub open spec fn probes_from(titles: Seq<String>, from: int) -> Seq<Action> {
    Seq::new(
        if 0 <= from <= titles.len() {
            (titles.len() - from) as nat
        } else {
            0
        },
        |i: int| Action::Probe { title: titles[from + i] },
    )
}

/// After a probe that found nothing, the wait probes every title that is
/// left, in order, as long as each finds nothing, and then reads the
/// clock.
pub proof fn lemma_probes_follow_in_order(s: WaitState, misses: Seq<Reply>)
    requires
        s.phase is Probing,
        s.cursor < s.titles.len(),
        misses.len() == s.titles.len() - s.cursor,
        forall|i: int| 0 <= i < misses.len() ==> (#[trigger] misses[i]).value == 0,
    ensures
        run_wait(s, misses) == (
            WaitState { cursor: (s.titles.len() - 1) as nat, phase: WaitPhase::Checking, ..s },
            probes_from(s.titles, s.cursor as int + 1) + seq![Action::ReadClock],
        ),
    decreases s.titles.len() - s.cursor,
{
    reveal_with_fuel(run_wait, 2);
    let (t, action) = next_wait(s, misses[0]);
    if s.cursor + 1 < s.titles.len() {
        lemma_probes_follow_in_order(t, misses.drop_first());
        assert(seq![action] + (probes_from(s.titles, s.cursor as int + 2) + seq![Action::ReadClock])
            =~= probes_from(s.titles, s.cursor as int + 1) + seq![Action::ReadClock]);
    } else {
        assert(misses.drop_first() =~= Seq::<Reply>::empty());
        assert(seq![action] + Seq::<Action>::empty() =~= probes_from(s.titles, s.cursor as int + 1)
            + seq![Action::ReadClock]);
    }
}

/// Every round probes the titles in their order, the first title first:
/// from the pause between two rounds, a round in which no probe finds a
/// window asks for one probe of each title, in the order of the titles,
/// and then for the clock. With a custom title that is the custom title
/// before the two built-in ones.
pub proof fn lemma_round_probes_in_order(s: WaitState, quiet: Reply, misses: Seq<Reply>)
    requires
        s.phase is Pausing,
        s.titles.len() > 0,
        misses.len() == s.titles.len(),
        forall|i: int| 0 <= i < misses.len() ==> (#[trigger] misses[i]).value == 0,
    ensures
        run_wait(s, seq![quiet] + misses) == (
            WaitState { cursor: (s.titles.len() - 1) as nat, phase: WaitPhase::Checking, ..s },
            probes_from(s.titles, 0) + seq![Action::ReadClock],
        ),
{
    let (t, action) = next_wait(s, quiet);
    assert((seq![quiet] + misses).drop_first() =~= misses);
    lemma_probes_follow_in_order(t, misses);
    assert(seq![action] + (probes_from(s.titles, 1) + seq![Action::ReadClock]) =~= probes_from(
        s.titles,
        0,
    ) + seq![Action::ReadClock]);
}

/// The wait reports a timeout on one occasion only: a round has found
/// nothing, the clock was read, and the reading lies the whole budget or
/// more after the reading with which the wait began. At any earlier
/// reading it lets one polling interval pass and goes on.
pub proof fn lemma_timeout_never_early(s: WaitState, reply: Reply)
    ensures
        next_wait(s, reply).1 == Action::Log(LogLine::WaitTimedOut) <==> (s.phase is Checking
            && elapsed(s.started_at, clock_of(reply)) >= WAIT_BUDGET_MS),
        s.phase is Checking && elapsed(s.started_at, clock_of(reply)) < WAIT_BUDGET_MS
            ==> next_wait(s, reply) == (
            WaitState { phase: WaitPhase::Pausing, ..s },
            Action::Sleep(poll_interval()),
        ),
        next_wait(s, reply).0.result == Some(AcquisitionResult::TimedOut) ==> s.result == Some(
            AcquisitionResult::TimedOut,
        ) || (s.phase is Checking && elapsed(s.started_at, clock_of(reply)) >= WAIT_BUDGET_MS),
{
}

/// A reply without a window and without anything else.
pub open spec fn no_window() -> Reply {
    Reply { value: 0, extra: 0 }
}

/// What the wait asks for from the first probe of a round on, over
/// `rounds` rounds in none of which a window is found, the last of which
/// ends in the timeout.
pub open spec fn rounds_script(titles: Seq<String>, rounds: nat) -> Seq<Action>
    decreases rounds,
{
    if rounds <= 1 {
        probes_from(titles, 1) + seq![
            Action::ReadClock,
            Action::Log(LogLine::WaitTimedOut),
            Action::Finish,
        ]
    } else {
        probes_from(titles, 1) + seq![
            Action::ReadClock,
            Action::Sleep(poll_interval()),
            Action::Probe { title: titles[0] },
        ] + rounds_script(titles, (rounds - 1) as nat)
    }
}

/// The replies that go with [`rounds_script`]: in each round no window
/// for every title, then the reading of the clock, then the reply to what
/// follows the reading, which nothing reads.
pub open spec fn rounds_replies(count: nat, checks: Seq<Reply>, quiet: Reply, from: int) -> Seq<
    Reply,
>
    decreases checks.len() - from,
{
    if from < 0 || from >= checks.len() {
        Seq::empty()
    } else {
        Seq::new(count, |i: int| no_window()) + seq![checks[from], quiet] + rounds_replies(
            count,
            checks,
            quiet,
            from + 1,
        )
    }
}

/// Everything a wait asks for that never finds a window and gives up
/// after `rounds` rounds.
pub open spec fn timeout_script(titles: Seq<String>, rounds: nat) -> Seq<Action> {
    seq![
        Action::Log(LogLine::WaitingForWindow),
        Action::ReadClock,
        Action::Probe { title: titles[0] },
    ] + rounds_script(titles, rounds)
}

/// The replies that go with [`timeout_script`]: `start` is the reading
/// of the clock with which the wait begins, and `checks` are the readings
/// after each round.
pub open spec fn timeout_replies(count: nat, start: Reply, checks: Seq<Reply>, quiet: Reply) -> Seq<
    Reply,
> {
    seq![quiet, quiet, start] + rounds_replies(count, checks, quiet, 0)
}

/// The rounds of a wait that finds no window, from the first probe of
/// round `from` on.
pub proof fn lemma_rounds_time_out(s: WaitState, checks: Seq<Reply>, quiet: Reply, from: int)
    requires
        s.phase is Probing,
        s.cursor == 0,
        s.titles.len() > 0,
        0 <= from < checks.len(),
        forall|j: int|
            from <= j < checks.len() - 1 ==> !budget_spent(
                s.started_at,
                clock_of(#[trigger] checks[j]),
            ),
        budget_spent(s.started_at, clock_of(checks.last())),
    ensures
        run_wait(s, rounds_replies(s.titles.len(), checks, quiet, from)) == (
            WaitState {
                cursor: (s.titles.len() - 1) as nat,
                phase: WaitPhase::Finished,
                result: Some(AcquisitionResult::TimedOut),
                ..s
            },
            rounds_script(s.titles, (checks.len() - from) as nat),
        ),
    decreases checks.len() - from,
{
    let n = s.titles.len();
    let misses = Seq::new(n, |i: int| no_window());
    let tail = seq![checks[from], quiet];
    let later = rounds_replies(n, checks, quiet, from + 1);
    lemma_probes_follow_in_order(s, misses);
    let checking = run_wait(s, misses).0;
    reveal_with_fuel(run_wait, 3);
    assert(tail.drop_first().drop_first() =~= Seq::<Reply>::empty());
    let after = run_wait(checking, tail);
    lemma_run_wait_concat(s, misses, tail);
    lemma_run_wait_concat(s, misses + tail, later);
    assert(misses + tail + later =~= rounds_replies(n, checks, quiet, from));
    if from == checks.len() - 1 {
        assert(checks[from] == checks.last());
        assert(later =~= Seq::<Reply>::empty());
        assert(after.1 =~= seq![
            Action::ReadClock,
            Action::Log(LogLine::WaitTimedOut),
            Action::Finish,
        ].drop_first());
        assert(run_wait(s, misses + tail).1 + Seq::<Action>::empty() =~= rounds_script(
            s.titles,
            (checks.len() - from) as nat,
        ));
    } else {
        assert(after.1 =~= seq![
            Action::Sleep(poll_interval()),
            Action::Probe { title: s.titles[0] },
        ]);
        lemma_rounds_time_out(after.0, checks, quiet, from + 1);
        assert(run_wait(s, misses + tail).1 + rounds_script(
            s.titles,
            (checks.len() - from - 1) as nat,
        ) =~= rounds_script(s.titles, (checks.len() - from) as nat));
    }
}

/// A wait that never finds a window ends, and ends in the timeout: where
/// the clock reads less than the budget after every round but the last,
/// and the budget or more after the last, the wait asks for exactly the
/// script of so many rounds and is over. It does not end on an earlier
/// reading and does not go on after that one.
pub proof fn lemma_wait_times_out(
    titles: Seq<String>,
    start: Reply,
    checks: Seq<Reply>,
    quiet: Reply,
)
    requires
        titles.len() > 0,
        checks.len() > 0,
        forall|j: int|
            0 <= j < checks.len() - 1 ==> !budget_spent(
                clock_of(start),
                clock_of(#[trigger] checks[j]),
            ),
        budget_spent(clock_of(start), clock_of(checks.last())),
    ensures
        run_wait(initial_wait(titles), timeout_replies(titles.len(), start, checks, quiet)) == (
            WaitState {
                titles,
                cursor: (titles.len() - 1) as nat,
                started_at: clock_of(start),
                phase: WaitPhase::Finished,
                result: Some(AcquisitionResult::TimedOut),
            },
            timeout_script(titles, checks.len()),
        ),
{
    let s0 = initial_wait(titles);
    let opening = seq![quiet, quiet, start];
    let rounds = rounds_replies(titles.len(), checks, quiet, 0);
    reveal_with_fuel(run_wait, 4);
    assert(opening.drop_first().drop_first().drop_first() =~= Seq::<Reply>::empty());
    let s1 = run_wait(s0, opening).0;
    assert(run_wait(s0, opening).1 =~= seq![
        Action::Log(LogLine::WaitingForWindow),
        Action::ReadClock,
        Action::Probe { title: titles[0] },
    ]);
    lemma_rounds_time_out(s1, checks, quiet, 0);
    lemma_run_wait_concat(s0, opening, rounds);
}

/// The time at which a wait without a window gives up. Take the readings
/// of the clock after each round: the first is taken no later than one
/// polling interval into the wait, each later one no more than one
/// polling interval after the one before it, and the reading of place
/// `last` is the first at which the budget is spent. Then that reading
/// lies at least the budget and less than the budget and one polling
/// interval after the beginning of the wait: between 40.0 s and 40.5 s.
pub proof fn lemma_timeout_window(started_at: u64, checks: Seq<u64>, last: int)
    requires
        0 <= last < checks.len(),
        started_at <= checks[0] <= started_at + POLL_INTERVAL_MS,
        forall|j: int|
            0 <= j < last ==> checks[j] <= #[trigger] checks[j + 1] <= checks[j]
                + POLL_INTERVAL_MS,
        forall|j: int| 0 <= j < last ==> !budget_spent(started_at, #[trigger] checks[j]),
        budget_spent(started_at, checks[last]),
    ensures
        last >= 1,
        WAIT_BUDGET_MS <= elapsed(started_at, checks[last]) < WAIT_BUDGET_MS + POLL_INTERVAL_MS,
{
    if last >= 1 {
        assert(!budget_spent(started_at, checks[last - 1]));
        assert(checks[last - 1 + 1] <= checks[last - 1] + POLL_INTERVAL_MS);
        lemma_readings_do_not_fall(started_at, checks, last - 1);
    }
}

/// Readings of which none is earlier than the one before it are none
/// earlier than the first.
proof fn lemma_readings_do_not_fall(started_at: u64, checks: Seq<u64>, j: int)
    requires
        0 <= j < checks.len(),
        started_at <= checks[0],
        forall|i: int| 0 <= i < j ==> checks[i] <= #[trigger] checks[i + 1],
    ensures
        started_at <= checks[j],
    decreases j,
{
    if j > 0 {
        lemma_readings_do_not_fall(started_at, checks, j - 1);
        assert(checks[j - 1] <= checks[j - 1 + 1]);
    }
}

/// A wait without a window does not go on for ever. Where every round
/// takes one polling interval or more, the reading after the round of
/// place `j` lies `j` polling intervals or more after the beginning of
/// the wait, so the budget is spent after 81 rounds at the latest.
pub proof fn lemma_timeout_is_reached(started_at: u64, checks: Seq<u64>, j: int)
    requires
        0 <= j < checks.len(),
        started_at <= checks[0],
        forall|i: int|
            0 <= i < checks.len() - 1 ==> #[trigger] checks[i + 1] >= checks[i] + POLL_INTERVAL_MS,
    ensures
        elapsed(started_at, checks[j]) >= j * POLL_INTERVAL_MS,
        j >= 80 ==> budget_spent(started_at, checks[j]),
    decreases j,
{
    if j > 0 {
        lemma_timeout_is_reached(started_at, checks, j - 1);
        assert(checks[j - 1 + 1] >= checks[j - 1] + POLL_INTERVAL_MS);
    }
}

} // verus!
