use er_performance_tweaks::acquire::{candidate_titles, Acquisition, AcquisitionResult};
use er_performance_tweaks::logline::LogLine;
use er_performance_tweaks::port::{Action, Pause, Reply};

fn quiet() -> Reply {
    Reply { value: 0, extra: 0 }
}

fn clock(millis: i64) -> Reply {
    Reply { value: millis, extra: 0 }
}

fn window(handle: i64) -> Reply {
    Reply { value: handle, extra: 0 }
}

fn probe(title: &str) -> Action {
    Action::Probe { title: String::from(title) }
}

fn poll() -> Action {
    Action::Sleep(Pause { secs: 0, millis: 500 })
}

#[test]
fn built_in_titles_are_probed_where_there_is_no_custom_title() {
    assert_eq!(candidate_titles(""), vec!["ELDEN RING", "ELDEN RING™"]);
}

#[test]
fn custom_title_comes_first() {
    assert_eq!(candidate_titles("My Game"), vec!["My Game", "ELDEN RING", "ELDEN RING™"]);
}

#[test]
fn wait_opens_with_its_line_and_reads_the_clock() {
    let mut wait = Acquisition::new("");
    assert_eq!(wait.result(), None);
    assert_eq!(wait.advance(quiet()), Action::Log(LogLine::WaitingForWindow));
    assert_eq!(wait.advance(quiet()), Action::ReadClock);
    assert_eq!(wait.advance(clock(1000)), probe("ELDEN RING"));
    assert!(!wait.is_finished());
}

#[test]
fn window_at_the_first_probe_ends_the_wait() {
    let mut wait = Acquisition::new("");
    wait.advance(quiet());
    wait.advance(quiet());
    assert_eq!(wait.advance(clock(0)), probe("ELDEN RING"));
    assert_eq!(wait.advance(window(0x1234)), Action::Log(LogLine::WindowDetected));
    assert_eq!(wait.result(), Some(AcquisitionResult::Found));
    assert_eq!(wait.advance(quiet()), Action::Finish);
    assert!(wait.is_finished());
    assert_eq!(wait.advance(quiet()), Action::Finish);
    assert_eq!(wait.result(), Some(AcquisitionResult::Found));
}

#[test]
fn negative_handle_counts_as_a_window() {
    let mut wait = Acquisition::new("");
    wait.advance(quiet());
    wait.advance(quiet());
    wait.advance(clock(0));
    assert_eq!(wait.advance(window(-1)), Action::Log(LogLine::WindowDetected));
}

#[test]
fn every_round_probes_custom_title_then_built_in_titles() {
    let mut wait = Acquisition::new("Custom");
    wait.advance(quiet());
    wait.advance(quiet());
    let mut asked = vec![wait.advance(clock(0))];
    for round in 0..3 {
        asked.push(wait.advance(window(0)));
        asked.push(wait.advance(window(0)));
        asked.push(wait.advance(window(0)));
        asked.push(wait.advance(clock(500 * (round + 1))));
        asked.push(wait.advance(quiet()));
    }
    let mut expected = Vec::new();
    for _ in 0..3 {
        expected.push(probe("Custom"));
        expected.push(probe("ELDEN RING"));
        expected.push(probe("ELDEN RING™"));
        expected.push(Action::ReadClock);
        expected.push(poll());
    }
    expected.push(probe("Custom"));
    assert_eq!(asked, expected);
}

#[test]
fn window_at_the_last_title_is_found_in_the_same_round() {
    let mut wait = Acquisition::new("Custom");
    wait.advance(quiet());
    wait.advance(quiet());
    assert_eq!(wait.advance(clock(0)), probe("Custom"));
    assert_eq!(wait.advance(window(0)), probe("ELDEN RING"));
    assert_eq!(wait.advance(window(0)), probe("ELDEN RING™"));
    assert_eq!(wait.advance(window(7)), Action::Log(LogLine::WindowDetected));
    assert_eq!(wait.result(), Some(AcquisitionResult::Found));
}

#[test]
fn wait_goes_on_one_millisecond_before_the_budget() {
    let mut wait = Acquisition::new("");
    wait.advance(quiet());
    wait.advance(quiet());
    wait.advance(clock(5000));
    wait.advance(window(0));
    assert_eq!(wait.advance(window(0)), Action::ReadClock);
    assert_eq!(wait.advance(clock(5000 + 39_999)), poll());
    assert_eq!(wait.result(), None);
    assert_eq!(wait.advance(quiet()), probe("ELDEN RING"));
}

#[test]
fn wait_gives_up_when_the_budget_is_spent() {
    let mut wait = Acquisition::new("");
    wait.advance(quiet());
    wait.advance(quiet());
    wait.advance(clock(5000));
    wait.advance(window(0));
    assert_eq!(wait.advance(window(0)), Action::ReadClock);
    assert_eq!(wait.advance(clock(5000 + 40_000)), Action::Log(LogLine::WaitTimedOut));
    assert_eq!(wait.result(), Some(AcquisitionResult::TimedOut));
    assert_eq!(wait.advance(quiet()), Action::Finish);
    assert!(wait.is_finished());
}

#[test]
fn wait_without_a_window_gives_up_after_eighty_one_rounds_of_half_a_second() {
    let mut wait = Acquisition::new("");
    wait.advance(quiet());
    wait.advance(quiet());
    let mut action = wait.advance(clock(0));
    let mut now: i64 = 0;
    let mut rounds = 0;
    let mut sleeps = 0;
    loop {
        assert_eq!(action, probe("ELDEN RING"));
        assert_eq!(wait.advance(window(0)), probe("ELDEN RING™"));
        assert_eq!(wait.advance(window(0)), Action::ReadClock);
        rounds += 1;
        action = wait.advance(clock(now));
        if action == Action::Log(LogLine::WaitTimedOut) {
            break;
        }
        assert_eq!(action, poll());
        sleeps += 1;
        now += 500;
        action = wait.advance(quiet());
        assert!(rounds < 1000);
    }
    assert_eq!(rounds, 81);
    assert_eq!(sleeps, 80);
    assert_eq!(now, 40_000);
    assert_eq!(wait.result(), Some(AcquisitionResult::TimedOut));
}

#[test]
fn clock_that_runs_backwards_counts_as_no_time_passed() {
    let mut wait = Acquisition::new("");
    wait.advance(quiet());
    wait.advance(quiet());
    wait.advance(clock(100_000));
    wait.advance(window(0));
    wait.advance(window(0));
    assert_eq!(wait.advance(clock(50_000)), poll());
    wait.advance(quiet());
    wait.advance(window(0));
    wait.advance(window(0));
    assert_eq!(wait.advance(clock(-5)), poll());
}
