use pomodoro_watch::json::PropertiesJson;
use pomodoro_watch::properties::{Change, Properties};
use pomodoro_watch::span::Span;
use pomodoro_watch::state::State;

fn snapshot(elapsed: u64, is_paused: bool, state: State, state_duration: u64) -> Properties {
    Properties::new(Span::from_secs(elapsed), is_paused, state, Span::from_secs(state_duration))
}

#[test]
fn new_keeps_the_four_values() {
    let props = Properties::new(
        Span::new(1, 2).unwrap(),
        true,
        State::LongBreak,
        Span::new(3, 4).unwrap(),
    );
    assert_eq!(props.elapsed, Span::new(1, 2).unwrap());
    assert!(props.is_paused);
    assert_eq!(props.state, State::LongBreak);
    assert_eq!(props.state_duration, Span::new(3, 4).unwrap());
}

#[test]
fn remaining_time_is_duration_less_elapsed() {
    assert_eq!(snapshot(600, false, State::Pomodoro, 1500).remaining_time_in_secs(), 900);
    assert_eq!(snapshot(0, false, State::Pomodoro, 1500).remaining_time_in_secs(), 1500);
    assert_eq!(snapshot(1500, false, State::Pomodoro, 1500).remaining_time_in_secs(), 0);
}

#[test]
fn remaining_time_is_floored_to_whole_seconds() {
    let props = Properties::new(
        Span::new(600, 500_000_000).unwrap(),
        false,
        State::Pomodoro,
        Span::from_secs(1500),
    );
    assert_eq!(props.remaining_time_in_secs(), 899);
    let props = Properties::new(
        Span::new(0, 1).unwrap(),
        false,
        State::ShortBreak,
        Span::from_secs(300),
    );
    assert_eq!(props.remaining_time_in_secs(), 299);
    let props = Properties::new(
        Span::new(10, 250_000_000).unwrap(),
        false,
        State::ShortBreak,
        Span::new(300, 750_000_000).unwrap(),
    );
    assert_eq!(props.remaining_time_in_secs(), 290);
}

#[test]
fn remaining_time_is_nothing_once_elapsed_exceeds_the_duration() {
    assert_eq!(snapshot(1501, false, State::Pomodoro, 1500).remaining_time_in_secs(), 0);
    assert_eq!(snapshot(u64::MAX, true, State::Stopped, 0).remaining_time_in_secs(), 0);
    let props = Properties::new(
        Span::new(5, 1).unwrap(),
        false,
        State::Pomodoro,
        Span::from_secs(5),
    );
    assert_eq!(props.remaining_time_in_secs(), 0);
}

#[test]
fn apply_replaces_one_property() {
    let start = snapshot(10, false, State::Pomodoro, 1500);

    let mut props = start;
    props.apply(Change::Elapsed(Span::from_secs(11)));
    assert_eq!(props, snapshot(11, false, State::Pomodoro, 1500));

    let mut props = start;
    props.apply(Change::IsPaused(true));
    assert_eq!(props, snapshot(10, true, State::Pomodoro, 1500));

    let mut props = start;
    props.apply(Change::State(State::ShortBreak));
    assert_eq!(props, snapshot(10, false, State::ShortBreak, 1500));

    let mut props = start;
    props.apply(Change::StateDuration(Span::from_secs(300)));
    assert_eq!(props, snapshot(10, false, State::Pomodoro, 300));
}

#[test]
fn changes_of_two_properties_commute() {
    let start = snapshot(10, false, State::Pomodoro, 1500);
    let changes = [
        Change::Elapsed(Span::from_secs(0)),
        Change::IsPaused(true),
        Change::State(State::LongBreak),
        Change::StateDuration(Span::from_secs(900)),
    ];
    for (i, first) in changes.iter().enumerate() {
        for (j, second) in changes.iter().enumerate() {
            if i != j {
                let mut one = start;
                one.apply(*first);
                one.apply(*second);
                let mut other = start;
                other.apply(*second);
                other.apply(*first);
                assert_eq!(one, other);
            }
        }
    }
}

#[test]
fn to_record_holds_what_is_written() {
    let record = snapshot(600, true, State::ShortBreak, 1500).to_record();
    assert_eq!(
        record,
        PropertiesJson { remaining_time_in_secs: 900, is_paused: true, state: State::ShortBreak }
    );
}

#[test]
fn to_json_writes_the_remaining_time() {
    let line = snapshot(600, false, State::Pomodoro, 1500).to_json();
    assert_eq!(line, "{\"remaining_time_in_secs\":900,\"is_paused\":false,\"state\":\"pomodoro\"}");
}

#[test]
fn to_json_gives_the_same_line_each_time() {
    let props = snapshot(42, true, State::LongBreak, 900);
    let first = props.to_json();
    let second = props.to_json();
    assert_eq!(first, second);
    assert_eq!(first, "{\"remaining_time_in_secs\":858,\"is_paused\":true,\"state\":\"long-break\"}");
    let copy = snapshot(42, true, State::LongBreak, 900);
    assert_eq!(copy.to_json(), first);
}

#[test]
fn update_reports_the_snapshot_after_the_change() {
    let mut props = snapshot(0, false, State::Pomodoro, 1500);
    let line = props.update(Change::Elapsed(Span::from_secs(300)));
    assert_eq!(props, snapshot(300, false, State::Pomodoro, 1500));
    assert_eq!(line, "{\"remaining_time_in_secs\":1200,\"is_paused\":false,\"state\":\"pomodoro\"}");
    assert_eq!(line, props.to_json());

    let line = props.update(Change::IsPaused(true));
    assert_eq!(line, "{\"remaining_time_in_secs\":1200,\"is_paused\":true,\"state\":\"pomodoro\"}");

    let line = props.update(Change::State(State::ShortBreak));
    assert_eq!(line, "{\"remaining_time_in_secs\":1200,\"is_paused\":true,\"state\":\"short-break\"}");

    let line = props.update(Change::StateDuration(Span::from_secs(300)));
    assert_eq!(line, "{\"remaining_time_in_secs\":0,\"is_paused\":true,\"state\":\"short-break\"}");
    assert_eq!(props, snapshot(300, true, State::ShortBreak, 300));
}
