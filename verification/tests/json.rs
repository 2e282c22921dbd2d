use pomodoro_watch::json::PropertiesJson;
use pomodoro_watch::state::State;

fn line(remaining_time_in_secs: u64, is_paused: bool, state: State) -> String {
    PropertiesJson { remaining_time_in_secs, is_paused, state }.to_json()
}

#[test]
fn to_json_writes_one_object_on_one_line() {
    assert_eq!(
        line(900, false, State::Pomodoro),
        "{\"remaining_time_in_secs\":900,\"is_paused\":false,\"state\":\"pomodoro\"}"
    );
    assert_eq!(
        line(0, true, State::Stopped),
        "{\"remaining_time_in_secs\":0,\"is_paused\":true,\"state\":\"stopped\"}"
    );
}

#[test]
fn to_json_writes_numbers_in_decimal() {
    assert_eq!(
        line(7, false, State::ShortBreak),
        "{\"remaining_time_in_secs\":7,\"is_paused\":false,\"state\":\"short-break\"}"
    );
    assert_eq!(
        line(10, false, State::ShortBreak),
        "{\"remaining_time_in_secs\":10,\"is_paused\":false,\"state\":\"short-break\"}"
    );
    assert_eq!(
        line(1_000_000, true, State::LongBreak),
        "{\"remaining_time_in_secs\":1000000,\"is_paused\":true,\"state\":\"long-break\"}"
    );
    assert_eq!(
        line(u64::MAX, true, State::LongBreak),
        "{\"remaining_time_in_secs\":18446744073709551615,\"is_paused\":true,\"state\":\"long-break\"}"
    );
}

#[test]
fn to_json_has_no_line_end_and_no_space() {
    for state in [State::Stopped, State::Pomodoro, State::ShortBreak, State::LongBreak] {
        let text = line(1500, false, state);
        assert!(!text.contains('\n'));
        assert!(!text.contains(' '));
        assert!(text.starts_with('{'));
        assert!(text.ends_with('}'));
    }
}

#[test]
fn to_json_quotes_the_tag() {
    for state in [State::Stopped, State::Pomodoro, State::ShortBreak, State::LongBreak] {
        let text = line(1, false, state);
        let quoted = format!("\"state\":\"{}\"}}", state.as_str());
        assert!(text.ends_with(&quoted), "{}", text);
    }
}

#[test]
fn to_json_reads_back_as_json() {
    let text = line(1234, true, State::ShortBreak);
    let value: serde_json::Value = serde_json::from_str(&text).unwrap();
    let object = value.as_object().unwrap();
    assert_eq!(object.len(), 3);
    assert_eq!(object.get("remaining_time_in_secs").and_then(|v| v.as_u64()), Some(1234));
    assert_eq!(object.get("is_paused").and_then(|v| v.as_bool()), Some(true));
    assert_eq!(object.get("state").and_then(|v| v.as_str()), Some("short-break"));
    assert!(object.get("type").is_none());
}

#[test]
fn to_json_keeps_the_order_of_the_keys() {
    let text = line(5, false, State::Pomodoro);
    let remaining = text.find("remaining_time_in_secs").unwrap();
    let paused = text.find("is_paused").unwrap();
    let state = text.find("\"state\"").unwrap();
    assert!(remaining < paused);
    assert!(paused < state);
}
