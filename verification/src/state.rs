//! The phases of the timer and their textual tags.

use vstd::prelude::*;

verus! {

/// The phase the timer is in.
#[derive(Clone, Copy, Debug, PartialEq, Eq, Structural)]
pub enum State {
    Stopped,
    Pomodoro,
    ShortBreak,
    LongBreak,
}

/// What the service reports as its state while it is not running.
pub open spec fn absent_tag() -> Seq<char> {
    "null"@
}

/// The tag under which a phase is written out.
pub open spec fn tag_of(state: State) -> Seq<char> {
    match state {
        State::Stopped => "stopped"@,
        State::Pomodoro => "pomodoro"@,
        State::ShortBreak => "short-break"@,
        State::LongBreak => "long-break"@,
    }
}

/// The phase that a tag read from the service stands for, if it stands for one.
pub open spec fn parse_tag(tag: Seq<char>) -> Option<State> {
    if tag == absent_tag() || tag == tag_of(State::Stopped) {
        Some(State::Stopped)
    } else if tag == tag_of(State::Pomodoro) {
        Some(State::Pomodoro)
    } else if tag == tag_of(State::ShortBreak) {
        Some(State::ShortBreak)
    } else if tag == tag_of(State::LongBreak) {
        Some(State::LongBreak)
    } else {
        None
    }
}

/// The message that goes with a tag that names no phase.
pub open spec fn invalid_state_message() -> Seq<char> {
    "invalid state"@
}

/// `str`'s `==`: two string slices are equal exactly when they hold the same
/// characters.
#[verifier::external_body]
fn same_text(a: &str, b: &str) -> (r: bool)
    ensures
        r == (a@ == b@),
{
    a == b
}

impl State {
    /// The tag under which this phase is written out.
    pub fn as_str(&self) -> (tag: &'static str)
        ensures
            tag@ == tag_of(*self),
    {
        match self {
            State::Stopped => "stopped",
            State::Pomodoro => "pomodoro",
            State::ShortBreak => "short-break",
            State::LongBreak => "long-break",
        }
    }

    /// Reads a tag as the service reports it. The tag of an absent service
    /// reads as `Stopped`; a tag that names no phase is refused.
    pub fn from_str(s: &str) -> (r: Result<State, &'static str>)
        ensures
            match parse_tag(s@) {
                Some(state) => r == Ok::<State, &'static str>(state),
                None => r is Err && r->Err_0@ == invalid_state_message(),
            },
    {
        if same_text(s, "null") || same_text(s, "stopped") {
            Ok(State::Stopped)
        } else if same_text(s, "pomodoro") {
            Ok(State::Pomodoro)
        } else if same_text(s, "short-break") {
            Ok(State::ShortBreak)
        } else if same_text(s, "long-break") {
            Ok(State::LongBreak)
        } else {
            Err("invalid state")
        }
    }
}

/// The tag of an absent service and the four tags of the phases have five
/// different lengths, so no two of them are the same text.
pub proof fn lemma_tag_lengths()
    ensures
        absent_tag().len() == 4,
        tag_of(State::Stopped).len() == 7,
        tag_of(State::Pomodoro).len() == 8,
        tag_of(State::ShortBreak).len() == 11,
        tag_of(State::LongBreak).len() == 10,
{
    reveal_strlit("null");
    reveal_strlit("stopped");
    reveal_strlit("pomodoro");
    reveal_strlit("short-break");
    reveal_strlit("long-break");
}

/// Reading the tag under which a phase is written out gives that phase back.
pub proof fn lemma_tag_round_trip(state: State)
    ensures
        parse_tag(tag_of(state)) == Some(state),
{
    lemma_tag_lengths();
}

/// The tag of an absent service reads as `Stopped`, and no phase is written
/// out under it.
pub proof fn lemma_absent_tag_is_only_read(state: State)
    ensures
        parse_tag(absent_tag()) == Some(State::Stopped),
        tag_of(state) != absent_tag(),
{
    lemma_tag_lengths();
}

} // verus!
