//! The status line: one JSON object on one line.

use vstd::prelude::*;
use vstd::string::*;
use crate::state::{tag_of, State};

verus! {

/// The character that stands for a digit.
pub open spec fn digit(d: nat) -> char {
    if d == 0 {
        '0'
    } else if d == 1 {
        '1'
    } else if d == 2 {
        '2'
    } else if d == 3 {
        '3'
    } else if d == 4 {
        '4'
    } else if d == 5 {
        '5'
    } else if d == 6 {
        '6'
    } else if d == 7 {
        '7'
    } else if d == 8 {
        '8'
    } else {
        '9'
    }
}

/// A number in decimal digits, without leading zeros.
pub open spec fn decimal(n: nat) -> Seq<char>
    decreases n,
{
    if n < 10 {
        seq![digit(n)]
    } else {
        decimal(n / 10).push(digit(n % 10))
    }
}

/// A truth value as JSON writes it.
pub open spec fn truth(b: bool) -> Seq<char> {
    if b {
        "true"@
    } else {
        "false"@
    }
}

/// Whether a character stands for itself inside a JSON string: any but the
/// double quote, the backslash and the control characters below the space.
pub open spec fn stands_for_itself(c: char) -> bool {
    c != '"' && c != '\\' && c as u32 >= 0x20
}

/// Whether every character of a text stands for itself inside a JSON string.
pub open spec fn needs_no_escape(text: Seq<char>) -> bool {
    forall|i: int| 0 <= i < text.len() ==> stands_for_itself(#[trigger] text[i])
}

/// A text between double quotes.
pub open spec fn quoted(text: Seq<char>) -> Seq<char> {
    seq!['"'] + text + seq!['"']
}

/// The status line for a remaining time in whole seconds, the pause flag and
/// the tag of the phase.
pub open spec fn status_line(remaining: nat, is_paused: bool, tag: Seq<char>) -> Seq<char> {
    "{\"remaining_time_in_secs\":"@ + decimal(remaining) + ",\"is_paused\":"@ + truth(is_paused)
        + ",\"state\":"@ + quoted(tag) + "}"@
}

/// `serde_json::to_string` on a `u64`: the number in decimal digits, without
/// sign, leading zeros or exponent. Writing into memory does not fail.
#[verifier::external_body]
fn number_to_json(n: u64) -> (text: String)
    ensures
        text@ == decimal(n as nat),
{
    serde_json::to_string(&n).unwrap()
}

/// `serde_json::to_string` on a `bool`: the word `true` or the word `false`.
/// Writing into memory does not fail.
#[verifier::external_body]
fn bool_to_json(b: bool) -> (text: String)
    ensures
        text@ == truth(b),
{
    serde_json::to_string(&b).unwrap()
}

/// `serde_json::to_string` on a `str` in which no character needs an escape:
/// the same characters between double quotes. Writing into memory does not
/// fail.
#[verifier::external_body]
fn str_to_json(s: &str) -> (text: String)
    requires
        needs_no_escape(s@),
    ensures
        text@ == quoted(s@),
{
    serde_json::to_string(s).unwrap()
}

/// No tag of a phase holds a character that JSON would escape.
pub proof fn lemma_tags_need_no_escape(state: State)
    ensures
        needs_no_escape(tag_of(state)),
{
    reveal_strlit("stopped");
    reveal_strlit("pomodoro");
    reveal_strlit("short-break");
    reveal_strlit("long-break");
}

/// What is written out for one snapshot.
#[derive(Clone, Copy, Debug, PartialEq, Eq)]
pub struct PropertiesJson {
    pub remaining_time_in_secs: u64,
    pub is_paused: bool,
    pub state: State,
}

impl PropertiesJson {
    /// The line that stands for this record.
    pub open spec fn line(self) -> Seq<char> {
        status_line(self.remaining_time_in_secs as nat, self.is_paused, tag_of(self.state))
    }

    /// Writes the record as a JSON object on one line, without the line's end.
    pub fn to_json(&self) -> (line: String)
        ensures
            line@ == self.line(),
    {
        let number = number_to_json(self.remaining_time_in_secs);
        let flag = bool_to_json(self.is_paused);
        let tag = self.state.as_str();
        proof {
            lemma_tags_need_no_escape(self.state);
        }
        let state = str_to_json(tag);
        let mut line = String::from_str("{\"remaining_time_in_secs\":");
        line.append(number.as_str());
        line.append(",\"is_paused\":");
        line.append(flag.as_str());
        line.append(",\"state\":");
        line.append(state.as_str());
        line.append("}");
        line
    }
}

} // verus!
