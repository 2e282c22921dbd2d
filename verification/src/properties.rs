//! The snapshot of the timer's four properties.

use vstd::prelude::*;
use crate::json::PropertiesJson;
use crate::span::Span;
use crate::state::State;

verus! {

/// One of the four properties that the service publishes.
#[derive(Clone, Copy, Debug, PartialEq, Eq, Structural)]
pub enum Property {
    Elapsed,
    IsPaused,
    State,
    StateDuration,
}

/// A new value of one property.
#[derive(Clone, Copy, Debug, PartialEq, Eq)]
pub enum Change {
    Elapsed(Span),
    IsPaused(bool),
    State(State),
    StateDuration(Span),
}

impl Change {
    /// The property that the value belongs to.
    pub open spec fn property(self) -> Property {
        match self {
            Change::Elapsed(_) => Property::Elapsed,
            Change::IsPaused(_) => Property::IsPaused,
            Change::State(_) => Property::State,
            Change::StateDuration(_) => Property::StateDuration,
        }
    }
}

/// The last known value of each property.
#[derive(Clone, Copy, Debug, PartialEq, Eq)]
pub struct Properties {
    /// How long the current phase has run.
    pub elapsed: Span,
    pub is_paused: bool,
    pub state: State,
    /// How long the current phase lasts in all.
    pub state_duration: Span,
}

impl Properties {
    /// The whole seconds left of the current phase: none once the phase has
    /// run longer than it lasts.
    pub open spec fn remaining_secs(self) -> nat {
        if self.state_duration@ >= self.elapsed@ {
            (self.state_duration@ - self.elapsed@) as nat / 1_000_000_000
        } else {
            0
        }
    }

    /// The snapshot with one property replaced.
    pub open spec fn updated(self, change: Change) -> Properties {
        match change {
            Change::Elapsed(elapsed) => Properties { elapsed, ..self },
            Change::IsPaused(is_paused) => Properties { is_paused, ..self },
            Change::State(state) => Properties { state, ..self },
            Change::StateDuration(state_duration) => Properties { state_duration, ..self },
        }
    }

    /// The line that reports this snapshot.
    pub open spec fn line(self) -> Seq<char> {
        crate::json::status_line(
            self.remaining_secs(),
            self.is_paused,
            crate::state::tag_of(self.state),
        )
    }

    /// The snapshot made of the four values first read.
    pub fn new(elapsed: Span, is_paused: bool, state: State, state_duration: Span) -> (r:
        Properties)
        ensures
            r == (Properties { elapsed, is_paused, state, state_duration }),
    {
        Properties { elapsed, is_paused, state, state_duration }
    }

    /// The whole seconds left of the current phase: none once the phase has
    /// run longer than it lasts.
    pub fn remaining_time_in_secs(&self) -> (secs: u64)
        ensures
            secs == self.remaining_secs(),
    {
        self.state_duration.saturating_sub(self.elapsed).as_secs()
    }

    /// Replaces one property and leaves the others as they are.
    pub fn apply(&mut self, change: Change)
        ensures
            *final(self) == old(self).updated(change),
    {
        match change {
            Change::Elapsed(elapsed) => {
                self.elapsed = elapsed;
            },
            Change::IsPaused(is_paused) => {
                self.is_paused = is_paused;
            },
            Change::State(state) => {
                self.state = state;
            },
            Change::StateDuration(state_duration) => {
                self.state_duration = state_duration;
            },
        }
    }

    /// What is written out for this snapshot.
    pub fn to_record(&self) -> (record: PropertiesJson)
        ensures
            record.remaining_time_in_secs == self.remaining_secs(),
            record.is_paused == self.is_paused,
            record.state == self.state,
            record.line() == self.line(),
    {
        PropertiesJson {
            remaining_time_in_secs: self.remaining_time_in_secs(),
            is_paused: self.is_paused,
            state: self.state,
        }
    }

    /// The line that reports this snapshot, without the line's end.
    pub fn to_json(&self) -> (line: String)
        ensures
            line@ == self.line(),
    {
        self.to_record().to_json()
    }

    /// Replaces one property and reports the snapshot that results: the line
    /// is made of the four values as they stand after the change.
    pub fn update(&mut self, change: Change) -> (line: String)
        ensures
            *final(self) == old(self).updated(change),
            line@ == final(self).line(),
    {
        self.apply(change);
        self.to_json()
    }
}

/// Changes of two different properties lead to the same snapshot in either
/// order.
pub proof fn lemma_changes_commute(start: Properties, first: Change, second: Change)
    requires
        first.property() != second.property(),
    ensures
        start.updated(first).updated(second) == start.updated(second).updated(first),
{
}

/// A change gives its own property the new value and leaves the other three
/// as they were.
pub proof fn lemma_change_touches_one(start: Properties, change: Change)
    ensures
        start.updated(change).elapsed == match change {
            Change::Elapsed(elapsed) => elapsed,
            _ => start.elapsed,
        },
        start.updated(change).is_paused == match change {
            Change::IsPaused(is_paused) => is_paused,
            _ => start.is_paused,
        },
        start.updated(change).state == match change {
            Change::State(state) => state,
            _ => start.state,
        },
        start.updated(change).state_duration == match change {
            Change::StateDuration(state_duration) => state_duration,
            _ => start.state_duration,
        },
{
}

} // verus!
