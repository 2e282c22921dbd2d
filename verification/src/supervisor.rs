//! The course of one watch: from the first read of the four properties,
//! through every change, to the end.

use vstd::prelude::*;
use crate::properties::{Change, Properties, Property};
use crate::span::Span;
use crate::state::{parse_tag, State};

verus! {

/// Why a watch failed.
#[derive(Clone, Copy, Debug, PartialEq, Eq, Structural)]
pub enum Failure {
    /// The service reported a state tag that names no phase.
    InvalidState,
    /// A change was announced and its value could not be read.
    TransportFailure,
    /// One of the four first reads failed.
    InitializationFailure,
}

/// How a watch ended.
#[derive(Clone, Copy, Debug, PartialEq, Eq, Structural)]
pub enum Outcome {
    /// A property's announcements came to their end.
    Success,
    Failure(Failure),
}

/// The value of one property as it was read from the service.
#[derive(Debug, PartialEq, Eq)]
pub enum Reading {
    Elapsed(Span),
    IsPaused(bool),
    State(String),
    StateDuration(Span),
}

impl Reading {
    /// The property that was read.
    pub open spec fn property(self) -> Property {
        match self {
            Reading::Elapsed(_) => Property::Elapsed,
            Reading::IsPaused(_) => Property::IsPaused,
            Reading::State(_) => Property::State,
            Reading::StateDuration(_) => Property::StateDuration,
        }
    }

    /// The change that the reading asks for, unless it holds a state tag that
    /// names no phase.
    pub open spec fn decoded(self) -> Option<Change> {
        match self {
            Reading::Elapsed(elapsed) => Some(Change::Elapsed(elapsed)),
            Reading::IsPaused(is_paused) => Some(Change::IsPaused(is_paused)),
            Reading::State(tag) => match parse_tag(tag@) {
                Some(state) => Some(Change::State(state)),
                None => None,
            },
            Reading::StateDuration(state_duration) => Some(Change::StateDuration(state_duration)),
        }
    }

    /// Turns the reading into a change of the snapshot.
    pub fn decode(&self) -> (r: Result<Change, Failure>)
        ensures
            match self.decoded() {
                Some(change) => r == Ok::<Change, Failure>(change),
                None => r == Err::<Change, Failure>(Failure::InvalidState),
            },
    {
        match self {
            Reading::Elapsed(elapsed) => Ok(Change::Elapsed(*elapsed)),
            Reading::IsPaused(is_paused) => Ok(Change::IsPaused(*is_paused)),
            Reading::State(tag) => match State::from_str(tag.as_str()) {
                Ok(state) => Ok(Change::State(state)),
                Err(_) => Err(Failure::InvalidState),
            },
            Reading::StateDuration(state_duration) => Ok(Change::StateDuration(*state_duration)),
        }
    }
}

/// What the transport hands to the watch.
#[derive(Debug, PartialEq, Eq)]
pub enum Event {
    /// All four first reads succeeded.
    Fetched { elapsed: Span, is_paused: bool, state: String, state_duration: Span },
    /// One of the four first reads failed.
    FetchFailed,
    /// A property changed, and this is its new value.
    Changed(Reading),
    /// A property changed, and its new value could not be read.
    Unresolved(Property),
    /// No further change of a property will be announced.
    Ended(Property),
}

/// What the caller is to do after an event.
#[derive(Debug, PartialEq, Eq)]
pub enum Action {
    /// Start listening for changes of the four properties.
    Watch,
    /// Write this line.
    Emit(String),
    /// Stop listening and end with this outcome.
    Exit(Outcome),
    /// Nothing.
    Idle,
}

/// An action with its line as a sequence of characters.
pub enum Reaction {
    Watch,
    Emit(Seq<char>),
    Exit(Outcome),
    Idle,
}

impl View for Action {
    type V = Reaction;

    open spec fn view(&self) -> Reaction {
        match self {
            Action::Watch => Reaction::Watch,
            Action::Emit(line) => Reaction::Emit(line@),
            Action::Exit(outcome) => Reaction::Exit(*outcome),
            Action::Idle => Reaction::Idle,
        }
    }
}

/// Where a watch stands.
#[derive(Clone, Copy, Debug, PartialEq, Eq)]
pub enum Phase {
    /// The four first reads are under way.
    Starting,
    /// Changes are listened for, and this is the snapshot.
    Running(Properties),
    /// The watch is over, with this outcome.
    Terminated(Outcome),
}

impl Phase {
    /// Where the watch stands after an event. An event that cannot occur in
    /// the phase leaves it as it is.
    pub open spec fn next(self, event: Event) -> Phase {
        match self {
            Phase::Starting => match event {
                Event::Fetched { elapsed, is_paused, state, state_duration } => match parse_tag(
                    state@,
                ) {
                    Some(state) => Phase::Running(
                        Properties { elapsed, is_paused, state, state_duration },
                    ),
                    None => Phase::Terminated(Outcome::Failure(Failure::InvalidState)),
                },
                Event::FetchFailed => Phase::Terminated(Outcome::Failure(Failure::InitializationFailure)),
                _ => self,
            },
            Phase::Running(properties) => match event {
                Event::Changed(reading) => match reading.decoded() {
                    Some(change) => Phase::Running(properties.updated(change)),
                    None => Phase::Terminated(Outcome::Failure(Failure::InvalidState)),
                },
                Event::Unresolved(_) => Phase::Terminated(Outcome::Failure(Failure::TransportFailure)),
                Event::Ended(_) => Phase::Terminated(Outcome::Success),
                _ => self,
            },
            Phase::Terminated(_) => self,
        }
    }

    /// What the caller is to do after an event: start listening once the
    /// snapshot exists, write the snapshot's line after each change, end where
    /// the watch has ended, and nothing where the phase stays as it is.
    pub open spec fn reaction(self, event: Event) -> Reaction {
        match self.next(event) {
            Phase::Starting => Reaction::Idle,
            Phase::Running(properties) => match self {
                Phase::Starting => Reaction::Watch,
                _ => match event {
                    Event::Changed(_) => Reaction::Emit(properties.line()),
                    _ => Reaction::Idle,
                },
            },
            Phase::Terminated(outcome) => match self {
                Phase::Terminated(_) => Reaction::Idle,
                _ => Reaction::Exit(outcome),
            },
        }
    }

    /// The phase in which every watch begins.
    pub fn new() -> (phase: Phase)
        ensures
            phase == Phase::Starting,
    {
        Phase::Starting
    }

    /// Takes one event: moves to the next phase and says what the caller is to
    /// do.
    pub fn step(&mut self, event: &Event) -> (action: Action)
        ensures
            *final(self) == old(self).next(*event),
            action@ == old(self).reaction(*event),
    {
        match *self {
            Phase::Starting => match event {
                Event::Fetched { elapsed, is_paused, state, state_duration } => {
                    match State::from_str(state.as_str()) {
                        Ok(state) => {
                            *self = Phase::Running(
                                Properties::new(*elapsed, *is_paused, state, *state_duration),
                            );
                            Action::Watch
                        },
                        Err(_) => self.terminate(Outcome::Failure(Failure::InvalidState)),
                    }
                },
                Event::FetchFailed => self.terminate(Outcome::Failure(Failure::InitializationFailure)),
                _ => Action::Idle,
            },
            Phase::Running(properties) => match event {
                Event::Changed(reading) => match reading.decode() {
                    Ok(change) => {
                        let mut properties = properties;
                        let line = properties.update(change);
                        *self = Phase::Running(properties);
                        Action::Emit(line)
                    },
                    Err(failure) => self.terminate(Outcome::Failure(failure)),
                },
                Event::Unresolved(_) => self.terminate(Outcome::Failure(Failure::TransportFailure)),
                Event::Ended(_) => self.terminate(Outcome::Success),
                _ => Action::Idle,
            },
            Phase::Terminated(_) => Action::Idle,
        }
    }

    fn terminate(&mut self, outcome: Outcome) -> (action: Action)
        ensures
            *final(self) == Phase::Terminated(outcome),
            action@ == Reaction::Exit(outcome),
    {
        *self = Phase::Terminated(outcome);
        Action::Exit(outcome)
    }
}

/// Where a watch that stands in `phase` stands after a run of events.
pub open spec fn phase_after(phase: Phase, events: Seq<Event>) -> Phase
    decreases events.len(),
{
    if events.len() == 0 {
        phase
    } else {
        phase_after(phase.next(events[0]), events.drop_first())
    }
}

/// The lines that a watch that stands in `phase` has written by the end of a
/// run of events, in the order in which they are written.
pub open spec fn lines_written(phase: Phase, events: Seq<Event>) -> Seq<Seq<char>>
    decreases events.len(),
{
    if events.len() == 0 {
        Seq::empty()
    } else {
        let rest = lines_written(phase.next(events[0]), events.drop_first());
        match phase.reaction(events[0]) {
            Reaction::Emit(line) => seq![line] + rest,
            _ => rest,
        }
    }
}

/// A line is written only for a change that a running watch takes in, and it
/// is the line of the snapshot as it stands after that change.
pub proof fn lemma_line_reports_snapshot(phase: Phase, event: Event)
    ensures
        phase.reaction(event) is Emit <==> phase is Running && event is Changed
            && event->Changed_0.decoded() is Some,
        phase.reaction(event) is Emit ==> phase.next(event) is Running
            && phase.reaction(event)->Emit_0 == phase.next(event)->Running_0.line()
            && phase.next(event)->Running_0 == phase->Running_0.updated(
            event->Changed_0.decoded()->Some_0,
        ),
{
}

/// A watch that is over stays over with the same outcome and writes nothing,
/// whatever events follow.
pub proof fn lemma_terminated_is_final(outcome: Outcome, events: Seq<Event>)
    ensures
        phase_after(Phase::Terminated(outcome), events) == Phase::Terminated(outcome),
        lines_written(Phase::Terminated(outcome), events) == Seq::<Seq<char>>::empty(),
    decreases events.len(),
{
    if events.len() > 0 {
        lemma_terminated_is_final(outcome, events.drop_first());
    }
}

/// A change whose value cannot be read ends a running watch in failure, and
/// no line is written for it or for anything that follows it.
pub proof fn lemma_unresolved_change_is_fatal(
    properties: Properties,
    property: Property,
    later: Seq<Event>,
)
    ensures
        phase_after(Phase::Running(properties), seq![Event::Unresolved(property)] + later)
            == Phase::Terminated(Outcome::Failure(Failure::TransportFailure)),
        lines_written(Phase::Running(properties), seq![Event::Unresolved(property)] + later)
            == Seq::<Seq<char>>::empty(),
{
    let events = seq![Event::Unresolved(property)] + later;
    assert(events.drop_first() =~= later);
    lemma_terminated_is_final(Outcome::Failure(Failure::TransportFailure), later);
}

/// A state tag that names no phase ends a running watch in failure, and no
/// line is written for it or for anything that follows it.
pub proof fn lemma_invalid_state_is_fatal(properties: Properties, tag: String, later: Seq<Event>)
    requires
        parse_tag(tag@) is None,
    ensures
        phase_after(
            Phase::Running(properties),
            seq![Event::Changed(Reading::State(tag))] + later,
        ) == Phase::Terminated(Outcome::Failure(Failure::InvalidState)),
        lines_written(
            Phase::Running(properties),
            seq![Event::Changed(Reading::State(tag))] + later,
        ) == Seq::<Seq<char>>::empty(),
{
    let events = seq![Event::Changed(Reading::State(tag))] + later;
    assert(events.drop_first() =~= later);
    lemma_terminated_is_final(Outcome::Failure(Failure::InvalidState), later);
}

/// Two changes that a running watch takes in one after the other give exactly
/// two lines: the first is the line of the snapshot with the first change
/// alone, the second the line of the snapshot with both.
pub proof fn lemma_two_changes_two_lines(properties: Properties, first: Reading, second: Reading)
    requires
        first.decoded() is Some,
        second.decoded() is Some,
    ensures
        lines_written(
            Phase::Running(properties),
            seq![Event::Changed(first), Event::Changed(second)],
        ) == seq![
            properties.updated(first.decoded()->Some_0).line(),
            properties.updated(first.decoded()->Some_0).updated(second.decoded()->Some_0).line(),
        ],
        phase_after(
            Phase::Running(properties),
            seq![Event::Changed(first), Event::Changed(second)],
        ) == Phase::Running(
            properties.updated(first.decoded()->Some_0).updated(second.decoded()->Some_0),
        ),
{
    let events = seq![Event::Changed(first), Event::Changed(second)];
    let middle = Phase::Running(properties.updated(first.decoded()->Some_0));
    let last = middle.next(Event::Changed(second));
    assert(events.drop_first() =~= seq![Event::Changed(second)]);
    assert(events.drop_first().drop_first() =~= Seq::<Event>::empty());
    assert(lines_written(last, events.drop_first().drop_first()) =~= Seq::<Seq<char>>::empty());
    assert(phase_after(last, events.drop_first().drop_first()) == last);
    assert(phase_after(middle, events.drop_first()) == last);
    assert(phase_after(Phase::Running(properties), events) == last);
    assert(lines_written(middle, events.drop_first()) =~= seq![
        properties.updated(first.decoded()->Some_0).updated(second.decoded()->Some_0).line(),
    ]);
    assert(lines_written(Phase::Running(properties), events) =~= seq![
        properties.updated(first.decoded()->Some_0).line(),
        properties.updated(first.decoded()->Some_0).updated(second.decoded()->Some_0).line(),
    ]);
}

/// Changes of two different properties, taken in by a running watch in either
/// order, leave the same snapshot and the same last line.
pub proof fn lemma_order_of_two_properties(
    properties: Properties,
    first: Reading,
    second: Reading,
)
    requires
        first.decoded() is Some,
        second.decoded() is Some,
        first.property() != second.property(),
    ensures
        phase_after(
            Phase::Running(properties),
            seq![Event::Changed(first), Event::Changed(second)],
        ) == phase_after(
            Phase::Running(properties),
            seq![Event::Changed(second), Event::Changed(first)],
        ),
        lines_written(
            Phase::Running(properties),
            seq![Event::Changed(first), Event::Changed(second)],
        ).last() == lines_written(
            Phase::Running(properties),
            seq![Event::Changed(second), Event::Changed(first)],
        ).last(),
{
    lemma_two_changes_two_lines(properties, first, second);
    lemma_two_changes_two_lines(properties, second, first);
    crate::properties::lemma_changes_commute(
        properties,
        first.decoded()->Some_0,
        second.decoded()->Some_0,
    );
}

} // verus!
