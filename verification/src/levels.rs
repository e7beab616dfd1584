//! Digital line levels and the door-sensor state they map to.

use vstd::prelude::*;

verus! {

/// A digital level read from a GPIO line.
#[derive(Debug, Clone, Copy, PartialEq, Eq, Structural)]
pub enum Level {
    High,
    Low,
}

/// Door-sensor state, derived from a line level and the wiring polarity.
#[derive(Debug, Clone, Copy, PartialEq, Eq, Structural)]
pub enum State {
    Open,
    Closed,
}

/// The state a level denotes. With plain wiring a high line means the door
/// is open; pull-up wiring inverts the mapping, so the polarity is an
/// explicit configuration parameter.
pub open spec fn spec_state_of_level(level: Level, inverted: bool) -> State {
    if (level is High) != inverted {
        State::Open
    } else {
        State::Closed
    }
}

/// Map a line level to a door state under the given wiring polarity.
pub fn state_of_level(level: Level, inverted: bool) -> (s: State)
    ensures
        s == spec_state_of_level(level, inverted),
{
    let high = matches!(level, Level::High);
    if high != inverted {
        State::Open
    } else {
        State::Closed
    }
}

/// The lowercase label the notification boundary expects for a state.
pub fn state_label(s: State) -> (label: &'static str)
    ensures
        s is Open ==> label@ == "open"@,
        s is Closed ==> label@ == "closed"@,
{
    match s {
        State::Open => "open",
        State::Closed => "closed",
    }
}

} // verus!
