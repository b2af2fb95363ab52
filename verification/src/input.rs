//! Mapping from discrete key events to simulation actions. The keys name
//! the direction of travel: the up arrow spawns a northbound vehicle, which
//! enters from the south edge, and so on.

use vstd::prelude::*;

use crate::vehicle::{random_origin, Origin};

verus! {

/// A key the simulation reacts to; anything else is `Other`.
#[derive(Clone, Copy, PartialEq, Eq, Structural, Debug)]
pub enum Key {
    Up,
    Down,
    Left,
    Right,
    Random,
    Escape,
    Other,
}

/// What a key asks the loop to do.
#[derive(Clone, Copy, PartialEq, Eq, Structural, Debug)]
pub enum Action {
    Spawn(Origin),
    Quit,
}

/// Maps a key to its action: the arrows spawn from the fixed edges,
/// `Random` spawns from a uniformly random edge, `Escape` quits, and any
/// other key does nothing.
pub fn action_for_key(k: Key) -> (r: Option<Action>)
    ensures
        k == Key::Up ==> r == Some(Action::Spawn(Origin::South)),
        k == Key::Down ==> r == Some(Action::Spawn(Origin::North)),
        k == Key::Left ==> r == Some(Action::Spawn(Origin::East)),
        k == Key::Right ==> r == Some(Action::Spawn(Origin::West)),
        k == Key::Random ==> (r matches Some(a) && (a matches Action::Spawn(_))),
        k == Key::Escape ==> r == Some(Action::Quit),
        k == Key::Other ==> r is None,
{
    match k {
        Key::Up => Some(Action::Spawn(Origin::South)),
        Key::Down => Some(Action::Spawn(Origin::North)),
        Key::Left => Some(Action::Spawn(Origin::East)),
        Key::Right => Some(Action::Spawn(Origin::West)),
        Key::Random => Some(Action::Spawn(random_origin())),
        Key::Escape => Some(Action::Quit),
        Key::Other => None,
    }
}

} // verus!
