use vstd::prelude::*;

verus! {

/// An enum used to identify a type of player (either a victim or killer).
///
/// The session layer serializes this value into a message payload before
/// framing it for the wire.
#[derive(Clone, Copy, PartialEq, Eq, Structural, Debug)]
pub enum PlayerType {
    /// Killer player.
    Killer,
    /// Victim player.
    Victim,
}

} // verus!
