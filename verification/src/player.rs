use vstd::prelude::*;

verus! {

/// Marks the entity the player controls: the ship. Input sampling applies
/// to this entity alone, and tolerates its absence after destruction.
#[derive(Clone, Copy, PartialEq, Eq, Structural, Debug)]
pub struct Player;

} // verus!
