//! What a step of the game asks the outside world to do.

use vstd::prelude::*;

verus! {

/// The sounds the game can ask for.
#[derive(Clone, Copy, Debug, PartialEq, Eq, Structural)]
pub enum SoundType {
    Hover,
    Click,
    Tick,
    TickUrgent,
    Whoosh,
    Result,
    Select,
    Go,
    CardIn,
}

/// A request to the presentation layer, issued by a step of the game.
#[derive(Clone, Copy, Debug, PartialEq, Eq, Structural)]
pub enum Effect {
    /// Play a sound once.
    Sound(SoundType),
    /// Celebrate a pick with a burst of the given intensity.
    Fireworks { intensity: u128 },
}

/// How many sparks the main burst of a celebration holds.
pub open spec fn burst_size(intensity: nat) -> nat {
    if intensity * 15 < 200 {
        20 + intensity * 15
    } else {
        220
    }
}

/// How many stars accompany the main burst.
pub open spec fn star_count(intensity: nat) -> nat {
    if intensity * 5 < 50 {
        intensity * 5
    } else {
        50
    }
}

/// The number of sparks to spawn for a celebration: twenty, and fifteen more
/// per point of intensity up to two hundred more.
pub fn sparks_for(intensity: u128) -> (n: usize)
    ensures
        n == burst_size(intensity as nat),
{
    if intensity < 14 {
        20 + (intensity as usize) * 15
    } else {
        220
    }
}

/// The number of stars to spawn for a celebration: five per point of
/// intensity, fifty at most.
pub fn stars_for(intensity: u128) -> (n: usize)
    ensures
        n == star_count(intensity as nat),
{
    if intensity < 10 {
        (intensity as usize) * 5
    } else {
        50
    }
}

} // verus!
