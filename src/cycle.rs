use vstd::prelude::*;

verus! {

/// One of the three layers of the world; only the current one stands at sea
/// level.
#[derive(Debug, Clone, Copy, PartialEq, Eq, Structural)]
pub enum Cycle {
    One,
    Two,
    Three,
}

/// Position of a cycle in the order One, Two, Three (1-based).
pub open spec fn cycle_rank(c: Cycle) -> int {
    match c {
        Cycle::One => 1,
        Cycle::Two => 2,
        Cycle::Three => 3,
    }
}

/// The cycle that follows `c`; after the third comes the first again.
pub open spec fn next_cycle(c: Cycle) -> Cycle {
    match c {
        Cycle::One => Cycle::Two,
        Cycle::Two => Cycle::Three,
        Cycle::Three => Cycle::One,
    }
}

/// Height, in metres, at which the layer of cycle `layer` stands while
/// `current` is the active cycle: the active layer at sea level, every other
/// one a hundred metres per rank below it.
pub open spec fn layer_height_spec(layer: Cycle, current: Cycle) -> int {
    if layer == current {
        0
    } else {
        -100 * cycle_rank(layer)
    }
}

impl Cycle {
    pub fn next(self) -> (r: Self)
        ensures
            r == next_cycle(self),
            cycle_rank(r) == cycle_rank(self) % 3 + 1,
    {
        match self {
            Cycle::One => Cycle::Two,
            Cycle::Two => Cycle::Three,
            Cycle::Three => Cycle::One,
        }
    }
}

/// The cycle that the world is in.
pub struct CurrentCycle(pub Cycle);

/// Event: the world moves to the given cycle.
pub struct CycleChanged(pub Cycle);

/// Height, in metres, of the layer `layer` while `current` is active.
pub fn layer_height(layer: Cycle, current: Cycle) -> (r: i32)
    ensures
        r as int == layer_height_spec(layer, current),
{
    if layer == current {
        0
    } else {
        let depth_modifier: i32 = match layer {
            Cycle::One => 1,
            Cycle::Two => 2,
            Cycle::Three => 3,
        };
        -100 * depth_modifier
    }
}

/// The cycle change that follows a check of the player's height: a player
/// who has fallen to sea level or below is sent back and the world moves on
/// to the next cycle.
pub fn respawn(current: &CurrentCycle, fallen: bool) -> (r: Option<CycleChanged>)
    ensures
        fallen <==> r is Some,
        r matches Some(e) ==> e.0 == next_cycle(current.0),
{
    if fallen {
        Some(CycleChanged(current.0.next()))
    } else {
        None
    }
}

/// Three steps of the cycle lead back to where they started.
pub proof fn lemma_cycle_period(c: Cycle)
    ensures
        next_cycle(next_cycle(next_cycle(c))) == c,
        next_cycle(c) != c,
{
}

} // verus!
