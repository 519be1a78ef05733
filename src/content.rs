use vstd::prelude::*;

use crate::audio::SfxKey;
use crate::clock::{day_time_after, time_factor, AnimationTimer, DayProgress, BOAT_RIDE_US, DAY_LENGTH_US};
use crate::cycle::{layer_height, layer_height_spec, next_cycle, CurrentCycle, Cycle, CycleChanged};
use crate::movement::MovementController;
use crate::text::{contains_str, has_substring};

verus! {

/// What the player carries.
#[derive(Debug, Clone, Copy, PartialEq, Eq, Structural)]
pub struct Inventory {
    pub hourglass: bool,
    pub sapling: bool,
}

impl Inventory {
    pub fn new() -> (r: Self)
        ensures
            !r.hourglass,
            !r.sapling,
    {
        Inventory { hourglass: false, sapling: false }
    }
}

/// Where the boat is and whether a ride is under way.
#[derive(Debug, Clone, Copy, PartialEq, Eq, Structural)]
pub struct BoatPosition {
    pub docked_at_island: bool,
    pub currently_rowing: bool,
}

impl BoatPosition {
    pub fn new() -> (r: Self)
        ensures
            !r.docked_at_island,
            !r.currently_rowing,
    {
        BoatPosition { docked_at_island: false, currently_rowing: false }
    }
}

/// What happens to the object that was interacted with.
#[derive(Debug, Clone, Copy, PartialEq, Eq, Structural)]
pub enum TargetEffect {
    Despawn,
    DisableCollider,
}

/// The visible outcome of an event: a sound, a new prompt text, and what
/// becomes of the object interacted with, if there is one.
pub struct Reaction {
    pub sfx: Option<SfxKey>,
    pub prompt: Option<String>,
    pub target: Option<TargetEffect>,
}

/// A named entity of the loaded scenes.
pub struct NamedEntity {
    pub entity: u64,
    pub name: String,
}

/// The ids, in order, of the entities whose names hold `first` or `second`.
pub open spec fn ids_naming(objects: Seq<NamedEntity>, first: Seq<char>, second: Seq<char>) -> Seq<
    u64,
>
    decreases objects.len(),
{
    if objects.len() == 0 {
        seq![]
    } else {
        let rest = ids_naming(objects.drop_last(), first, second);
        let name = objects.last().name@;
        if has_substring(name, first) || has_substring(name, second) {
            rest.push(objects.last().entity)
        } else {
            rest
        }
    }
}

/// The prompt after the hourglass is taken.
pub open spec fn hourglass_prompt() -> Seq<char> {
    "Hold Q: Fast-forward time"@
}

/// Taking the hourglass: it goes into the inventory, the prompt explains
/// the fast-forward key, and the hourglass leaves the world.
pub fn on_hourglass_taken(inventory: &mut Inventory) -> (r: Reaction)
    ensures
        final(inventory).hourglass,
        final(inventory).sapling == old(inventory).sapling,
        r.sfx == Some(SfxKey::PickupHourglass),
        r.prompt matches Some(p) && p@ == hourglass_prompt(),
        r.target == Some(TargetEffect::Despawn),
{
    inventory.hourglass = true;
    Reaction {
        sfx: Some(SfxKey::PickupHourglass),
        prompt: Some("Hold Q: Fast-forward time".to_owned()),
        target: Some(TargetEffect::Despawn),
    }
}

fn select_ids(objects: &Vec<NamedEntity>, first: &str, second: &str) -> (r: Vec<u64>)
    ensures
        r@ == ids_naming(objects@, first@, second@),
{
    let mut out: Vec<u64> = Vec::new();
    let mut i: usize = 0;
    while i < objects.len()
        invariant
            i <= objects.len(),
            out@ == ids_naming(objects@.take(i as int), first@, second@),
        decreases objects.len() - i,
    {
        let o = &objects[i];
        let hit = contains_str(o.name.as_str(), first) || contains_str(o.name.as_str(), second);
        if hit {
            out.push(o.entity);
        }
        assert(objects@.take(i + 1).drop_last() =~= objects@.take(i as int));
        i = i + 1;
    }
    assert(objects@.take(objects@.len() as int) =~= objects@);
    out
}

/// Taking the sapling from the lower mound: it goes into the inventory, the
/// lower tree parts leave the world (their ids are returned), and the mound
/// stops blocking.
pub fn on_sapling_taken(inventory: &mut Inventory, objects: &Vec<NamedEntity>) -> (r: (
    Reaction,
    Vec<u64>,
))
    ensures
        final(inventory).sapling,
        final(inventory).hourglass == old(inventory).hourglass,
        r.0.sfx == Some(SfxKey::Harvest),
        r.0.prompt is None,
        r.0.target == Some(TargetEffect::DisableCollider),
        r.1@ == ids_naming(objects@, "Sapling"@, "TreeLower"@),
{
    inventory.sapling = true;
    let despawn = select_ids(objects, "Sapling", "TreeLower");
    let reaction = Reaction {
        sfx: Some(SfxKey::Harvest),
        prompt: None,
        target: Some(TargetEffect::DisableCollider),
    };
    (reaction, despawn)
}

/// What planting the sapling changes in the world.
pub struct Planting {
    pub reaction: Reaction,
    /// Entities that become visible: the grown sapling and the upper tree.
    pub reveal: Vec<u64>,
    /// Entities whose colliders come back: the upper tree.
    pub enable_collider: Vec<u64>,
}

/// Planting the sapling on the upper mound: it leaves the inventory, the
/// grown tree appears and becomes solid, and the mound stops blocking.
pub fn on_sapling_planted(inventory: &mut Inventory, objects: &Vec<NamedEntity>) -> (r: Planting)
    ensures
        !final(inventory).sapling,
        final(inventory).hourglass == old(inventory).hourglass,
        r.reaction.sfx == Some(SfxKey::Harvest),
        r.reaction.prompt is None,
        r.reaction.target == Some(TargetEffect::DisableCollider),
        r.reveal@ == ids_naming(objects@, "FinalSap"@, "TreeUpper"@),
        r.enable_collider@ == ids_naming(objects@, "TreeUpper"@, "TreeUpper"@),
{
    inventory.sapling = false;
    let reveal = select_ids(objects, "FinalSap", "TreeUpper");
    let enable_collider = select_ids(objects, "TreeUpper", "TreeUpper");
    let reaction = Reaction {
        sfx: Some(SfxKey::Harvest),
        prompt: None,
        target: Some(TargetEffect::DisableCollider),
    };
    Planting { reaction, reveal, enable_collider }
}

/// Finishing the monument: the stone stops blocking; nothing else changes.
pub fn on_monument_finished() -> (r: Reaction)
    ensures
        r.sfx is None,
        r.prompt is None,
        r.target == Some(TargetEffect::DisableCollider),
{
    Reaction { sfx: None, prompt: None, target: Some(TargetEffect::DisableCollider) }
}

/// What a boat ride sets going.
pub struct BoatRide {
    pub reaction: Reaction,
    /// The ride animation to play: 0 out to the island, 1 back.
    pub animation_index: usize,
    /// Runs for the length of the ride.
    pub timer: AnimationTimer,
}

/// Using the boat: the prompt clears, the player's controls are disabled
/// for the ride, the boat crosses to the other shore and a timer runs for
/// the length of the ride.
pub fn on_boat_used(boat: &mut BoatPosition, controller: &mut MovementController) -> (r: BoatRide)
    ensures
        r.animation_index == if old(boat).docked_at_island { 1usize } else { 0usize },
        final(boat).docked_at_island == !old(boat).docked_at_island,
        final(boat).currently_rowing,
        final(controller).disabled,
        final(controller).direction == old(controller).direction,
        final(controller).jump == old(controller).jump,
        r.reaction.sfx == Some(SfxKey::Row),
        r.reaction.prompt matches Some(p) && p@.len() == 0,
        r.reaction.target == Some(TargetEffect::DisableCollider),
        r.timer.duration_us == BOAT_RIDE_US,
        r.timer.elapsed_us == 0,
{
    let animation_index: usize = if boat.docked_at_island {
        1
    } else {
        0
    };
    controller.disabled = true;
    boat.docked_at_island = !boat.docked_at_island;
    boat.currently_rowing = true;
    let reaction = Reaction {
        sfx: Some(SfxKey::Row),
        prompt: Some(String::new()),
        target: Some(TargetEffect::DisableCollider),
    };
    BoatRide { reaction, animation_index, timer: AnimationTimer::new(BOAT_RIDE_US) }
}

/// The end of a boat ride: the player's controls come back and the boat is
/// at rest.
pub fn on_boat_ride_finished(boat: &mut BoatPosition, controller: &mut MovementController)
    ensures
        !final(boat).currently_rowing,
        final(boat).docked_at_island == old(boat).docked_at_island,
        !final(controller).disabled,
        final(controller).direction == old(controller).direction,
        final(controller).jump == old(controller).jump,
{
    controller.disabled = false;
    boat.currently_rowing = false;
}

/// What a change of cycle sets going.
pub struct CycleShift {
    pub reaction: Reaction,
    /// The new height, in metres, of each world layer given.
    pub heights: Vec<i32>,
}

/// The world moves to the cycle of the event: each layer goes to its height,
/// the prompt clears, the cycle sound plays and the boat returns to its
/// mooring off the island.
pub fn on_cycle_changed(
    event: &CycleChanged,
    current: &mut CurrentCycle,
    boat: &mut BoatPosition,
    layers: &Vec<Cycle>,
) -> (r: CycleShift)
    ensures
        final(current).0 == event.0,
        !final(boat).docked_at_island,
        final(boat).currently_rowing == old(boat).currently_rowing,
        r.heights@.len() == layers@.len(),
        forall|i: int|
            0 <= i < layers@.len() ==> r.heights@[i] as int == layer_height_spec(layers@[i], event.0),
        r.reaction.sfx == Some(SfxKey::CycleChange),
        r.reaction.prompt matches Some(p) && p@.len() == 0,
        r.reaction.target is None,
{
    current.0 = event.0;
    let mut heights: Vec<i32> = Vec::new();
    let mut i: usize = 0;
    while i < layers.len()
        invariant
            i <= layers@.len(),
            heights@.len() == i,
            forall|k: int|
                0 <= k < i ==> heights@[k] as int == layer_height_spec(layers@[k], event.0),
        decreases layers.len() - i,
    {
        heights.push(layer_height(layers[i], event.0));
        i = i + 1;
    }
    boat.docked_at_island = false;
    let reaction = Reaction {
        sfx: Some(SfxKey::CycleChange),
        prompt: Some(String::new()),
        target: None,
    };
    CycleShift { reaction, heights }
}

/// Runs the day for one frame of `delta_us` microseconds: time stands still
/// during a boat ride, and runs fast while the player holds the fast-forward
/// key with the hourglass in the inventory. When the day is over, the world
/// moves to the next cycle.
pub fn animate_sun(
    day: &mut DayProgress,
    current: &CurrentCycle,
    inventory: &Inventory,
    boat: &BoatPosition,
    fast_forward_held: bool,
    delta_us: u64,
) -> (r: Option<CycleChanged>)
    ensures
        boat.currently_rowing ==> r is None && final(day).elapsed_us == old(day).elapsed_us,
        !boat.currently_rowing ==> ({
            let t = day_time_after(
                old(day).elapsed_us as int,
                delta_us as int,
                time_factor(inventory.hourglass, fast_forward_held),
            );
            &&& (r is Some) == (t >= DAY_LENGTH_US)
            &&& final(day).elapsed_us == if t >= DAY_LENGTH_US { t - DAY_LENGTH_US } else { t }
        }),
        r matches Some(e) ==> e.0 == next_cycle(current.0),
{
    let day_over = day.advance(
        delta_us,
        inventory.hourglass,
        fast_forward_held,
        boat.currently_rowing,
    );
    if day_over {
        Some(CycleChanged(current.0.next()))
    } else {
        None
    }
}

} // verus!
