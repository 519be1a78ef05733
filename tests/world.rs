use cycle_island::{
    animate_sun, layer_height, on_boat_ride_finished, on_boat_used, on_cycle_changed,
    on_hourglass_taken, on_monument_finished, on_sapling_planted, on_sapling_taken, respawn,
    BoatPosition, CurrentCycle, Cycle, CycleChanged, DayProgress, Inventory, MovementController,
    NamedEntity, SfxKey, TargetEffect, BOAT_RIDE_US, DAY_LENGTH_US,
};

fn named(entity: u64, name: &str) -> NamedEntity {
    NamedEntity { entity, name: name.to_string() }
}

#[test]
fn cycle_next_wraps_after_three() {
    assert_eq!(Cycle::One.next(), Cycle::Two);
    assert_eq!(Cycle::Two.next(), Cycle::Three);
    assert_eq!(Cycle::Three.next(), Cycle::One);
    assert_eq!(Cycle::Two.next().next().next(), Cycle::Two);
}

#[test]
fn layer_heights_sink_other_layers_by_rank() {
    assert_eq!(layer_height(Cycle::One, Cycle::One), 0);
    assert_eq!(layer_height(Cycle::One, Cycle::Two), -100);
    assert_eq!(layer_height(Cycle::Two, Cycle::One), -200);
    assert_eq!(layer_height(Cycle::Three, Cycle::One), -300);
    assert_eq!(layer_height(Cycle::Three, Cycle::Three), 0);
}

#[test]
fn respawn_moves_to_next_cycle_only_after_a_fall() {
    let current = CurrentCycle(Cycle::Three);
    assert!(respawn(&current, false).is_none());
    assert_eq!(respawn(&current, true).map(|e| e.0), Some(Cycle::One));
}

#[test]
fn cycle_change_moves_layers_and_resets_boat() {
    let mut current = CurrentCycle(Cycle::One);
    let mut boat = BoatPosition { docked_at_island: true, currently_rowing: false };
    let layers = vec![Cycle::One, Cycle::Two, Cycle::Three, Cycle::Two];
    let shift = on_cycle_changed(&CycleChanged(Cycle::Two), &mut current, &mut boat, &layers);
    assert_eq!(current.0, Cycle::Two);
    assert_eq!(shift.heights, vec![-100, 0, -300, 0]);
    assert!(!boat.docked_at_island);
    assert_eq!(shift.reaction.sfx, Some(SfxKey::CycleChange));
    assert_eq!(shift.reaction.prompt.as_deref(), Some(""));
    assert!(shift.reaction.target.is_none());
}

#[test]
fn cycle_change_with_no_layers() {
    let mut current = CurrentCycle(Cycle::Three);
    let mut boat = BoatPosition::new();
    let shift = on_cycle_changed(&CycleChanged(Cycle::One), &mut current, &mut boat, &vec![]);
    assert!(shift.heights.is_empty());
    assert_eq!(current.0, Cycle::One);
}

#[test]
fn day_runs_sixty_seconds_then_changes_cycle() {
    let mut day = DayProgress::new();
    let current = CurrentCycle(Cycle::One);
    let inventory = Inventory::new();
    let boat = BoatPosition::new();
    assert!(animate_sun(&mut day, &current, &inventory, &boat, false, 59_999_999).is_none());
    assert_eq!(day.elapsed_us, 59_999_999);
    let change = animate_sun(&mut day, &current, &inventory, &boat, false, 2);
    assert_eq!(change.map(|e| e.0), Some(Cycle::Two));
    assert_eq!(day.elapsed_us, 1);
    assert_eq!(DAY_LENGTH_US, 60_000_000);
}

#[test]
fn hourglass_fast_forwards_thirty_times() {
    let mut day = DayProgress::new();
    let current = CurrentCycle(Cycle::Two);
    let boat = BoatPosition::new();
    let mut inventory = Inventory::new();
    // Without the hourglass the key does nothing.
    assert!(animate_sun(&mut day, &current, &inventory, &boat, true, 1_000_000).is_none());
    assert_eq!(day.elapsed_us, 1_000_000);
    on_hourglass_taken(&mut inventory);
    let change = animate_sun(&mut day, &current, &inventory, &boat, true, 2_000_000);
    assert_eq!(change.map(|e| e.0), Some(Cycle::Three));
    assert_eq!(day.elapsed_us, 1_000_000);
    // Held without the key, time runs normally.
    assert!(animate_sun(&mut day, &current, &inventory, &boat, false, 1_000_000).is_none());
    assert_eq!(day.elapsed_us, 2_000_000);
}

#[test]
fn day_stands_still_while_rowing() {
    let mut day = DayProgress { elapsed_us: 59_000_000 };
    let current = CurrentCycle(Cycle::One);
    let boat = BoatPosition { docked_at_island: false, currently_rowing: true };
    assert!(animate_sun(&mut day, &current, &Inventory::new(), &boat, false, 5_000_000).is_none());
    assert_eq!(day.elapsed_us, 59_000_000);
}

#[test]
fn day_clock_saturates_on_huge_frames() {
    let mut day = DayProgress { elapsed_us: 10 };
    assert!(day.advance(u64::MAX, true, true, false));
    assert_eq!(day.elapsed_us, u64::MAX - DAY_LENGTH_US);
}

#[test]
fn taking_the_hourglass() {
    let mut inventory = Inventory::new();
    let reaction = on_hourglass_taken(&mut inventory);
    assert!(inventory.hourglass);
    assert!(!inventory.sapling);
    assert_eq!(reaction.sfx, Some(SfxKey::PickupHourglass));
    assert_eq!(reaction.prompt.as_deref(), Some("Hold Q: Fast-forward time"));
    assert_eq!(reaction.target, Some(TargetEffect::Despawn));
}

#[test]
fn taking_the_sapling_removes_lower_tree_parts() {
    let mut inventory = Inventory::new();
    let objects = vec![
        named(1, "Sapling.001"),
        named(2, "Rock"),
        named(3, "TreeLower_col"),
        named(4, "TreeUpper"),
        named(5, "OldSaplingRoot"),
    ];
    let (reaction, despawn) = on_sapling_taken(&mut inventory, &objects);
    assert!(inventory.sapling);
    assert_eq!(despawn, vec![1, 3, 5]);
    assert_eq!(reaction.sfx, Some(SfxKey::Harvest));
    assert!(reaction.prompt.is_none());
    assert_eq!(reaction.target, Some(TargetEffect::DisableCollider));
}

#[test]
fn planting_the_sapling_reveals_the_tree() {
    let mut inventory = Inventory { hourglass: true, sapling: true };
    let objects = vec![
        named(7, "FinalSapling"),
        named(8, "TreeUpper.002"),
        named(9, "Sapling"),
        named(10, "Mound"),
    ];
    let planting = on_sapling_planted(&mut inventory, &objects);
    assert!(!inventory.sapling);
    assert!(inventory.hourglass);
    assert_eq!(planting.reveal, vec![7, 8]);
    assert_eq!(planting.enable_collider, vec![8]);
    assert_eq!(planting.reaction.sfx, Some(SfxKey::Harvest));
}

#[test]
fn sapling_with_no_matching_objects() {
    let mut inventory = Inventory::new();
    let (_, despawn) = on_sapling_taken(&mut inventory, &vec![]);
    assert!(despawn.is_empty());
}

#[test]
fn finishing_the_monument_only_frees_the_stone() {
    let reaction = on_monument_finished();
    assert!(reaction.sfx.is_none());
    assert!(reaction.prompt.is_none());
    assert_eq!(reaction.target, Some(TargetEffect::DisableCollider));
}

#[test]
fn boat_ride_there_and_back() {
    let mut boat = BoatPosition::new();
    let mut controller = MovementController::new();
    let ride = on_boat_used(&mut boat, &mut controller);
    assert_eq!(ride.animation_index, 0);
    assert!(boat.docked_at_island);
    assert!(boat.currently_rowing);
    assert!(controller.disabled);
    assert_eq!(ride.reaction.sfx, Some(SfxKey::Row));
    assert_eq!(ride.reaction.prompt.as_deref(), Some(""));
    assert_eq!(ride.timer.duration_us, BOAT_RIDE_US);
    assert_eq!(ride.timer.elapsed_us, 0);

    on_boat_ride_finished(&mut boat, &mut controller);
    assert!(!boat.currently_rowing);
    assert!(boat.docked_at_island);
    assert!(!controller.disabled);

    let back = on_boat_used(&mut boat, &mut controller);
    assert_eq!(back.animation_index, 1);
    assert!(!boat.docked_at_island);
}
