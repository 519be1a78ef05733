//! Game rules of a small island exploration game: the day/night cycle that
//! moves the world between three layers, the player's movement state, the
//! interaction and inventory state machine, and the audio and scene tables
//! that the engine layer reads.
//!
//! Entities are handled as plain `u64` ids and time as whole microseconds, so
//! every rule here is checked independently of the engine that runs it.

pub mod audio;
pub mod clock;
pub mod content;
pub mod cycle;
pub mod interaction;
pub mod movement;
pub mod scene;
pub mod screen;
pub mod text;

pub use cycle::{Cycle, CurrentCycle, CycleChanged, layer_height, respawn};
pub use audio::{
    GroundMaterial, ImageKey, PlaySfx, PlaySoundtrack, SfxKey, SoundtrackAction, SoundtrackKey,
    play_sfx, play_soundtrack, random_step,
};
pub use clock::{
    AnimationTimer, ColliderTimer, DayProgress, FootstepTimer, BOAT_RIDE_US, COLLIDER_RETRY_US,
    DAY_LENGTH_US, FAST_FORWARD_FACTOR, FOOTSTEP_INTERVAL_US,
};
pub use movement::{
    Intent, MovementController, MovementKeys, VerticalMotion, VerticalStep, COYOTE_TIME_US,
    JUMP_SPEED_UM_S, intent_of, record_movement_controller,
};
pub use text::{contains_str, starts_with_str};
pub use scene::{
    ColliderShape, Interactable, InteractableScene, InteractionKind, ScenePlan, SpawnInteractable,
    interaction_kind, model_path, spawn_colliders, spawn_interactable,
};
pub use content::{
    BoatPosition, BoatRide, CycleShift, Inventory, NamedEntity, Planting, Reaction, TargetEffect,
    animate_sun, on_boat_ride_finished, on_boat_used, on_cycle_changed, on_hourglass_taken,
    on_monument_finished, on_sapling_planted, on_sapling_taken,
};
pub use interaction::{
    RayVerdict, disable_intersecting_colliders, ground_ray_hit, handle_interaction,
    update_highlight_mesh,
};
pub use screen::{
    CreditsAction, MenuOutcome, PlayState, Screen, TitleAction, all_assets_loaded, all_loaded,
    handle_credits_action, handle_menu_action, toggle_pause,
};
