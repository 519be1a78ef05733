use cycle_island::{
    all_assets_loaded, all_loaded, contains_str, disable_intersecting_colliders, ground_ray_hit,
    handle_credits_action, handle_interaction, handle_menu_action, interaction_kind, model_path,
    play_sfx, play_soundtrack, random_step, spawn_colliders, spawn_interactable, starts_with_str,
    toggle_pause, update_highlight_mesh, ColliderShape, CreditsAction, GroundMaterial,
    Interactable, InteractableScene, InteractionKind, MenuOutcome, PlaySfx, PlaySoundtrack,
    PlayState, RayVerdict, Screen, SfxKey, SoundtrackAction, SoundtrackKey, TitleAction,
};

const GRASS: [SfxKey; 4] = [SfxKey::GrassStep1, SfxKey::GrassStep2, SfxKey::GrassStep3, SfxKey::GrassStep4];
const HARD: [SfxKey; 4] = [SfxKey::HardStep1, SfxKey::HardStep2, SfxKey::HardStep3, SfxKey::HardStep4];

#[test]
fn random_steps_come_from_the_material() {
    for _ in 0..64 {
        assert!(GRASS.contains(&random_step(&GroundMaterial::Grass)));
        assert!(HARD.contains(&random_step(&GroundMaterial::Solid)));
    }
}

#[test]
fn sfx_events_resolve_to_keys() {
    assert_eq!(play_sfx(&PlaySfx::Key(SfxKey::ButtonPress)), SfxKey::ButtonPress);
    assert!(HARD.contains(&play_sfx(&PlaySfx::RandomStep(GroundMaterial::Solid))));
}

#[test]
fn only_the_cycle_music_is_tagged() {
    assert_eq!(
        play_soundtrack(&PlaySoundtrack::Key(SoundtrackKey::CycleOne)),
        SoundtrackAction::Start { key: SoundtrackKey::CycleOne, mark: true }
    );
    assert_eq!(
        play_soundtrack(&PlaySoundtrack::Key(SoundtrackKey::OceanAmbiance)),
        SoundtrackAction::Start { key: SoundtrackKey::OceanAmbiance, mark: false }
    );
    assert_eq!(play_soundtrack(&PlaySoundtrack::Disable), SoundtrackAction::StopMarked);
}

#[test]
fn substring_and_prefix() {
    assert!(contains_str("TreeUpper.001", "Upper"));
    assert!(contains_str("abc", ""));
    assert!(!contains_str("ab", "abc"));
    assert!(!contains_str("", "a"));
    assert!(contains_str("aab", "ab"));
    assert!(starts_with_str("E: Take", "E: "));
    assert!(!starts_with_str("Hold Q", "E: "));
    assert!(!starts_with_str("E:", "E: "));
}

#[test]
fn footstep_ray_verdicts() {
    assert_eq!(ground_ray_hit(1, 1, 2), RayVerdict::KeepSearching);
    assert_eq!(ground_ray_hit(2, 1, 2), RayVerdict::Step(GroundMaterial::Grass));
    assert_eq!(ground_ray_hit(3, 1, 2), RayVerdict::Step(GroundMaterial::Solid));
}

#[test]
fn interaction_reaches_only_the_highlighted_object() {
    let ids = vec![4, 5, 6];
    assert_eq!(handle_interaction(Some(5), true, &ids), vec![5]);
    assert!(handle_interaction(Some(5), false, &ids).is_empty());
    assert!(handle_interaction(None, true, &ids).is_empty());
    assert!(handle_interaction(Some(9), true, &ids).is_empty());
}

#[test]
fn only_intersecting_colliders_are_disabled() {
    let pairs = vec![(1, true), (2, false), (3, true)];
    assert_eq!(disable_intersecting_colliders(&pairs), vec![1, 3]);
    assert!(disable_intersecting_colliders(&vec![]).is_empty());
}

fn entry(entity: u64, mesh: Option<u64>, text: &str) -> (u64, Interactable) {
    (entity, Interactable { highlight_mesh: mesh, text: text.to_string() })
}

#[test]
fn highlight_shows_mesh_and_prompt() {
    let entries = vec![entry(1, Some(11), "E: Use"), entry(2, None, "E: Take"), entry(3, Some(13), "E: Take")];
    let mut prompt = String::new();
    let shown = update_highlight_mesh(Some(3), &entries, &mut prompt);
    assert_eq!(shown, vec![(11, false), (13, true)]);
    assert_eq!(prompt, "E: Take");
}

#[test]
fn nothing_highlighted_clears_only_interaction_prompts() {
    let entries = vec![entry(1, Some(11), "E: Use")];
    let mut prompt = "E: Use".to_string();
    assert_eq!(update_highlight_mesh(None, &entries, &mut prompt), vec![(11, false)]);
    assert_eq!(prompt, "");
    let mut prompt = "Hold Q: Fast-forward time".to_string();
    update_highlight_mesh(Some(2), &entries, &mut prompt);
    assert_eq!(prompt, "Hold Q: Fast-forward time");
}

#[test]
fn scene_markers_spawn_interactables() {
    assert_eq!(spawn_colliders("SpawnBoat", false).spawn, Some(InteractableScene::Boat));
    assert_eq!(spawn_colliders("SpawnHourglass.001", false).spawn, Some(InteractableScene::Hourglass));
    assert_eq!(spawn_colliders("SpawnLowerMound", false).spawn, Some(InteractableScene::MoundLower));
    assert_eq!(spawn_colliders("SpawnUpperMound", false).spawn, Some(InteractableScene::MoundUpper));
    assert_eq!(spawn_colliders("SpawnStone", false).spawn, Some(InteractableScene::Stone));
    assert_eq!(spawn_colliders("SpawnBunker", false).spawn, Some(InteractableScene::Bunker));
    assert_eq!(spawn_colliders("Rock", true).spawn, None);
}

#[test]
fn scene_colliders_and_visibility() {
    let terrain = spawn_colliders("terrain_col", true);
    assert_eq!(terrain.collider, Some(ColliderShape::Heightfield));
    assert!(!terrain.strip_mesh);
    let wall = spawn_colliders("wall_colonly", true);
    assert_eq!(wall.collider, Some(ColliderShape::TriMesh));
    assert!(wall.strip_mesh);
    let no_mesh = spawn_colliders("wall_colonly", false);
    assert_eq!(no_mesh.collider, None);
    assert!(no_mesh.strip_mesh);
    let tree = spawn_colliders("TreeUpper_col", true);
    assert!(tree.hide && tree.disable_collider);
    assert!(spawn_colliders("FinalSap", false).hide);
    assert!(spawn_colliders("finished_monument", false).hide);
    let rock = spawn_colliders("Rock", true);
    assert!(!rock.hide && rock.collider.is_none());
}

#[test]
fn highlight_meshes_skip_other_setup() {
    let plan = spawn_colliders("boat_highlight_col", true);
    assert!(plan.highlight);
    assert_eq!(plan.collider, None);
    assert!(!plan.hide && !plan.strip_mesh);
}

#[test]
fn interactable_table() {
    assert_eq!(spawn_interactable(InteractableScene::Boat).text, "E: Use");
    assert_eq!(spawn_interactable(InteractableScene::MoundUpper).text, "E: Plant Sapling");
    assert_eq!(spawn_interactable(InteractableScene::Bunker).text, "E: Return to Vault");
    assert!(spawn_interactable(InteractableScene::Stone).highlight_mesh.is_none());
    assert_eq!(model_path(InteractableScene::MoundLower), "models/mound.glb");
    assert_eq!(interaction_kind(InteractableScene::Hourglass), InteractionKind::TakeHourglass);
    assert_eq!(interaction_kind(InteractableScene::Bunker), InteractionKind::FinishGame);
}

#[test]
fn menus_and_pause() {
    assert_eq!(toggle_pause(PlayState::InGame), PlayState::InMenu);
    assert_eq!(toggle_pause(PlayState::InMenu), PlayState::InGame);
    assert_eq!(handle_menu_action(TitleAction::Play, true), MenuOutcome::Enter(PlayState::InGame));
    assert_eq!(handle_menu_action(TitleAction::Credits, true), MenuOutcome::Stay);
    assert_eq!(handle_menu_action(TitleAction::Exit, true), MenuOutcome::Quit);
    assert_eq!(handle_menu_action(TitleAction::Exit, false), MenuOutcome::Stay);
    assert_eq!(handle_credits_action(CreditsAction::Back, true), Some(Screen::Playing));
    assert_eq!(handle_credits_action(CreditsAction::Back, false), None);
}

#[test]
fn assets_loaded_only_when_all_are() {
    assert!(all_loaded(&vec![]));
    assert!(all_loaded(&vec![true, true]));
    assert!(!all_loaded(&vec![true, false]));
    assert!(all_assets_loaded(&vec![true], &vec![true, true], &vec![]));
    assert!(!all_assets_loaded(&vec![true], &vec![true, false], &vec![true]));
}
