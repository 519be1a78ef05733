use vstd::prelude::*;

use crate::text::{contains_str, has_substring};

verus! {

/// The kinds of object that the player can interact with.
#[derive(Debug, Clone, Copy, PartialEq, Eq, Structural)]
pub enum InteractableScene {
    Boat,
    Hourglass,
    MoundLower,
    MoundUpper,
    Stone,
    Bunker,
}

/// What happens when the player interacts with an object of a kind.
#[derive(Debug, Clone, Copy, PartialEq, Eq, Structural)]
pub enum InteractionKind {
    UseBoat,
    TakeHourglass,
    TakeSapling,
    PlantSapling,
    FinishMonument,
    FinishGame,
}

/// Event: place an interactable of the given kind under the given entity.
pub struct SpawnInteractable(pub InteractableScene, pub u64);

/// An object that can be interacted with: the mesh that lights up while it
/// is aimed at, and the prompt shown then.
pub struct Interactable {
    pub highlight_mesh: Option<u64>,
    pub text: String,
}

impl Interactable {
    pub fn new(text: String) -> (r: Self)
        ensures
            r.highlight_mesh is None,
            r.text == text,
    {
        Interactable { highlight_mesh: None, text }
    }
}

/// The prompt shown while an object of the kind is aimed at.
pub open spec fn prompt_spec(scene: InteractableScene) -> Seq<char> {
    match scene {
        InteractableScene::Boat => "E: Use"@,
        InteractableScene::Hourglass => "E: Take"@,
        InteractableScene::MoundLower => "E: Take"@,
        InteractableScene::MoundUpper => "E: Plant Sapling"@,
        InteractableScene::Stone => "E: Finish monument"@,
        InteractableScene::Bunker => "E: Return to Vault"@,
    }
}

pub open spec fn model_spec(scene: InteractableScene) -> Seq<char> {
    match scene {
        InteractableScene::Boat => "models/boat.glb"@,
        InteractableScene::Hourglass => "models/hourglass.glb"@,
        InteractableScene::MoundLower => "models/mound.glb"@,
        InteractableScene::MoundUpper => "models/mound_upper.glb"@,
        InteractableScene::Stone => "models/stone.glb"@,
        InteractableScene::Bunker => "models/bunker.glb"@,
    }
}

pub open spec fn interaction_spec(scene: InteractableScene) -> InteractionKind {
    match scene {
        InteractableScene::Boat => InteractionKind::UseBoat,
        InteractableScene::Hourglass => InteractionKind::TakeHourglass,
        InteractableScene::MoundLower => InteractionKind::TakeSapling,
        InteractableScene::MoundUpper => InteractionKind::PlantSapling,
        InteractableScene::Stone => InteractionKind::FinishMonument,
        InteractableScene::Bunker => InteractionKind::FinishGame,
    }
}

/// The model file of an interactable kind.
pub fn model_path(scene: InteractableScene) -> (r: &'static str)
    ensures
        r@ == model_spec(scene),
{
    match scene {
        InteractableScene::Boat => "models/boat.glb",
        InteractableScene::Hourglass => "models/hourglass.glb",
        InteractableScene::MoundLower => "models/mound.glb",
        InteractableScene::MoundUpper => "models/mound_upper.glb",
        InteractableScene::Stone => "models/stone.glb",
        InteractableScene::Bunker => "models/bunker.glb",
    }
}

/// The handler that an interactable kind is given.
pub fn interaction_kind(scene: InteractableScene) -> (r: InteractionKind)
    ensures
        r == interaction_spec(scene),
{
    match scene {
        InteractableScene::Boat => InteractionKind::UseBoat,
        InteractableScene::Hourglass => InteractionKind::TakeHourglass,
        InteractableScene::MoundLower => InteractionKind::TakeSapling,
        InteractableScene::MoundUpper => InteractionKind::PlantSapling,
        InteractableScene::Stone => InteractionKind::FinishMonument,
        InteractableScene::Bunker => InteractionKind::FinishGame,
    }
}

/// The interactable component for a new object of the kind: its prompt,
/// and no highlight mesh yet.
pub fn spawn_interactable(scene: InteractableScene) -> (r: Interactable)
    ensures
        r.highlight_mesh is None,
        r.text@ == prompt_spec(scene),
{
    let text = match scene {
        InteractableScene::Boat => "E: Use",
        InteractableScene::Hourglass => "E: Take",
        InteractableScene::MoundLower => "E: Take",
        InteractableScene::MoundUpper => "E: Plant Sapling",
        InteractableScene::Stone => "E: Finish monument",
        InteractableScene::Bunker => "E: Return to Vault",
    };
    Interactable::new(text.to_owned())
}

/// The collision shape built for a scene mesh.
#[derive(Debug, Clone, Copy, PartialEq, Eq, Structural)]
pub enum ColliderShape {
    /// A height field sampled from the mesh: used for the terrain.
    Heightfield,
    /// The mesh's own triangles.
    TriMesh,
}

/// What to do with one named object of a freshly loaded scene.
#[derive(Debug, Clone, Copy, PartialEq, Eq, Structural)]
pub struct ScenePlan {
    /// An interactable to place at the object.
    pub spawn: Option<InteractableScene>,
    /// The object is the highlight mesh of an interactable: it is attached to
    /// the interactable that holds it and hidden; nothing below applies.
    pub highlight: bool,
    /// The object starts hidden.
    pub hide: bool,
    /// The object's collider starts disabled.
    pub disable_collider: bool,
    /// A fixed collider to build from the object's mesh.
    pub collider: Option<ColliderShape>,
    /// The object only serves as a collider: its mesh is not drawn.
    pub strip_mesh: bool,
}

/// The interactable that a marker name asks for; the first marker found, in
/// the order below, wins.
pub open spec fn spawn_spec(name: Seq<char>) -> Option<InteractableScene> {
    if has_substring(name, "SpawnBoat"@) {
        Some(InteractableScene::Boat)
    } else if has_substring(name, "SpawnHourglass"@) {
        Some(InteractableScene::Hourglass)
    } else if has_substring(name, "SpawnLowerMound"@) {
        Some(InteractableScene::MoundLower)
    } else if has_substring(name, "SpawnUpperMound"@) {
        Some(InteractableScene::MoundUpper)
    } else if has_substring(name, "SpawnStone"@) {
        Some(InteractableScene::Stone)
    } else if has_substring(name, "SpawnBunker"@) {
        Some(InteractableScene::Bunker)
    } else {
        None
    }
}

pub open spec fn scene_plan_spec(name: Seq<char>, has_mesh: bool) -> ScenePlan {
    let highlight = has_substring(name, "highlight"@);
    let col = has_substring(name, "_col"@);
    if highlight {
        ScenePlan {
            spawn: spawn_spec(name),
            highlight: true,
            hide: false,
            disable_collider: false,
            collider: None,
            strip_mesh: false,
        }
    } else {
        ScenePlan {
            spawn: spawn_spec(name),
            highlight: false,
            hide: has_substring(name, "FinalSap"@) || has_substring(name, "finished_monument"@)
                || has_substring(name, "TreeUpper"@),
            disable_collider: has_substring(name, "TreeUpper"@),
            collider: if col && has_mesh {
                Some(
                    if has_substring(name, "terrain"@) {
                        ColliderShape::Heightfield
                    } else {
                        ColliderShape::TriMesh
                    },
                )
            } else {
                None
            },
            strip_mesh: col && has_substring(name, "_colonly"@),
        }
    }
}

fn spawn_for(name: &str) -> (r: Option<InteractableScene>)
    ensures
        r == spawn_spec(name@),
{
    if contains_str(name, "SpawnBoat") {
        Some(InteractableScene::Boat)
    } else if contains_str(name, "SpawnHourglass") {
        Some(InteractableScene::Hourglass)
    } else if contains_str(name, "SpawnLowerMound") {
        Some(InteractableScene::MoundLower)
    } else if contains_str(name, "SpawnUpperMound") {
        Some(InteractableScene::MoundUpper)
    } else if contains_str(name, "SpawnStone") {
        Some(InteractableScene::Stone)
    } else if contains_str(name, "SpawnBunker") {
        Some(InteractableScene::Bunker)
    } else {
        None
    }
}

/// How a named object of a loaded scene is set up, from its name and
/// whether it carries a mesh.
pub fn spawn_colliders(name: &str, has_mesh: bool) -> (r: ScenePlan)
    ensures
        r == scene_plan_spec(name@, has_mesh),
{
    let spawn = spawn_for(name);
    if contains_str(name, "highlight") {
        return ScenePlan {
            spawn,
            highlight: true,
            hide: false,
            disable_collider: false,
            collider: None,
            strip_mesh: false,
        };
    }
    let upper_tree = contains_str(name, "TreeUpper");
    let hide = contains_str(name, "FinalSap") || contains_str(name, "finished_monument")
        || upper_tree;
    let col = contains_str(name, "_col");
    let collider = if col && has_mesh {
        if contains_str(name, "terrain") {
            Some(ColliderShape::Heightfield)
        } else {
            Some(ColliderShape::TriMesh)
        }
    } else {
        None
    };
    let strip_mesh = col && contains_str(name, "_colonly");
    ScenePlan { spawn, highlight: false, hide, disable_collider: upper_tree, collider, strip_mesh }
}

} // verus!
