use vstd::prelude::*;

use crate::audio::GroundMaterial;
use crate::scene::Interactable;
use crate::text::{has_prefix, starts_with_str};

verus! {

/// What a ray cast down from the player's feet makes of one hit.
#[derive(Debug, Clone, Copy, PartialEq, Eq, Structural)]
pub enum RayVerdict {
    /// The ray hit the player's own collider: look further.
    KeepSearching,
    /// The ray hit the ground: play a footstep on this material and stop.
    Step(GroundMaterial),
}

/// The verdict on a hit of the footstep ray: the player's own collider is
/// passed over, the terrain sounds like grass, anything else is solid.
pub fn ground_ray_hit(hit: u64, player: u64, terrain: u64) -> (r: RayVerdict)
    ensures
        hit == player ==> r == RayVerdict::KeepSearching,
        hit != player && hit == terrain ==> r == RayVerdict::Step(GroundMaterial::Grass),
        hit != player && hit != terrain ==> r == RayVerdict::Step(GroundMaterial::Solid),
{
    if hit == player {
        RayVerdict::KeepSearching
    } else if hit == terrain {
        RayVerdict::Step(GroundMaterial::Grass)
    } else {
        RayVerdict::Step(GroundMaterial::Solid)
    }
}

/// The ids of `ids`, in order, that equal `target`.
pub open spec fn ids_equal(ids: Seq<u64>, target: u64) -> Seq<u64>
    decreases ids.len(),
{
    if ids.len() == 0 {
        seq![]
    } else {
        let rest = ids_equal(ids.drop_last(), target);
        if ids.last() == target {
            rest.push(target)
        } else {
            rest
        }
    }
}

/// The interactables that receive an interaction this frame: the one aimed
/// at, if the interact key was just pressed.
pub fn handle_interaction(
    highlighted: Option<u64>,
    interact_pressed: bool,
    interactables: &Vec<u64>,
) -> (r: Vec<u64>)
    ensures
        r@ == match highlighted {
            Some(h) => if interact_pressed {
                ids_equal(interactables@, h)
            } else {
                seq![]
            },
            None => seq![],
        },
{
    let mut out: Vec<u64> = Vec::new();
    let h = match highlighted {
        Some(h) => h,
        None => {
            return out;
        },
    };
    if !interact_pressed {
        return out;
    }
    let mut i: usize = 0;
    while i < interactables.len()
        invariant
            i <= interactables@.len(),
            out@ == ids_equal(interactables@.take(i as int), h),
        decreases interactables.len() - i,
    {
        if interactables[i] == h {
            out.push(h);
        }
        assert(interactables@.take(i + 1).drop_last() =~= interactables@.take(i as int));
        i = i + 1;
    }
    assert(interactables@.take(interactables@.len() as int) =~= interactables@);
    out
}

/// The ids, in order, of the pairs that are marked as intersecting.
pub open spec fn intersecting_ids(pairs: Seq<(u64, bool)>) -> Seq<u64>
    decreases pairs.len(),
{
    if pairs.len() == 0 {
        seq![]
    } else {
        let rest = intersecting_ids(pairs.drop_last());
        if pairs.last().1 {
            rest.push(pairs.last().0)
        } else {
            rest
        }
    }
}

/// The colliders to disable: those that the player currently intersects.
/// Each pair is an entity in contact with the player and whether the two
/// actually intersect.
pub fn disable_intersecting_colliders(pairs: &Vec<(u64, bool)>) -> (r: Vec<u64>)
    ensures
        r@ == intersecting_ids(pairs@),
{
    let mut out: Vec<u64> = Vec::new();
    let mut i: usize = 0;
    while i < pairs.len()
        invariant
            i <= pairs@.len(),
            out@ == intersecting_ids(pairs@.take(i as int)),
        decreases pairs.len() - i,
    {
        let (entity, intersecting) = pairs[i];
        if intersecting {
            out.push(entity);
        }
        assert(pairs@.take(i + 1).drop_last() =~= pairs@.take(i as int));
        i = i + 1;
    }
    assert(pairs@.take(pairs@.len() as int) =~= pairs@);
    out
}

/// For each interactable with a highlight mesh, in order, the mesh and
/// whether it is shown: only the aimed-at object's mesh is.
pub open spec fn mesh_visibility(entries: Seq<(u64, Interactable)>, highlighted: Option<u64>) -> Seq<
    (u64, bool),
>
    decreases entries.len(),
{
    if entries.len() == 0 {
        seq![]
    } else {
        let rest = mesh_visibility(entries.drop_last(), highlighted);
        match entries.last().1.highlight_mesh {
            Some(m) => rest.push((m, highlighted == Some(entries.last().0))),
            None => rest,
        }
    }
}

/// The prompt of the last aimed-at interactable that has a highlight mesh.
pub open spec fn highlighted_prompt(entries: Seq<(u64, Interactable)>, highlighted: Option<u64>) -> Option<
    Seq<char>,
>
    decreases entries.len(),
{
    if entries.len() == 0 {
        None
    } else if entries.last().1.highlight_mesh is Some && highlighted == Some(entries.last().0) {
        Some(entries.last().1.text@)
    } else {
        highlighted_prompt(entries.drop_last(), highlighted)
    }
}

/// Prefix of the prompts that belong to interactables.
pub open spec fn interaction_prompt_prefix() -> Seq<char> {
    "E: "@
}

/// Shows the highlight mesh of the object aimed at and hides the others, and
/// puts its prompt on screen. With nothing aimed at, a prompt left over from
/// an interactable is cleared; any other message stays. Returns each
/// highlight mesh with whether it is shown.
pub fn update_highlight_mesh(
    highlighted: Option<u64>,
    interactables: &Vec<(u64, Interactable)>,
    prompt: &mut String,
) -> (r: Vec<(u64, bool)>)
    ensures
        r@ == mesh_visibility(interactables@, highlighted),
        final(prompt)@ == match highlighted_prompt(interactables@, highlighted) {
            Some(t) => t,
            None => if has_prefix(old(prompt)@, interaction_prompt_prefix()) {
                seq![]
            } else {
                old(prompt)@
            },
        },
{
    let ghost entries = interactables@;
    let mut out: Vec<(u64, bool)> = Vec::new();
    let mut something_highlighted = false;
    let mut i: usize = 0;
    while i < interactables.len()
        invariant
            entries == interactables@,
            i <= entries.len(),
            out@ == mesh_visibility(entries.take(i as int), highlighted),
            something_highlighted == highlighted_prompt(entries.take(i as int), highlighted) is Some,
            something_highlighted ==> Some(prompt@) == highlighted_prompt(
                entries.take(i as int),
                highlighted,
            ),
            !something_highlighted ==> prompt@ == old(prompt)@,
        decreases entries.len() - i,
    {
        let entry = &interactables[i];
        assert(entries.take(i + 1).drop_last() =~= entries.take(i as int));
        match entry.1.highlight_mesh {
            Some(mesh) => {
                let shown = highlighted == Some(entry.0);
                if shown {
                    *prompt = entry.1.text.clone();
                    something_highlighted = true;
                }
                out.push((mesh, shown));
            },
            None => {},
        }
        i = i + 1;
    }
    assert(entries.take(entries.len() as int) =~= entries);
    if !something_highlighted && starts_with_str(prompt.as_str(), "E: ") {
        *prompt = String::new();
    }
    out
}

} // verus!
