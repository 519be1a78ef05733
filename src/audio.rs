use rand::seq::SliceRandom;
use vstd::prelude::*;

verus! {

/// Textures loaded up front.
#[derive(Debug, Clone, Copy, PartialEq, Eq, Hash, Structural)]
pub enum ImageKey {
    Cubemap,
}

/// Short sound effects.
#[derive(Debug, Clone, Copy, PartialEq, Eq, Hash, Structural)]
pub enum SfxKey {
    ButtonHover,
    ButtonPress,
    GrassStep1,
    GrassStep2,
    GrassStep3,
    GrassStep4,
    HardStep1,
    HardStep2,
    HardStep3,
    HardStep4,
    CycleChange,
    PickupHourglass,
    Harvest,
    Row,
}

/// Looping music and ambiance.
#[derive(Debug, Clone, Copy, PartialEq, Eq, Hash, Structural)]
pub enum SoundtrackKey {
    Credits,
    Gameplay,
    OceanAmbiance,
    CycleOne,
}

/// What the player's feet land on.
#[derive(Debug, Clone, Copy, PartialEq, Eq, Structural)]
pub enum GroundMaterial {
    Grass,
    Solid,
}

/// Event: play one sound effect.
#[derive(Debug, Clone, Copy, PartialEq, Eq, Structural)]
pub enum PlaySfx {
    Key(SfxKey),
    RandomStep(GroundMaterial),
}

/// Event: play a looping track, or stop the soundtrack.
#[derive(Debug, Clone, Copy, PartialEq, Eq, Structural)]
pub enum PlaySoundtrack {
    Key(SoundtrackKey),
    Disable,
}

/// What the audio layer does for a `PlaySoundtrack` event.
#[derive(Debug, Clone, Copy, PartialEq, Eq, Structural)]
pub enum SoundtrackAction {
    /// Start looping `key`; `mark` says whether the player is tagged as the
    /// soundtrack, so that a later `Disable` stops it.
    Start { key: SoundtrackKey, mark: bool },
    /// Stop every player tagged as the soundtrack.
    StopMarked,
}

/// The four footstep sounds for a ground material.
pub open spec fn step_keys(m: GroundMaterial) -> Seq<SfxKey> {
    match m {
        GroundMaterial::Grass => seq![
            SfxKey::GrassStep1,
            SfxKey::GrassStep2,
            SfxKey::GrassStep3,
            SfxKey::GrassStep4,
        ],
        GroundMaterial::Solid => seq![
            SfxKey::HardStep1,
            SfxKey::HardStep2,
            SfxKey::HardStep3,
            SfxKey::HardStep4,
        ],
    }
}

/// Relies on rand's `SliceRandom::choose` over the thread-local generator:
/// `None` exactly when the slice is empty, otherwise one of its elements.
#[verifier::external_body]
fn choose_key(keys: &[SfxKey]) -> (r: Option<SfxKey>)
    ensures
        r is None <==> keys@.len() == 0,
        r matches Some(k) ==> keys@.contains(k),
{
    keys.choose(&mut rand::thread_rng()).copied()
}

/// One of the four footstep sounds of `ground_material`, picked at random.
pub fn random_step(ground_material: &GroundMaterial) -> (r: SfxKey)
    ensures
        step_keys(*ground_material).contains(r),
{
    let keys: Vec<SfxKey> = match ground_material {
        GroundMaterial::Grass => vec![
            SfxKey::GrassStep1,
            SfxKey::GrassStep2,
            SfxKey::GrassStep3,
            SfxKey::GrassStep4,
        ],
        GroundMaterial::Solid => vec![
            SfxKey::HardStep1,
            SfxKey::HardStep2,
            SfxKey::HardStep3,
            SfxKey::HardStep4,
        ],
    };
    assert(keys@ =~= step_keys(*ground_material));
    match choose_key(keys.as_slice()) {
        Some(k) => k,
        None => SfxKey::GrassStep1,
    }
}

/// The sound effect that a `PlaySfx` event plays: the named one, or a random
/// footstep of the given material.
pub fn play_sfx(event: &PlaySfx) -> (r: SfxKey)
    ensures
        *event matches PlaySfx::Key(k) ==> r == k,
        *event matches PlaySfx::RandomStep(m) ==> step_keys(m).contains(r),
{
    match event {
        PlaySfx::Key(key) => *key,
        PlaySfx::RandomStep(material) => random_step(material),
    }
}

/// What to do for a `PlaySoundtrack` event. Only the first cycle's music is
/// tagged as the soundtrack.
pub fn play_soundtrack(event: &PlaySoundtrack) -> (r: SoundtrackAction)
    ensures
        *event matches PlaySoundtrack::Key(k) ==> r == (SoundtrackAction::Start {
            key: k,
            mark: k == SoundtrackKey::CycleOne,
        }),
        *event matches PlaySoundtrack::Disable ==> r == SoundtrackAction::StopMarked,
{
    match event {
        PlaySoundtrack::Key(key) => SoundtrackAction::Start {
            key: *key,
            mark: *key == SoundtrackKey::CycleOne,
        },
        PlaySoundtrack::Disable => SoundtrackAction::StopMarked,
    }
}

} // verus!
