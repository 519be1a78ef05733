use vstd::prelude::*;

verus! {

/// The game's main screens.
#[derive(Debug, Clone, Copy, PartialEq, Eq, Hash, Structural)]
pub enum Screen {
    Splash,
    Loading,
    Title,
    Credits,
    Playing,
}

/// Whether the game on the playing screen runs or its menu is open.
#[derive(Debug, Clone, Copy, PartialEq, Eq, Hash, Structural)]
pub enum PlayState {
    InMenu,
    InGame,
}

/// The buttons of the in-game menu.
#[derive(Debug, Clone, Copy, PartialEq, Eq, Structural)]
pub enum TitleAction {
    Play,
    Credits,
    Exit,
}

/// The buttons of the credits screen.
#[derive(Debug, Clone, Copy, PartialEq, Eq, Structural)]
pub enum CreditsAction {
    Back,
}

/// What a press on a menu button leads to.
#[derive(Debug, Clone, Copy, PartialEq, Eq, Structural)]
pub enum MenuOutcome {
    /// Nothing changes.
    Stay,
    /// The game moves to this play state.
    Enter(PlayState),
    /// The application quits.
    Quit,
}

/// The escape key switches between the game and its menu.
pub fn toggle_pause(current: PlayState) -> (r: PlayState)
    ensures
        r != current,
{
    match current {
        PlayState::InGame => PlayState::InMenu,
        PlayState::InMenu => PlayState::InGame,
    }
}

/// The outcome of a menu button in the given interaction state: only a press
/// counts. The credits button leads nowhere from the menu.
pub fn handle_menu_action(action: TitleAction, pressed: bool) -> (r: MenuOutcome)
    ensures
        !pressed ==> r == MenuOutcome::Stay,
        pressed ==> r == match action {
            TitleAction::Play => MenuOutcome::Enter(PlayState::InGame),
            TitleAction::Credits => MenuOutcome::Stay,
            TitleAction::Exit => MenuOutcome::Quit,
        },
{
    if !pressed {
        return MenuOutcome::Stay;
    }
    match action {
        TitleAction::Play => MenuOutcome::Enter(PlayState::InGame),
        TitleAction::Credits => MenuOutcome::Stay,
        TitleAction::Exit => MenuOutcome::Quit,
    }
}

/// The screen that a press on a credits button leads to.
pub fn handle_credits_action(action: CreditsAction, pressed: bool) -> (r: Option<Screen>)
    ensures
        !pressed ==> r is None,
        pressed ==> r == Some(
            match action {
                CreditsAction::Back => Screen::Playing,
            },
        ),
{
    if !pressed {
        return None;
    }
    match action {
        CreditsAction::Back => Some(Screen::Playing),
    }
}

/// Whether every asset of a set has loaded, given the load state of each.
pub fn all_loaded(loaded: &Vec<bool>) -> (r: bool)
    ensures
        r == forall|i: int| 0 <= i < loaded@.len() ==> loaded@[i],
{
    let mut i: usize = 0;
    while i < loaded.len()
        invariant
            i <= loaded@.len(),
            forall|k: int| 0 <= k < i ==> loaded@[k],
        decreases loaded.len() - i,
    {
        if !loaded[i] {
            return false;
        }
        i = i + 1;
    }
    true
}

/// Whether the loading screen may move on: images, sound effects and
/// soundtracks have all loaded.
pub fn all_assets_loaded(images: &Vec<bool>, sfx: &Vec<bool>, soundtracks: &Vec<bool>) -> (r: bool)
    ensures
        r == ((forall|i: int| 0 <= i < images@.len() ==> images@[i]) && (forall|i: int|
            0 <= i < sfx@.len() ==> sfx@[i]) && (forall|i: int|
            0 <= i < soundtracks@.len() ==> soundtracks@[i])),
{
    all_loaded(images) && all_loaded(sfx) && all_loaded(soundtracks)
}

} // verus!
