//! The settings menu: the volume buttons and the way back.

use crate::menus::Menu;
use crate::screens::{Button, Effect, Input, Screen};
use vstd::prelude::*;

verus! {

/// The menu from which the settings menu was opened: the main menu over the
/// title screen, the pause menu over any other screen.
pub open spec fn spec_go_back(screen: Screen) -> Menu {
    if screen == Screen::Title {
        Menu::Main
    } else {
        Menu::Pause
    }
}

/// What an input leads to while the settings menu lies over `screen`; `None`
/// where the menu does not react to it.
pub open spec fn spec_on_input(screen: Screen, input: Input) -> Option<Effect> {
    match input {
        Input::Click(Button::Lower) => Some(Effect::LowerVolume),
        Input::Click(Button::Raise) => Some(Effect::RaiseVolume),
        Input::Click(Button::Back) => Some(Effect::Open(spec_go_back(screen))),
        Input::Escape => Some(Effect::Open(spec_go_back(screen))),
        _ => None,
    }
}

/// Picks the menu to return to when the settings menu is left.
pub fn go_back(screen: Screen) -> (menu: Menu)
    ensures
        menu == spec_go_back(screen),
{
    if screen == Screen::Title {
        Menu::Main
    } else {
        Menu::Pause
    }
}

/// Decides what an input leads to while the settings menu lies over `screen`.
pub fn on_input(screen: Screen, input: Input) -> (effect: Option<Effect>)
    ensures
        effect == spec_on_input(screen, input),
{
    match input {
        Input::Click(Button::Lower) => Some(Effect::LowerVolume),
        Input::Click(Button::Raise) => Some(Effect::RaiseVolume),
        Input::Click(Button::Back) => Some(Effect::Open(go_back(screen))),
        Input::Escape => Some(Effect::Open(go_back(screen))),
        _ => None,
    }
}

/// Leaving the settings menu opens the main menu or the pause menu, and the
/// back button and the escape key lead to the same one.
pub proof fn lemma_back_and_escape_agree(screen: Screen)
    ensures
        spec_go_back(screen) == Menu::Main || spec_go_back(screen) == Menu::Pause,
        spec_on_input(screen, Input::Click(Button::Back)) == spec_on_input(screen, Input::Escape),
        spec_on_input(screen, Input::Escape) == Some(Effect::Open(spec_go_back(screen))),
{
}

/// The settings menu never changes the screen below it, and never closes
/// the game.
pub proof fn lemma_menu_leaves_screens_alone(screen: Screen, input: Input)
    ensures
        !(spec_on_input(screen, input) matches Some(Effect::Enter(_))),
        spec_on_input(screen, input) != Some(Effect::ExitApp),
{
}

} // verus!
