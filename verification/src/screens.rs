//! The game's screens, the inputs they react to and where those inputs lead.

use crate::menus::Menu;
use vstd::prelude::*;

pub mod credits;

verus! {

/// A top-level mode of the game. Exactly one screen is active at a time.
#[derive(Clone, Copy, PartialEq, Eq, Structural, Debug, Hash)]
pub enum Screen {
    Title,
    Settings,
    Credits,
    Gameplay,
}

/// A button that a screen or menu can show.
#[derive(Clone, Copy, PartialEq, Eq, Structural, Debug, Hash)]
pub enum Button {
    Play,
    Credits,
    Exit,
    Lower,
    Raise,
    Back,
}

/// Something the player did.
#[derive(Clone, Copy, PartialEq, Eq, Structural, Debug, Hash)]
pub enum Input {
    /// A click on a button.
    Click(Button),
    /// The escape key went down.
    Escape,
}

/// What the game has to carry out in answer to an input.
#[derive(Clone, Copy, PartialEq, Eq, Structural, Debug, Hash)]
pub enum Effect {
    /// Switch to another screen.
    Enter(Screen),
    /// Switch to another menu.
    Open(Menu),
    /// Close the game.
    ExitApp,
    /// Take one step off the global volume.
    LowerVolume,
    /// Add one step to the global volume.
    RaiseVolume,
}

impl Button {
    /// The text written on the button.
    pub open spec fn spec_text(self) -> Seq<char> {
        match self {
            Button::Play => "Play"@,
            Button::Credits => "Credits"@,
            Button::Exit => "Exit"@,
            Button::Lower => "-"@,
            Button::Raise => "+"@,
            Button::Back => "Back"@,
        }
    }

    /// The text written on the button.
    pub fn text(self) -> (text: &'static str)
        ensures
            text@ == self.spec_text(),
    {
        match self {
            Button::Play => "Play",
            Button::Credits => "Credits",
            Button::Exit => "Exit",
            Button::Lower => "-",
            Button::Raise => "+",
            Button::Back => "Back",
        }
    }
}

impl Screen {
    /// The buttons a screen shows, from first to last. The title screen offers
    /// its exit button only where the game can be closed from within.
    pub open spec fn spec_buttons(self, can_exit: bool) -> Seq<Button> {
        match self {
            Screen::Title => if can_exit {
                seq![Button::Play, Button::Credits, Button::Exit]
            } else {
                seq![Button::Play, Button::Credits]
            },
            Screen::Settings => seq![Button::Lower, Button::Raise, Button::Back],
            Screen::Credits => seq![Button::Back],
            Screen::Gameplay => Seq::empty(),
        }
    }

    /// What an input leads to while this screen is active; `None` where the
    /// screen does not react to it.
    pub open spec fn spec_on_input(self, input: Input) -> Option<Effect> {
        match (self, input) {
            (Screen::Title, Input::Click(Button::Play)) => Some(Effect::Enter(Screen::Gameplay)),
            (Screen::Title, Input::Click(Button::Credits)) => Some(Effect::Enter(Screen::Credits)),
            (Screen::Title, Input::Click(Button::Exit)) => Some(Effect::ExitApp),
            (Screen::Settings, Input::Click(Button::Lower)) => Some(Effect::LowerVolume),
            (Screen::Settings, Input::Click(Button::Raise)) => Some(Effect::RaiseVolume),
            (Screen::Settings, Input::Click(Button::Back)) => Some(Effect::Enter(Screen::Title)),
            (Screen::Credits, Input::Click(Button::Back)) => Some(Effect::Enter(Screen::Title)),
            (Screen::Gameplay, Input::Escape) => Some(Effect::Enter(Screen::Title)),
            _ => None,
        }
    }

    /// Lists the buttons to put on this screen, in the order in which they
    /// are shown.
    pub fn buttons(self, can_exit: bool) -> (buttons: Vec<Button>)
        ensures
            buttons@ == self.spec_buttons(can_exit),
    {
        let mut buttons: Vec<Button> = Vec::new();
        match self {
            Screen::Title => {
                buttons.push(Button::Play);
                buttons.push(Button::Credits);
                if can_exit {
                    buttons.push(Button::Exit);
                }
            },
            Screen::Settings => {
                buttons.push(Button::Lower);
                buttons.push(Button::Raise);
                buttons.push(Button::Back);
            },
            Screen::Credits => {
                buttons.push(Button::Back);
            },
            Screen::Gameplay => {},
        }
        buttons
    }

    /// Decides what an input leads to while this screen is active.
    pub fn on_input(self, input: Input) -> (effect: Option<Effect>)
        ensures
            effect == self.spec_on_input(input),
    {
        match (self, input) {
            (Screen::Title, Input::Click(Button::Play)) => Some(Effect::Enter(Screen::Gameplay)),
            (Screen::Title, Input::Click(Button::Credits)) => Some(Effect::Enter(Screen::Credits)),
            (Screen::Title, Input::Click(Button::Exit)) => Some(Effect::ExitApp),
            (Screen::Settings, Input::Click(Button::Lower)) => Some(Effect::LowerVolume),
            (Screen::Settings, Input::Click(Button::Raise)) => Some(Effect::RaiseVolume),
            (Screen::Settings, Input::Click(Button::Back)) => Some(Effect::Enter(Screen::Title)),
            (Screen::Credits, Input::Click(Button::Back)) => Some(Effect::Enter(Screen::Title)),
            (Screen::Gameplay, Input::Escape) => Some(Effect::Enter(Screen::Title)),
            _ => None,
        }
    }
}

impl Screen {
    /// The map of screen changes: the title screen leads to the game or to
    /// the credits, every other screen leads back to the title screen.
    pub open spec fn leads_to(self, to: Screen) -> bool {
        match self {
            Screen::Title => to == Screen::Gameplay || to == Screen::Credits,
            Screen::Settings => to == Screen::Title,
            Screen::Credits => to == Screen::Title,
            Screen::Gameplay => to == Screen::Title,
        }
    }
}

/// Whatever the input, a screen changes only along the map of screen changes.
pub proof fn lemma_changes_follow_map(from: Screen, input: Input)
    ensures
        from.spec_on_input(input) matches Some(Effect::Enter(to)) ==> from.leads_to(to),
{
}

/// Every change on the map of screen changes is made by some input.
pub proof fn lemma_map_is_reached(from: Screen, to: Screen)
    requires
        from.leads_to(to),
    ensures
        exists|input: Input| from.spec_on_input(input) == Some(Effect::Enter(to)),
{
    let input = match (from, to) {
        (Screen::Title, Screen::Gameplay) => Input::Click(Button::Play),
        (Screen::Title, _) => Input::Click(Button::Credits),
        (Screen::Gameplay, _) => Input::Escape,
        _ => Input::Click(Button::Back),
    };
    assert(from.spec_on_input(input) == Some(Effect::Enter(to)));
}

/// A screen never opens a menu by itself, and never leads to itself.
pub proof fn lemma_screens_leave_menus_alone(from: Screen, input: Input)
    ensures
        !(from.spec_on_input(input) matches Some(Effect::Open(_))),
        from.spec_on_input(input) != Some(Effect::Enter(from)),
{
}

/// Every button that a screen shows does something there.
pub proof fn lemma_shown_buttons_react(screen: Screen, can_exit: bool, i: int)
    requires
        0 <= i < screen.spec_buttons(can_exit).len(),
    ensures
        screen.spec_on_input(Input::Click(screen.spec_buttons(can_exit)[i])) is Some,
{
}

/// A click does something on a screen only if the screen shows the button.
pub proof fn lemma_reacting_buttons_are_shown(screen: Screen, button: Button)
    requires
        screen.spec_on_input(Input::Click(button)) is Some,
    ensures
        screen.spec_buttons(true).contains(button),
{
    let buttons = screen.spec_buttons(true);
    match (screen, button) {
        (Screen::Title, Button::Play) => assert(buttons[0] == button),
        (Screen::Title, Button::Credits) => assert(buttons[1] == button),
        (Screen::Title, Button::Exit) => assert(buttons[2] == button),
        (Screen::Settings, Button::Lower) => assert(buttons[0] == button),
        (Screen::Settings, Button::Raise) => assert(buttons[1] == button),
        (Screen::Settings, Button::Back) => assert(buttons[2] == button),
        (Screen::Credits, Button::Back) => assert(buttons[0] == button),
        _ => {},
    }
}

} // verus!
