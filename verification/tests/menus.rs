use game_screens::menus::settings::{go_back, on_input};
use game_screens::menus::Menu;
use game_screens::screens::{Button, Effect, Input, Screen};

#[test]
fn settings_menu_goes_back_to_main_menu_over_title() {
    assert_eq!(go_back(Screen::Title), Menu::Main);
}

#[test]
fn settings_menu_goes_back_to_pause_menu_over_gameplay() {
    assert_eq!(go_back(Screen::Gameplay), Menu::Pause);
}

#[test]
fn settings_menu_goes_back_to_pause_menu_over_any_other_screen() {
    assert_eq!(go_back(Screen::Settings), Menu::Pause);
    assert_eq!(go_back(Screen::Credits), Menu::Pause);
}

#[test]
fn back_button_and_escape_both_go_back() {
    for screen in [Screen::Title, Screen::Settings, Screen::Credits, Screen::Gameplay] {
        let expected = Some(Effect::Open(go_back(screen)));
        assert_eq!(on_input(screen, Input::Click(Button::Back)), expected);
        assert_eq!(on_input(screen, Input::Escape), expected);
    }
    assert_eq!(
        on_input(Screen::Title, Input::Escape),
        Some(Effect::Open(Menu::Main))
    );
    assert_eq!(
        on_input(Screen::Gameplay, Input::Click(Button::Back)),
        Some(Effect::Open(Menu::Pause))
    );
}

#[test]
fn settings_menu_changes_the_volume() {
    for screen in [Screen::Title, Screen::Gameplay] {
        assert_eq!(
            on_input(screen, Input::Click(Button::Lower)),
            Some(Effect::LowerVolume)
        );
        assert_eq!(
            on_input(screen, Input::Click(Button::Raise)),
            Some(Effect::RaiseVolume)
        );
    }
}

#[test]
fn settings_menu_ignores_the_title_buttons() {
    for screen in [Screen::Title, Screen::Gameplay] {
        assert_eq!(on_input(screen, Input::Click(Button::Play)), None);
        assert_eq!(on_input(screen, Input::Click(Button::Credits)), None);
        assert_eq!(on_input(screen, Input::Click(Button::Exit)), None);
    }
}

#[test]
fn leaving_the_settings_menu_opens_another_menu() {
    for screen in [Screen::Title, Screen::Settings, Screen::Credits, Screen::Gameplay] {
        assert_ne!(go_back(screen), Menu::Settings);
        assert_ne!(go_back(screen), Menu::Closed);
    }
}

#[test]
fn settings_menu_never_changes_the_screen_nor_closes_the_game() {
    let buttons = [
        Button::Play,
        Button::Credits,
        Button::Exit,
        Button::Lower,
        Button::Raise,
        Button::Back,
    ];
    for screen in [Screen::Title, Screen::Settings, Screen::Credits, Screen::Gameplay] {
        let mut inputs: Vec<Input> = buttons.iter().map(|button| Input::Click(*button)).collect();
        inputs.push(Input::Escape);
        for input in inputs {
            let effect = on_input(screen, input);
            assert!(!matches!(effect, Some(Effect::Enter(_))));
            assert_ne!(effect, Some(Effect::ExitApp));
        }
    }
}
