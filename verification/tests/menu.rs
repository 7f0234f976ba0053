use eclipse_heart::data::UiText;
use eclipse_heart::screens::menu::{menu_label, MenuCommand, MenuScreen};
use eclipse_heart::screens::ScreenAction;

#[test]
fn menu_commands_ask_for_their_screens() {
    let mut menu = MenuScreen::new();
    assert!(!menu.settings_open);
    assert!(matches!(menu.handle_menu_command(MenuCommand::OpenCampaignMenu), ScreenAction::OpenCampaignMenu));
    assert!(matches!(menu.handle_menu_command(MenuCommand::OpenSetup), ScreenAction::OpenSetup));
    assert!(matches!(menu.handle_menu_command(MenuCommand::OpenDeckBuilder), ScreenAction::OpenDeckBuilder));
    assert!(matches!(menu.handle_menu_command(MenuCommand::ExitGame), ScreenAction::ExitGame));
    assert!(!menu.settings_open);
    assert!(matches!(menu.handle_menu_command(MenuCommand::OpenSettings), ScreenAction::Idle));
    assert!(menu.settings_open);
    menu.set_settings_open(false);
    assert!(!menu.settings_open);
}

#[test]
fn menu_labels_come_from_the_catalog() {
    let ui_text = UiText { values: vec![("menu_start_battle".to_owned(), "Battle".to_owned())] };
    assert_eq!(menu_label(&ui_text, MenuCommand::OpenSetup), "Battle");
    assert_eq!(menu_label(&ui_text, MenuCommand::ExitGame), "menu_exit_game");
    assert_eq!(menu_label(&ui_text, MenuCommand::OpenSettings), "menu_settings_label");
}
