//! The main menu: its commands, their labels, and the settings panel it may show.

use vstd::prelude::*;

use super::ScreenAction;
use crate::data::ui_text::text_lookup;
use crate::data::UiText;

verus! {

/// The state of the main menu: whether its settings panel is open.
pub struct MenuScreen {
    pub settings_open: bool,
}

/// The buttons of the main menu.
#[derive(Clone, Copy, Debug, PartialEq, Eq, Structural)]
pub enum MenuCommand {
    OpenCampaignMenu,
    OpenSetup,
    OpenDeckBuilder,
    OpenSettings,
    ExitGame,
}

/// The catalog key of a menu button's label.
pub open spec fn menu_label_key(command: MenuCommand) -> Seq<char> {
    match command {
        MenuCommand::OpenCampaignMenu => "menu_start_campaign"@,
        MenuCommand::OpenSetup => "menu_start_battle"@,
        MenuCommand::OpenDeckBuilder => "menu_open_deck_builder"@,
        MenuCommand::OpenSettings => "menu_settings_label"@,
        MenuCommand::ExitGame => "menu_exit_game"@,
    }
}

/// The label of a menu button.
pub fn menu_label<'a>(ui_text: &'a UiText, command: MenuCommand) -> (r: &'a str)
    ensures
        r@ == text_lookup(ui_text.values@, menu_label_key(command)),
{
    match command {
        MenuCommand::OpenCampaignMenu => ui_text.get("menu_start_campaign"),
        MenuCommand::OpenSetup => ui_text.get("menu_start_battle"),
        MenuCommand::OpenDeckBuilder => ui_text.get("menu_open_deck_builder"),
        MenuCommand::OpenSettings => ui_text.get("menu_settings_label"),
        MenuCommand::ExitGame => ui_text.get("menu_exit_game"),
    }
}

impl MenuScreen {
    /// The menu with its settings panel closed.
    pub fn new() -> (r: Self)
        ensures
            !r.settings_open,
    {
        MenuScreen { settings_open: false }
    }

    pub fn set_settings_open(&mut self, open: bool)
        ensures
            final(self).settings_open == open,
    {
        self.settings_open = open;
    }

    /// What pressing a menu button asks of the game: the settings button opens the settings
    /// panel and asks nothing, the others ask for their screen or for the game to close.
    pub fn handle_menu_command(&mut self, command: MenuCommand) -> (r: ScreenAction)
        ensures
            final(self).settings_open == (old(self).settings_open || command == MenuCommand::OpenSettings),
            r == match command {
                MenuCommand::OpenCampaignMenu => ScreenAction::OpenCampaignMenu,
                MenuCommand::OpenSetup => ScreenAction::OpenSetup,
                MenuCommand::OpenDeckBuilder => ScreenAction::OpenDeckBuilder,
                MenuCommand::OpenSettings => ScreenAction::Idle,
                MenuCommand::ExitGame => ScreenAction::ExitGame,
            },
    {
        match command {
            MenuCommand::OpenCampaignMenu => ScreenAction::OpenCampaignMenu,
            MenuCommand::OpenSetup => ScreenAction::OpenSetup,
            MenuCommand::OpenDeckBuilder => ScreenAction::OpenDeckBuilder,
            MenuCommand::OpenSettings => {
                self.settings_open = true;
                ScreenAction::Idle
            },
            MenuCommand::ExitGame => ScreenAction::ExitGame,
        }
    }
}

} // verus!
