//! What the menu shows and which of its entries is selected.

use vstd::prelude::*;

verus! {

/// Which screen is shown.
#[derive(Debug, Clone, Copy, PartialEq, Eq, Structural)]
pub enum MenuState {
    MainMenu,
    Options,
    Game,
}

/// The entries of the main menu.
#[derive(Debug, Clone, Copy, PartialEq, Eq, Structural)]
pub enum MenuOption {
    NewGame,
    Options,
    Quit,
}

/// The entries of the options menu.
#[derive(Debug, Clone, Copy, PartialEq, Eq, Structural)]
pub enum OptionsOption {
    MusicToggle,
    SoundToggle,
    VolumeUp,
    VolumeDown,
    GridToggle,
    Back,
}

/// What the surroundings have to do after an entry was selected.
#[derive(Debug, Clone, Copy, PartialEq, Eq, Structural)]
pub enum MenuAction {
    /// Nothing beyond what the menu did itself.
    Nothing,
    /// A new game begins.
    StartGame,
    /// The program ends.
    Quit,
    /// The music goes on or off.
    ToggleMusic,
    /// The sound effects go on or off.
    ToggleSound,
    /// The volume goes up by a step.
    VolumeUp,
    /// The volume goes down by a step.
    VolumeDown,
    /// The grid on the board is shown or hidden.
    ToggleGrid,
}

/// The entry after `option` in the main menu; after the last comes the
/// first.
pub open spec fn next_main(option: MenuOption) -> MenuOption {
    match option {
        MenuOption::NewGame => MenuOption::Options,
        MenuOption::Options => MenuOption::Quit,
        MenuOption::Quit => MenuOption::NewGame,
    }
}

/// The entry before `option` in the main menu; before the first comes the
/// last.
pub open spec fn prev_main(option: MenuOption) -> MenuOption {
    match option {
        MenuOption::NewGame => MenuOption::Quit,
        MenuOption::Options => MenuOption::NewGame,
        MenuOption::Quit => MenuOption::Options,
    }
}

/// The entry after `option` in the options menu; after the last comes the
/// first.
pub open spec fn next_options(option: OptionsOption) -> OptionsOption {
    match option {
        OptionsOption::MusicToggle => OptionsOption::SoundToggle,
        OptionsOption::SoundToggle => OptionsOption::VolumeUp,
        OptionsOption::VolumeUp => OptionsOption::VolumeDown,
        OptionsOption::VolumeDown => OptionsOption::GridToggle,
        OptionsOption::GridToggle => OptionsOption::Back,
        OptionsOption::Back => OptionsOption::MusicToggle,
    }
}

/// The entry before `option` in the options menu; before the first comes
/// the last.
pub open spec fn prev_options(option: OptionsOption) -> OptionsOption {
    match option {
        OptionsOption::MusicToggle => OptionsOption::Back,
        OptionsOption::SoundToggle => OptionsOption::MusicToggle,
        OptionsOption::VolumeUp => OptionsOption::SoundToggle,
        OptionsOption::VolumeDown => OptionsOption::VolumeUp,
        OptionsOption::GridToggle => OptionsOption::VolumeDown,
        OptionsOption::Back => OptionsOption::GridToggle,
    }
}

/// The menu's state: the screen and the selected entry of each menu.
#[derive(Debug, Clone, Copy, PartialEq, Eq, Structural)]
pub struct Menu {
    pub state: MenuState,
    pub selected_option: MenuOption,
    pub options_selected: OptionsOption,
}

impl Menu {
    /// The menu as it opens: the main menu with its first entry selected,
    /// and `Back` selected in the options menu.
    pub open spec fn spec_default() -> Menu {
        Menu {
            state: MenuState::MainMenu,
            selected_option: MenuOption::NewGame,
            options_selected: OptionsOption::Back,
        }
    }

    /// The menu as it opens.
    pub fn new() -> (menu: Menu)
        ensures
            menu == Menu::spec_default(),
    {
        Menu::default()
    }

    /// The menu after its selection moved one entry on.
    pub open spec fn after_next(self) -> Menu {
        match self.state {
            MenuState::MainMenu => Menu { selected_option: next_main(self.selected_option), ..self },
            MenuState::Options => Menu { options_selected: next_options(self.options_selected), ..self },
            MenuState::Game => self,
        }
    }

    /// The menu after its selection moved one entry back.
    pub open spec fn after_prev(self) -> Menu {
        match self.state {
            MenuState::MainMenu => Menu { selected_option: prev_main(self.selected_option), ..self },
            MenuState::Options => Menu { options_selected: prev_options(self.options_selected), ..self },
            MenuState::Game => self,
        }
    }

    /// The menu after the selected entry was chosen: `NewGame` leads to the
    /// game, `Options` to the options menu and `Back` to the main menu; every
    /// other entry leaves the menu where it is.
    pub open spec fn after_select(self) -> Menu {
        match self.state {
            MenuState::MainMenu => match self.selected_option {
                MenuOption::NewGame => Menu { state: MenuState::Game, ..self },
                MenuOption::Options => Menu { state: MenuState::Options, ..self },
                MenuOption::Quit => self,
            },
            MenuState::Options => match self.options_selected {
                OptionsOption::Back => Menu { state: MenuState::MainMenu, ..self },
                _ => self,
            },
            MenuState::Game => self,
        }
    }

    /// What choosing the selected entry asks of the surroundings.
    pub open spec fn select_action(self) -> MenuAction {
        match self.state {
            MenuState::MainMenu => match self.selected_option {
                MenuOption::NewGame => MenuAction::StartGame,
                MenuOption::Options => MenuAction::Nothing,
                MenuOption::Quit => MenuAction::Quit,
            },
            MenuState::Options => match self.options_selected {
                OptionsOption::MusicToggle => MenuAction::ToggleMusic,
                OptionsOption::SoundToggle => MenuAction::ToggleSound,
                OptionsOption::VolumeUp => MenuAction::VolumeUp,
                OptionsOption::VolumeDown => MenuAction::VolumeDown,
                OptionsOption::GridToggle => MenuAction::ToggleGrid,
                OptionsOption::Back => MenuAction::Nothing,
            },
            MenuState::Game => MenuAction::Nothing,
        }
    }

    /// Moves the selection of the menu that is shown one entry on. In the
    /// game nothing is selected and nothing changes.
    pub fn next_option(&mut self)
        ensures
            *final(self) == old(self).after_next(),
    {
        match self.state {
            MenuState::MainMenu => {
                self.selected_option = match self.selected_option {
                    MenuOption::NewGame => MenuOption::Options,
                    MenuOption::Options => MenuOption::Quit,
                    MenuOption::Quit => MenuOption::NewGame,
                };
            },
            MenuState::Options => {
                self.options_selected = match self.options_selected {
                    OptionsOption::MusicToggle => OptionsOption::SoundToggle,
                    OptionsOption::SoundToggle => OptionsOption::VolumeUp,
                    OptionsOption::VolumeUp => OptionsOption::VolumeDown,
                    OptionsOption::VolumeDown => OptionsOption::GridToggle,
                    OptionsOption::GridToggle => OptionsOption::Back,
                    OptionsOption::Back => OptionsOption::MusicToggle,
                };
            },
            MenuState::Game => {},
        }
    }

    /// Moves the selection of the menu that is shown one entry back. In the
    /// game nothing is selected and nothing changes.
    pub fn prev_option(&mut self)
        ensures
            *final(self) == old(self).after_prev(),
            final(self).after_next() == *old(self),
    {
        match self.state {
            MenuState::MainMenu => {
                self.selected_option = match self.selected_option {
                    MenuOption::NewGame => MenuOption::Quit,
                    MenuOption::Options => MenuOption::NewGame,
                    MenuOption::Quit => MenuOption::Options,
                };
            },
            MenuState::Options => {
                self.options_selected = match self.options_selected {
                    OptionsOption::MusicToggle => OptionsOption::Back,
                    OptionsOption::SoundToggle => OptionsOption::MusicToggle,
                    OptionsOption::VolumeUp => OptionsOption::SoundToggle,
                    OptionsOption::VolumeDown => OptionsOption::VolumeUp,
                    OptionsOption::GridToggle => OptionsOption::VolumeDown,
                    OptionsOption::Back => OptionsOption::GridToggle,
                };
            },
            MenuState::Game => {},
        }
    }

    /// Chooses the selected entry. Returns whether a menu was shown, so that
    /// there was an entry to choose, and what the surroundings have to do.
    pub fn select(&mut self) -> (result: (bool, MenuAction))
        ensures
            *final(self) == old(self).after_select(),
            result.0 == (old(self).state != MenuState::Game),
            result.1 == old(self).select_action(),
    {
        match self.state {
            MenuState::MainMenu => match self.selected_option {
                MenuOption::NewGame => {
                    self.state = MenuState::Game;
                    (true, MenuAction::StartGame)
                },
                MenuOption::Options => {
                    self.state = MenuState::Options;
                    (true, MenuAction::Nothing)
                },
                MenuOption::Quit => (true, MenuAction::Quit),
            },
            MenuState::Options => match self.options_selected {
                OptionsOption::MusicToggle => (true, MenuAction::ToggleMusic),
                OptionsOption::SoundToggle => (true, MenuAction::ToggleSound),
                OptionsOption::VolumeUp => (true, MenuAction::VolumeUp),
                OptionsOption::VolumeDown => (true, MenuAction::VolumeDown),
                OptionsOption::GridToggle => (true, MenuAction::ToggleGrid),
                OptionsOption::Back => {
                    self.state = MenuState::MainMenu;
                    (true, MenuAction::Nothing)
                },
            },
            MenuState::Game => (false, MenuAction::Nothing),
        }
    }

    /// Leaves the game or the options for the main menu.
    pub fn back_to_menu(&mut self)
        ensures
            *final(self) == (Menu { state: MenuState::MainMenu, ..*old(self) }),
    {
        self.state = MenuState::MainMenu;
    }
}

impl Default for Menu {
    fn default() -> (menu: Menu)
        ensures
            menu == Menu::spec_default(),
    {
        Menu {
            state: MenuState::MainMenu,
            selected_option: MenuOption::NewGame,
            options_selected: OptionsOption::Back,
        }
    }
}

} // verus!
