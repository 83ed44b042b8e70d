//! What a menu offers to the stack and to the screen, and the menus there
//! are.

use vstd::prelude::*;
use crate::ui::menu::main_menu::MainMenu;
use crate::ui::menu::settings_menu::SettingsMenu;
use crate::ui::menu::song_menu::SongMenu;
use crate::ui::MenuReturn;

pub mod main_menu;
pub mod settings_menu;
pub mod song_menu;

verus! {

/// A list of items, of which one is selected.
pub trait Menu {
    /// Moves the selection one item up.
    fn back(&mut self);

    /// Moves the selection one item down.
    fn forward(&mut self);

    /// Acts on the selected item.
    fn confirm(&mut self) -> MenuReturn;

    /// The menu's title.
    fn get_menu_name(&self) -> &str;

    /// The text of an item; empty where the menu has no such item.
    fn get_item(&self, index: u8) -> &str;

    /// Index of the selected item.
    fn get_selection_pointer(&self) -> u8;
}

/// The selection one item up, from the first item on to the last.
pub open spec fn selection_before(selection: u8, max_selection: u8) -> u8 {
    if selection == 0 {
        max_selection
    } else {
        (selection - 1) as u8
    }
}

/// The selection one item down, from the last item on to the first.
pub open spec fn selection_after(selection: u8, max_selection: u8) -> u8 {
    if selection == max_selection {
        0
    } else {
        (selection + 1) as u8
    }
}

/// Going down and then up, or up and then down, over the items of a menu
/// leaves the selection where it was.
pub proof fn lemma_back_undoes_forward(selection: u8, max_selection: u8)
    requires
        selection <= max_selection,
    ensures
        selection_before(selection_after(selection, max_selection), max_selection) == selection,
        selection_after(selection_before(selection, max_selection), max_selection) == selection,
        selection_after(selection, max_selection) <= max_selection,
        selection_before(selection, max_selection) <= max_selection,
{
}

/// Any of the menus, as the stack holds them.
#[derive(Clone, Copy, Debug, PartialEq, Eq)]
pub enum AnyMenu {
    /// The root menu.
    Main(MainMenu),
    /// The list of songs.
    Songs(SongMenu),
    /// The settings.
    Settings(SettingsMenu),
}

impl AnyMenu {
    /// Index of the selected item.
    pub open spec fn selection(&self) -> u8 {
        match self {
            AnyMenu::Main(menu) => menu.selection(),
            AnyMenu::Songs(menu) => menu.selection(),
            AnyMenu::Settings(menu) => menu.selection(),
        }
    }

    /// The menu after its selection has moved one item up.
    pub open spec fn after_back(&self) -> AnyMenu {
        match self {
            AnyMenu::Main(menu) => AnyMenu::Main(menu.after_back()),
            AnyMenu::Songs(menu) => AnyMenu::Songs(menu.after_back()),
            AnyMenu::Settings(menu) => AnyMenu::Settings(menu.after_back()),
        }
    }

    /// The menu after its selection has moved one item down.
    pub open spec fn after_forward(&self) -> AnyMenu {
        match self {
            AnyMenu::Main(menu) => AnyMenu::Main(menu.after_forward()),
            AnyMenu::Songs(menu) => AnyMenu::Songs(menu.after_forward()),
            AnyMenu::Settings(menu) => AnyMenu::Settings(menu.after_forward()),
        }
    }

    /// What the menu asks of the stack when its selected item is confirmed.
    pub open spec fn answer(&self) -> MenuReturn {
        match self {
            AnyMenu::Main(menu) => menu.answer(),
            AnyMenu::Songs(menu) => menu.answer(),
            AnyMenu::Settings(menu) => menu.answer(),
        }
    }

    /// The menu's title.
    pub open spec fn name(&self) -> Seq<char> {
        match self {
            AnyMenu::Main(_) => "Main Menu"@,
            AnyMenu::Songs(_) => "Song Menu"@,
            AnyMenu::Settings(_) => "Settings"@,
        }
    }

    /// The text of an item; empty where the menu has no such item.
    pub open spec fn item(&self, index: u8) -> Seq<char> {
        match self {
            AnyMenu::Main(_) => main_menu::main_menu_item(index),
            AnyMenu::Songs(_) => song_menu::song_menu_item(index),
            AnyMenu::Settings(_) => settings_menu::settings_menu_item(index),
        }
    }
}

impl Menu for AnyMenu {
    fn back(&mut self)
        ensures
            *final(self) == old(self).after_back(),
    {
        match self {
            AnyMenu::Main(menu) => menu.back(),
            AnyMenu::Songs(menu) => menu.back(),
            AnyMenu::Settings(menu) => menu.back(),
        }
    }

    fn forward(&mut self)
        ensures
            *final(self) == old(self).after_forward(),
    {
        match self {
            AnyMenu::Main(menu) => menu.forward(),
            AnyMenu::Songs(menu) => menu.forward(),
            AnyMenu::Settings(menu) => menu.forward(),
        }
    }

    fn confirm(&mut self) -> (ret: MenuReturn)
        ensures
            *final(self) == *old(self),
            ret == old(self).answer(),
    {
        match self {
            AnyMenu::Main(menu) => menu.confirm(),
            AnyMenu::Songs(menu) => menu.confirm(),
            AnyMenu::Settings(menu) => menu.confirm(),
        }
    }

    fn get_menu_name(&self) -> (name: &str)
        ensures
            name@ == self.name(),
    {
        match self {
            AnyMenu::Main(menu) => menu.get_menu_name(),
            AnyMenu::Songs(menu) => menu.get_menu_name(),
            AnyMenu::Settings(menu) => menu.get_menu_name(),
        }
    }

    fn get_item(&self, index: u8) -> (item: &str)
        ensures
            item@ == self.item(index),
    {
        match self {
            AnyMenu::Main(menu) => menu.get_item(index),
            AnyMenu::Songs(menu) => menu.get_item(index),
            AnyMenu::Settings(menu) => menu.get_item(index),
        }
    }

    fn get_selection_pointer(&self) -> (selection: u8)
        ensures
            selection == self.selection(),
    {
        match self {
            AnyMenu::Main(menu) => menu.get_selection_pointer(),
            AnyMenu::Songs(menu) => menu.get_selection_pointer(),
            AnyMenu::Settings(menu) => menu.get_selection_pointer(),
        }
    }
}

} // verus!
