//! The root menu.

use vstd::prelude::*;
use crate::ui::menu::{selection_after, selection_before, AnyMenu, Menu};
use crate::ui::menu::settings_menu::SettingsMenu;
use crate::ui::menu::song_menu::SongMenu;
use crate::ui::MenuReturn;

verus! {

/// Index of the last item of the root menu.
pub const MAIN_MENU_LAST: u8 = 1;

/// The text of an item of the root menu.
pub open spec fn main_menu_item(index: u8) -> Seq<char> {
    if index == 0 {
        "Songs"@
    } else if index == 1 {
        "Settings"@
    } else {
        ""@
    }
}

/// The root menu: the way to the songs and to the settings.
#[derive(Clone, Copy, Debug, PartialEq, Eq)]
pub struct MainMenu {
    selection: u8,
    max_selection: u8,
}

impl MainMenu {
    #[verifier::type_invariant]
    spec fn in_range(&self) -> bool {
        self.selection <= self.max_selection && self.max_selection == MAIN_MENU_LAST
    }

    /// Index of the selected item.
    pub closed spec fn selection(&self) -> u8 {
        self.selection
    }

    /// The menu with the given item selected.
    pub closed spec fn at(selection: u8) -> MainMenu {
        MainMenu { selection, max_selection: MAIN_MENU_LAST }
    }

    /// The menu after its selection has moved one item up.
    pub open spec fn after_back(&self) -> MainMenu {
        MainMenu::at(selection_before(self.selection(), MAIN_MENU_LAST))
    }

    /// The menu after its selection has moved one item down.
    pub open spec fn after_forward(&self) -> MainMenu {
        MainMenu::at(selection_after(self.selection(), MAIN_MENU_LAST))
    }

    /// What the menu asks of the stack when its selected item is confirmed:
    /// the first item opens the songs, the second the settings.
    pub open spec fn answer(&self) -> MenuReturn {
        if self.selection() == 0 {
            MenuReturn { push: Some(AnyMenu::Songs(SongMenu::at(0))), pop: false }
        } else {
            MenuReturn { push: Some(AnyMenu::Settings(SettingsMenu::at(0))), pop: false }
        }
    }

    /// A menu is told from the others of its kind by its selection alone.
    pub proof fn lemma_at_selection(selection: u8)
        ensures
            MainMenu::at(selection).selection() == selection,
    {
    }

    /// The root menu with its first item selected.
    pub fn new() -> (menu: MainMenu)
        ensures
            menu == MainMenu::at(0),
            menu.selection() == 0,
    {
        MainMenu { selection: 0, max_selection: 1 }
    }
}

impl Menu for MainMenu {
    fn back(&mut self)
        ensures
            *final(self) == old(self).after_back(),
            final(self).selection() == selection_before(old(self).selection(), MAIN_MENU_LAST),
    {
        proof {
            use_type_invariant(&*self);
        }
        if self.selection == 0 {
            self.selection = self.max_selection;
        } else {
            self.selection -= 1;
        }
    }

    fn forward(&mut self)
        ensures
            *final(self) == old(self).after_forward(),
            final(self).selection() == selection_after(old(self).selection(), MAIN_MENU_LAST),
    {
        proof {
            use_type_invariant(&*self);
        }
        if self.selection == self.max_selection {
            self.selection = 0;
        } else {
            self.selection += 1;
        }
    }

    fn confirm(&mut self) -> (ret: MenuReturn)
        ensures
            *final(self) == *old(self),
            ret == old(self).answer(),
    {
        proof {
            use_type_invariant(&*self);
        }
        match self.selection {
            0 => MenuReturn { push: Some(AnyMenu::Songs(SongMenu::new())), pop: false },
            _ => MenuReturn { push: Some(AnyMenu::Settings(SettingsMenu::new())), pop: false },
        }
    }

    fn get_menu_name(&self) -> (name: &str)
        ensures
            name@ == "Main Menu"@,
    {
        "Main Menu"
    }

    fn get_item(&self, index: u8) -> (item: &str)
        ensures
            item@ == main_menu_item(index),
    {
        match index {
            0 => "Songs",
            1 => "Settings",
            _ => "",
        }
    }

    fn get_selection_pointer(&self) -> (selection: u8)
        ensures
            selection == self.selection(),
            selection <= MAIN_MENU_LAST,
    {
        proof {
            use_type_invariant(self);
        }
        self.selection
    }
}

} // verus!
