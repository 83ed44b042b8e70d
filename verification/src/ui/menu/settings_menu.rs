//! The settings.

use vstd::prelude::*;
use crate::ui::menu::{selection_after, selection_before, Menu};
use crate::ui::MenuReturn;

verus! {

/// Index of the last item of the settings menu.
pub const SETTINGS_MENU_LAST: u8 = 1;

/// The text of an item of the settings menu.
pub open spec fn settings_menu_item(index: u8) -> Seq<char> {
    if index == 0 {
        "Back"@
    } else if index == 1 {
        "Setting"@
    } else {
        ""@
    }
}

/// The settings menu: the way back, and one setting.
#[derive(Clone, Copy, Debug, PartialEq, Eq)]
pub struct SettingsMenu {
    selection: u8,
    max_selection: u8,
}

impl SettingsMenu {
    #[verifier::type_invariant]
    spec fn in_range(&self) -> bool {
        self.selection <= self.max_selection && self.max_selection == SETTINGS_MENU_LAST
    }

    /// Index of the selected item.
    pub closed spec fn selection(&self) -> u8 {
        self.selection
    }

    /// The menu with the given item selected.
    pub closed spec fn at(selection: u8) -> SettingsMenu {
        SettingsMenu { selection, max_selection: SETTINGS_MENU_LAST }
    }

    /// The menu after its selection has moved one item up.
    pub open spec fn after_back(&self) -> SettingsMenu {
        SettingsMenu::at(selection_before(self.selection(), SETTINGS_MENU_LAST))
    }

    /// The menu after its selection has moved one item down.
    pub open spec fn after_forward(&self) -> SettingsMenu {
        SettingsMenu::at(selection_after(self.selection(), SETTINGS_MENU_LAST))
    }

    /// What the menu asks of the stack when its selected item is confirmed:
    /// the first item closes the menu, the setting asks for nothing.
    pub open spec fn answer(&self) -> MenuReturn {
        if self.selection() == 0 {
            MenuReturn { push: None, pop: true }
        } else {
            MenuReturn { push: None, pop: false }
        }
    }

    /// A menu is told from the others of its kind by its selection alone.
    pub proof fn lemma_at_selection(selection: u8)
        ensures
            SettingsMenu::at(selection).selection() == selection,
    {
    }

    /// The settings menu with its first item selected.
    pub fn new() -> (menu: SettingsMenu)
        ensures
            menu == SettingsMenu::at(0),
            menu.selection() == 0,
    {
        SettingsMenu { selection: 0, max_selection: 1 }
    }
}

impl Menu for SettingsMenu {
    fn back(&mut self)
        ensures
            *final(self) == old(self).after_back(),
            final(self).selection() == selection_before(old(self).selection(), SETTINGS_MENU_LAST),
    {
        proof {
            use_type_invariant(&*self);
        }
        if self.selection == 0 {
            self.selection = self.max_selection;
        } else {
            self.selection -= 1;
        }
    }

    fn forward(&mut self)
        ensures
            *final(self) == old(self).after_forward(),
            final(self).selection() == selection_after(old(self).selection(), SETTINGS_MENU_LAST),
    {
        proof {
            use_type_invariant(&*self);
        }
        if self.selection == self.max_selection {
            self.selection = 0;
        } else {
            self.selection += 1;
        }
    }

    fn confirm(&mut self) -> (ret: MenuReturn)
        ensures
            *final(self) == *old(self),
            ret == old(self).answer(),
    {
        proof {
            use_type_invariant(&*self);
        }
        match self.selection {
            0 => MenuReturn { push: None, pop: true },
            _ => MenuReturn::default(),
        }
    }

    fn get_menu_name(&self) -> (name: &str)
        ensures
            name@ == "Settings"@,
    {
        "Settings"
    }

    fn get_item(&self, index: u8) -> (item: &str)
        ensures
            item@ == settings_menu_item(index),
    {
        match index {
            0 => "Back",
            1 => "Setting",
            _ => "",
        }
    }

    fn get_selection_pointer(&self) -> (selection: u8)
        ensures
            selection == self.selection(),
            selection <= SETTINGS_MENU_LAST,
    {
        proof {
            use_type_invariant(self);
        }
        self.selection
    }
}

} // verus!
