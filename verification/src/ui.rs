//! The menus on screen: a stack of menus, of which the topmost takes the
//! buttons.

use vstd::prelude::*;
use crate::input::ButtonStates;
use crate::ui::menu::{AnyMenu, Menu};

pub mod menu;
pub mod screen;

verus! {

/// Number of menus that can be open at once, the root included.
pub const MAX_DEPTH: usize = 8;

/// What a menu asks of the stack when an item is confirmed.
#[derive(Clone, Copy, Debug, PartialEq, Eq)]
pub struct MenuReturn {
    /// A menu to open on top.
    pub push: Option<AnyMenu>,
    /// Whether the menu that answered is to be closed.
    pub pop: bool,
}

impl Default for MenuReturn {
    fn default() -> (ret: MenuReturn)
        ensures
            ret == (MenuReturn { push: None, pop: false }),
    {
        MenuReturn { push: None, pop: false }
    }
}

/// The open menus once the topmost has asked for something: it is closed
/// first, unless it is the root; then the new menu is opened, unless the
/// stack is full.
pub open spec fn stack_after_return(stack: Seq<AnyMenu>, menu_return: MenuReturn) -> Seq<AnyMenu> {
    let popped = if menu_return.pop && stack.len() > 1 {
        stack.drop_last()
    } else {
        stack
    };
    if menu_return.push is Some && popped.len() < MAX_DEPTH {
        popped.push(menu_return.push->Some_0)
    } else {
        popped
    }
}

/// The topmost menu once it has been told of the forward and back buttons,
/// in this order.
pub open spec fn menu_after_moves(menu: AnyMenu, states: ButtonStates) -> AnyMenu {
    let forwarded = if states.btn_1_pressed {
        menu.after_forward()
    } else {
        menu
    };
    if states.btn_2_pressed {
        forwarded.after_back()
    } else {
        forwarded
    }
}

/// The open menus once the presses have been handed to the topmost.
pub open spec fn stack_after_input(stack: Seq<AnyMenu>, states: ButtonStates) -> Seq<AnyMenu> {
    let top = menu_after_moves(stack.last(), states);
    let moved = stack.update(stack.len() - 1, top);
    if states.btn_3_pressed {
        stack_after_return(moved, top.answer())
    } else {
        moved
    }
}

/// The stack of open menus.
pub struct UI {
    menu_stack: [Option<AnyMenu>; MAX_DEPTH],
    pointer: u8,
}

impl UI {
    /// The slots up to the topmost menu are taken, those above are free.
    pub closed spec fn wf(&self) -> bool {
        &&& self.pointer < MAX_DEPTH
        &&& forall|i: int| 0 <= i <= self.pointer ==> (#[trigger] self.menu_stack@[i]) is Some
        &&& forall|i: int| self.pointer < i < MAX_DEPTH ==> (#[trigger] self.menu_stack@[i]) is None
    }

    /// The open menus, the root first and the topmost last.
    pub closed spec fn stack(&self) -> Seq<AnyMenu> {
        Seq::new((self.pointer + 1) as nat, |i: int| self.menu_stack@[i]->Some_0)
    }

    /// There is always a root, and never more menus than slots.
    pub proof fn lemma_stack_len(&self)
        requires
            self.wf(),
        ensures
            1 <= self.stack().len() <= MAX_DEPTH,
    {
    }

    /// A stack that holds the root menu.
    pub fn new(root_menu: AnyMenu) -> (ui: UI)
        ensures
            ui.wf(),
            ui.stack() == seq![root_menu],
    {
        let mut menu_stack: [Option<AnyMenu>; MAX_DEPTH] = [None; MAX_DEPTH];
        menu_stack[0] = Some(root_menu);
        let ui = UI { menu_stack, pointer: 0 };
        assert(ui.stack() =~= seq![root_menu]);
        ui
    }

    /// Closes the topmost menu, which must not be the root.
    pub fn pop_menu(&mut self)
        requires
            old(self).wf(),
            old(self).stack().len() > 1,
        ensures
            final(self).wf(),
            final(self).stack() == old(self).stack().drop_last(),
    {
        self.menu_stack[self.pointer as usize] = None;
        self.pointer -= 1;
        assert(self.stack() =~= old(self).stack().drop_last());
    }

    /// Opens a menu on top. The stack must have a free slot.
    pub fn push_menu(&mut self, menu: AnyMenu)
        requires
            old(self).wf(),
            old(self).stack().len() < MAX_DEPTH,
        ensures
            final(self).wf(),
            final(self).stack() == old(self).stack().push(menu),
    {
        self.pointer += 1;
        self.menu_stack[self.pointer as usize] = Some(menu);
        assert(self.stack() =~= old(self).stack().push(menu));
    }

    /// The topmost menu.
    pub fn get_current_menu(&self) -> (current: &Option<AnyMenu>)
        requires
            self.wf(),
        ensures
            *current == Some(self.stack().last()),
    {
        &self.menu_stack[self.pointer as usize]
    }

    /// Number of open menus.
    pub fn open_menus(&self) -> (count: usize)
        requires
            self.wf(),
        ensures
            count == self.stack().len(),
    {
        self.pointer as usize + 1
    }

    /// Does what a menu asked for when an item was confirmed.
    pub fn apply_return(&mut self, menu_return: MenuReturn)
        requires
            old(self).wf(),
        ensures
            final(self).wf(),
            final(self).stack() == stack_after_return(old(self).stack(), menu_return),
    {
        if menu_return.pop && self.pointer > 0 {
            self.pop_menu();
        }
        if let Some(new_menu) = menu_return.push {
            if (self.pointer as usize) + 1 < MAX_DEPTH {
                self.push_menu(new_menu);
            }
        }
    }

    /// Hands the presses to the topmost menu: forward, back, then confirm,
    /// each if its button was pressed, and does what the menu asks for on
    /// confirm.
    pub fn check_button_input(&mut self, states: ButtonStates)
        requires
            old(self).wf(),
        ensures
            final(self).wf(),
            final(self).stack() == stack_after_input(old(self).stack(), states),
    {
        let top: usize = self.pointer as usize;
        let mut menu: AnyMenu = self.menu_stack[top].unwrap();
        if states.btn_1_pressed {
            menu.forward();
        }
        if states.btn_2_pressed {
            menu.back();
        }
        self.menu_stack[top] = Some(menu);
        assert(self.stack() =~= old(self).stack().update(old(self).stack().len() - 1, menu));
        if states.btn_3_pressed {
            let menu_return: MenuReturn = menu.confirm();
            self.apply_return(menu_return);
        }
    }
}

} // verus!
