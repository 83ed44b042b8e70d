//! What the screen shows of the menus: which texts, where, and in which
//! font. Drawing the lines is left to whoever holds the display.

use vstd::prelude::*;
use crate::ui::menu::{AnyMenu, Menu};
use crate::ui::UI;

verus! {

/// The two fonts of the screen.
#[derive(Clone, Copy, Debug, PartialEq, Eq, Structural)]
pub enum Font {
    /// Six by ten pixels: the title and the selected item.
    Big,
    /// Four by six pixels: the items next to the selected one.
    Small,
}

/// How a text lies to its anchor.
#[derive(Clone, Copy, Debug, PartialEq, Eq, Structural)]
pub enum Alignment {
    /// The text begins at the anchor.
    Left,
    /// The text is centred on the anchor.
    Center,
}

/// One text on the screen.
#[derive(Clone, Copy, Debug, PartialEq, Eq)]
pub struct TextLine<'a> {
    /// What is written.
    pub text: &'a str,
    /// Column of the anchor, in pixels from the left.
    pub x: i32,
    /// Row of the baseline, in pixels from the top.
    pub y: i32,
    /// The font.
    pub font: Font,
    /// How the text lies to the anchor.
    pub alignment: Alignment,
}

/// A menu on the screen: its title, and the selected item between its two
/// neighbours.
#[derive(Clone, Copy, Debug, PartialEq, Eq)]
pub struct VerticalMenu<'a> {
    /// The title, centred in the top row.
    pub title: TextLine<'a>,
    /// The item before the selected one.
    pub above: TextLine<'a>,
    /// The selected item.
    pub selected: TextLine<'a>,
    /// The item after the selected one.
    pub below: TextLine<'a>,
}

/// Index of the item shown above the selected one. Above the first item the
/// index wraps around to one that no menu has, whose text is empty.
pub open spec fn index_above(selection: u8) -> u8 {
    if selection == 0 {
        u8::MAX
    } else {
        (selection - 1) as u8
    }
}

/// Index of the item shown below the selected one.
pub open spec fn index_below(selection: u8) -> u8 {
    if selection == u8::MAX {
        0
    } else {
        (selection + 1) as u8
    }
}

/// Whether the screen shows these four texts in the places of a menu.
pub open spec fn shows(
    layout: VerticalMenu<'_>,
    title: Seq<char>,
    above: Seq<char>,
    selected: Seq<char>,
    below: Seq<char>,
) -> bool {
    &&& layout.title.text@ == title
    &&& layout.title.x == 64 && layout.title.y == 6
    &&& layout.title.font == Font::Big && layout.title.alignment == Alignment::Center
    &&& layout.above.text@ == above
    &&& layout.above.x == 0 && layout.above.y == 13
    &&& layout.above.font == Font::Small && layout.above.alignment == Alignment::Left
    &&& layout.selected.text@ == selected
    &&& layout.selected.x == 0 && layout.selected.y == 22
    &&& layout.selected.font == Font::Big && layout.selected.alignment == Alignment::Left
    &&& layout.below.text@ == below
    &&& layout.below.x == 0 && layout.below.y == 29
    &&& layout.below.font == Font::Small && layout.below.alignment == Alignment::Left
}

/// Lays out a title and three items as a menu.
pub fn vertical_menu_layout<'a>(title: &'a str, items: (&'a str, &'a str, &'a str)) -> (layout:
    VerticalMenu<'a>)
    ensures
        shows(layout, title@, items.0@, items.1@, items.2@),
{
    VerticalMenu {
        title: TextLine { text: title, x: 64, y: 6, font: Font::Big, alignment: Alignment::Center },
        above: TextLine {
            text: items.0,
            x: 0,
            y: 13,
            font: Font::Small,
            alignment: Alignment::Left,
        },
        selected: TextLine {
            text: items.1,
            x: 0,
            y: 22,
            font: Font::Big,
            alignment: Alignment::Left,
        },
        below: TextLine {
            text: items.2,
            x: 0,
            y: 29,
            font: Font::Small,
            alignment: Alignment::Left,
        },
    }
}

/// Lays out a menu: its title, and its selected item between the item
/// before and the item after.
pub fn layout_of_menu<'a>(menu: &'a AnyMenu) -> (layout: VerticalMenu<'a>)
    ensures
        shows(
            layout,
            menu.name(),
            menu.item(index_above(menu.selection())),
            menu.item(menu.selection()),
            menu.item(index_below(menu.selection())),
        ),
{
    let selection: u8 = menu.get_selection_pointer();
    let above: u8 = if selection == 0 {
        u8::MAX
    } else {
        selection - 1
    };
    let below: u8 = if selection == u8::MAX {
        0
    } else {
        selection + 1
    };
    vertical_menu_layout(
        menu.get_menu_name(),
        (menu.get_item(above), menu.get_item(selection), menu.get_item(below)),
    )
}

/// Lays out the topmost menu of the stack.
pub fn layout_from_ui<'a>(ui: &'a UI) -> (layout: VerticalMenu<'a>)
    requires
        ui.wf(),
    ensures
        shows(
            layout,
            ui.stack().last().name(),
            ui.stack().last().item(index_above(ui.stack().last().selection())),
            ui.stack().last().item(ui.stack().last().selection()),
            ui.stack().last().item(index_below(ui.stack().last().selection())),
        ),
{
    let menu: &AnyMenu = ui.get_current_menu().as_ref().unwrap();
    layout_of_menu(menu)
}

} // verus!
