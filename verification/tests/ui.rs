use wav_player::input::ButtonStates;
use wav_player::ui::menu::main_menu::MainMenu;
use wav_player::ui::menu::settings_menu::SettingsMenu;
use wav_player::ui::menu::song_menu::SongMenu;
use wav_player::ui::menu::{AnyMenu, Menu};
use wav_player::ui::screen::{layout_from_ui, vertical_menu_layout, Alignment, Font};
use wav_player::ui::{MenuReturn, MAX_DEPTH, UI};

fn press(btn_1: bool, btn_2: bool, btn_3: bool) -> ButtonStates {
    ButtonStates { btn_1_pressed: btn_1, btn_2_pressed: btn_2, btn_3_pressed: btn_3 }
}

fn current(ui: &UI) -> AnyMenu {
    ui.get_current_menu().unwrap()
}

#[test]
fn main_menu_selection_wraps() {
    let mut menu = MainMenu::new();
    assert_eq!(menu.get_selection_pointer(), 0);
    menu.forward();
    assert_eq!(menu.get_selection_pointer(), 1);
    menu.forward();
    assert_eq!(menu.get_selection_pointer(), 0);
    menu.back();
    assert_eq!(menu.get_selection_pointer(), 1);
    menu.back();
    assert_eq!(menu.get_selection_pointer(), 0);
}

#[test]
fn song_menu_selection_wraps() {
    let mut menu = SongMenu::new();
    menu.back();
    assert_eq!(menu.get_selection_pointer(), 5);
    menu.forward();
    assert_eq!(menu.get_selection_pointer(), 0);
    for expected in 1..=5 {
        menu.forward();
        assert_eq!(menu.get_selection_pointer(), expected);
    }
    menu.forward();
    assert_eq!(menu.get_selection_pointer(), 0);
}

#[test]
fn settings_menu_selection_wraps() {
    let mut menu = SettingsMenu::new();
    menu.back();
    assert_eq!(menu.get_selection_pointer(), 1);
    menu.forward();
    assert_eq!(menu.get_selection_pointer(), 0);
}

#[test]
fn menu_names_and_items() {
    let main = MainMenu::new();
    assert_eq!(main.get_menu_name(), "Main Menu");
    assert_eq!(main.get_item(0), "Songs");
    assert_eq!(main.get_item(1), "Settings");
    assert_eq!(main.get_item(2), "");
    assert_eq!(main.get_item(255), "");
    let songs = SongMenu::new();
    assert_eq!(songs.get_menu_name(), "Song Menu");
    assert_eq!(songs.get_item(0), "Back");
    assert_eq!(songs.get_item(1), "Play Song 1");
    assert_eq!(songs.get_item(2), "Play Song 2");
    assert_eq!(songs.get_item(3), "Play Song 3");
    assert_eq!(songs.get_item(4), "Play Song 4");
    assert_eq!(songs.get_item(5), "Play Song 5");
    assert_eq!(songs.get_item(6), "");
    let settings = SettingsMenu::new();
    assert_eq!(settings.get_menu_name(), "Settings");
    assert_eq!(settings.get_item(0), "Back");
    assert_eq!(settings.get_item(2), "");
}

#[test]
fn main_menu_confirm_opens_submenus() {
    let mut menu = MainMenu::new();
    assert_eq!(
        menu.confirm(),
        MenuReturn { push: Some(AnyMenu::Songs(SongMenu::new())), pop: false }
    );
    menu.forward();
    assert_eq!(
        menu.confirm(),
        MenuReturn { push: Some(AnyMenu::Settings(SettingsMenu::new())), pop: false }
    );
    assert_eq!(menu.get_selection_pointer(), 1);
}

#[test]
fn submenus_confirm_back_pops() {
    let mut songs = SongMenu::new();
    assert_eq!(songs.confirm(), MenuReturn { push: None, pop: true });
    songs.forward();
    assert_eq!(songs.confirm(), MenuReturn::default());
    let mut settings = SettingsMenu::new();
    assert_eq!(settings.confirm(), MenuReturn { push: None, pop: true });
    settings.forward();
    assert_eq!(settings.confirm(), MenuReturn { push: None, pop: false });
}

#[test]
fn ui_starts_with_the_root() {
    let ui = UI::new(AnyMenu::Main(MainMenu::new()));
    assert_eq!(ui.open_menus(), 1);
    assert_eq!(*ui.get_current_menu(), Some(AnyMenu::Main(MainMenu::new())));
}

#[test]
fn ui_walks_into_songs_and_back() {
    let mut ui = UI::new(AnyMenu::Main(MainMenu::new()));
    ui.check_button_input(press(false, false, true));
    assert_eq!(ui.open_menus(), 2);
    assert_eq!(current(&ui).get_menu_name(), "Song Menu");
    ui.check_button_input(press(true, false, false));
    assert_eq!(current(&ui).get_selection_pointer(), 1);
    // Confirming a song changes nothing.
    ui.check_button_input(press(false, false, true));
    assert_eq!(ui.open_menus(), 2);
    ui.check_button_input(press(false, true, false));
    assert_eq!(current(&ui).get_selection_pointer(), 0);
    ui.check_button_input(press(false, false, true));
    assert_eq!(ui.open_menus(), 1);
    assert_eq!(current(&ui).get_menu_name(), "Main Menu");
}

#[test]
fn ui_forward_then_confirm_in_one_round() {
    let mut ui = UI::new(AnyMenu::Main(MainMenu::new()));
    ui.check_button_input(press(true, false, true));
    assert_eq!(ui.open_menus(), 2);
    assert_eq!(current(&ui).get_menu_name(), "Settings");
    // Below, the root keeps its selection.
    ui.check_button_input(press(false, false, true));
    assert_eq!(current(&ui).get_selection_pointer(), 1);
}

#[test]
fn ui_forward_and_back_cancel() {
    let mut ui = UI::new(AnyMenu::Songs(SongMenu::new()));
    ui.check_button_input(press(true, true, false));
    assert_eq!(current(&ui).get_selection_pointer(), 0);
    ui.check_button_input(press(false, false, false));
    assert_eq!(ui.open_menus(), 1);
}

#[test]
fn ui_keeps_its_root() {
    let mut ui = UI::new(AnyMenu::Songs(SongMenu::new()));
    ui.check_button_input(press(false, false, true));
    assert_eq!(ui.open_menus(), 1);
    assert_eq!(current(&ui).get_menu_name(), "Song Menu");
    ui.apply_return(MenuReturn { push: None, pop: true });
    assert_eq!(ui.open_menus(), 1);
}

#[test]
fn ui_push_and_pop() {
    let mut ui = UI::new(AnyMenu::Main(MainMenu::new()));
    ui.push_menu(AnyMenu::Settings(SettingsMenu::new()));
    ui.push_menu(AnyMenu::Songs(SongMenu::new()));
    assert_eq!(ui.open_menus(), 3);
    assert_eq!(current(&ui).get_menu_name(), "Song Menu");
    ui.pop_menu();
    assert_eq!(current(&ui).get_menu_name(), "Settings");
    ui.pop_menu();
    assert_eq!(current(&ui).get_menu_name(), "Main Menu");
}

#[test]
fn ui_full_stack_drops_new_menu() {
    let mut ui = UI::new(AnyMenu::Main(MainMenu::new()));
    for _ in 1..MAX_DEPTH {
        ui.push_menu(AnyMenu::Main(MainMenu::new()));
    }
    assert_eq!(ui.open_menus(), 8);
    ui.check_button_input(press(false, false, true));
    assert_eq!(ui.open_menus(), 8);
    assert_eq!(current(&ui).get_menu_name(), "Main Menu");
}

#[test]
fn ui_pop_and_push_in_one_answer() {
    let mut ui = UI::new(AnyMenu::Main(MainMenu::new()));
    ui.push_menu(AnyMenu::Songs(SongMenu::new()));
    ui.apply_return(MenuReturn { push: Some(AnyMenu::Settings(SettingsMenu::new())), pop: true });
    assert_eq!(ui.open_menus(), 2);
    assert_eq!(current(&ui).get_menu_name(), "Settings");
}

#[test]
fn layout_places_title_and_items() {
    let layout = vertical_menu_layout("Title", ("a", "b", "c"));
    assert_eq!(layout.title.text, "Title");
    assert_eq!((layout.title.x, layout.title.y), (64, 6));
    assert_eq!(layout.title.font, Font::Big);
    assert_eq!(layout.title.alignment, Alignment::Center);
    assert_eq!(layout.above.text, "a");
    assert_eq!((layout.above.x, layout.above.y), (0, 13));
    assert_eq!(layout.above.font, Font::Small);
    assert_eq!(layout.above.alignment, Alignment::Left);
    assert_eq!(layout.selected.text, "b");
    assert_eq!((layout.selected.x, layout.selected.y), (0, 22));
    assert_eq!(layout.selected.font, Font::Big);
    assert_eq!(layout.selected.alignment, Alignment::Left);
    assert_eq!(layout.below.text, "c");
    assert_eq!((layout.below.x, layout.below.y), (0, 29));
    assert_eq!(layout.below.font, Font::Small);
    assert_eq!(layout.below.alignment, Alignment::Left);
}

#[test]
fn layout_shows_selection_between_neighbours() {
    let mut ui = UI::new(AnyMenu::Songs(SongMenu::new()));
    {
        let layout = layout_from_ui(&ui);
        assert_eq!(layout.title.text, "Song Menu");
        assert_eq!(layout.above.text, "");
        assert_eq!(layout.selected.text, "Back");
        assert_eq!(layout.below.text, "Play Song 1");
    }
    ui.check_button_input(press(true, false, false));
    ui.check_button_input(press(true, false, false));
    {
        let layout = layout_from_ui(&ui);
        assert_eq!(layout.above.text, "Play Song 1");
        assert_eq!(layout.selected.text, "Play Song 2");
        assert_eq!(layout.below.text, "Play Song 3");
    }
    ui.check_button_input(press(false, true, false));
    ui.check_button_input(press(false, true, false));
    ui.check_button_input(press(false, true, false));
    let layout = layout_from_ui(&ui);
    assert_eq!(layout.above.text, "Play Song 4");
    assert_eq!(layout.selected.text, "Play Song 5");
    assert_eq!(layout.below.text, "");
}
