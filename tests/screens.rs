use utk_editor::context::{Context, TextCapture};
use utk_editor::coords::{get_selected_level_tiles, get_tile_id_from_coordinates, limit_coordinates, TileRect};
use utk_editor::general_level_info::GeneralLevelInfoState;
use utk_editor::graphics::Graphics;
use utk_editor::help::HelpState;
use utk_editor::level::Level;
use utk_editor::load_level::{get_save_name, is_level_file, LoadLevelState};
use utk_editor::random_item_editor::{get_value, set_value, RandomItemEditorState};
use utk_editor::state::{RunState, State};
use utk_editor::tile_selector::{get_number_of_tiles_in_texture, TileSelectState};
use utk_editor::transitions::PromptType;
use utk_editor::types::{Event, GameType, Keycode, Mode, MouseButton, TextureType, WindowEvent};

fn char_vec(s: &str) -> Vec<char> {
    s.chars().collect()
}

fn down(k: Keycode) -> Event {
    Event::KeyDown { keycode: k }
}

#[test]
fn texture_type_codes() {
    assert_eq!(TextureType::from_u32(0), TextureType::Floor);
    assert_eq!(TextureType::from_u32(1), TextureType::Walls);
    assert_eq!(TextureType::from_u32(2), TextureType::Shadow);
    assert_eq!(TextureType::Shadow.to_u32(), 2);
}

#[test]
fn default_level_shape() {
    let l = Level::get_default_level((20, 15));
    assert_eq!(l.tiles.len(), 15);
    assert!(l.tiles.iter().all(|r| r.len() == 20));
    assert!(l.tiles.iter().flatten().all(|t| t.texture_type == TextureType::Floor && t.id == 0 && t.shadow == 0));
    assert_eq!(l.general_info.enemy_table, vec![0; 8]);
    assert_eq!(l.crates.random.normal.weapons.len(), 11);
    assert_eq!(l.crates.random.deathmatch.bullets.len(), 9);
}

#[test]
fn limit_keeps_point_inside() {
    assert_eq!(limit_coordinates(&(700, 20), &(640, 480)), (639, 20));
    assert_eq!(limit_coordinates(&(5, 500), &(640, 480)), (5, 479));
    assert_eq!(limit_coordinates(&(5, 5), &(0, 0)), (0, 0));
}

#[test]
fn tile_id_with_and_without_scroll() {
    let g = Graphics::new();
    assert_eq!(get_tile_id_from_coordinates(&g, &(45, 25), 32, None), 2 + 32);
    assert_eq!(get_tile_id_from_coordinates(&g, &(45, 25), 32, Some((1, 2))), 3 + 3 * 32);
    let mut g2 = g;
    g2.render_multiplier = 2;
    assert_eq!(get_tile_id_from_coordinates(&g2, &(45, 25), 16, None), 1);
}

#[test]
fn selected_tiles_cover_rectangle() {
    let r = TileRect { x0: 1, y0: 2, x1: 2, y1: 3 };
    assert_eq!(get_selected_level_tiles(&r, 10, None), vec![21, 22, 31, 32]);
    assert_eq!(get_selected_level_tiles(&r, 10, Some((1, 1))), vec![32, 33, 42, 43]);
}

#[test]
fn tiles_in_atlas_count() {
    assert_eq!(get_number_of_tiles_in_texture((200, 100), 20), 50);
    assert_eq!(get_number_of_tiles_in_texture((210, 39), 20), 10);
}

#[test]
fn tile_select_pages_and_pick() {
    let ts = TileSelectState::new((200, 100), (100, 40), (60, 20));
    let mut c = Context::new((32, 22));
    assert_eq!(ts.handle_event(&mut c, down(Keycode::PageDown)), Mode::TileSelect);
    assert_eq!(c.texture_type_scrolled, TextureType::Walls);
    ts.handle_event(&mut c, down(Keycode::PageDown));
    assert_eq!(c.texture_type_scrolled, TextureType::Shadow);
    ts.handle_event(&mut c, down(Keycode::PageUp));
    assert_eq!(c.texture_type_scrolled, TextureType::Walls);
    ts.handle_event(&mut c, Event::MouseMotion { x: 50, y: 30 });
    let m = ts.handle_event(&mut c, Event::MouseButtonDown { button: MouseButton::Left });
    assert_eq!(m, Mode::Editor);
    assert_eq!(c.selected_tile_id, 2 + 5);
    assert_eq!(c.texture_type_selected, TextureType::Walls);
}

#[test]
fn tile_select_ignores_click_outside_atlas_tiles() {
    let ts = TileSelectState::new((200, 100), (100, 30), (60, 20));
    let mut c = Context::new((32, 22));
    ts.handle_event(&mut c, down(Keycode::PageDown));
    ts.handle_event(&mut c, Event::MouseMotion { x: 50, y: 25 });
    let m = ts.handle_event(&mut c, Event::MouseButtonDown { button: MouseButton::Left });
    assert_eq!(m, Mode::TileSelect);
    assert_eq!(c.selected_tile_id, 0);
    assert_eq!(ts.handle_event(&mut c, down(Keycode::Space)), Mode::Editor);
    assert_eq!(ts.handle_event(&mut c, down(Keycode::Escape)), Mode::Editor);
}

#[test]
fn general_info_edits() {
    let mut s = GeneralLevelInfoState::new();
    let mut c = Context::new((32, 22));
    let mut t = TextCapture { active: true };
    assert_eq!(s.handle_event(&mut c, &mut t, Event::TextInput { text: "my level".to_string() }), Mode::GeneralLevelInfo);
    assert!(c.level.general_info.comment.is_empty());
    s.handle_event(&mut c, &mut t, Event::TextInput { text: "my".to_string() });
    s.handle_event(&mut c, &mut t, Event::TextInput { text: " ".to_string() });
    s.handle_event(&mut c, &mut t, Event::TextInput { text: "lvl".to_string() });
    assert_eq!(c.level.general_info.comment, char_vec("my lvl"));
    s.handle_event(&mut c, &mut t, down(Keycode::Backspace));
    assert_eq!(c.level.general_info.comment, char_vec("my lv"));
    s.handle_event(&mut c, &mut t, down(Keycode::Down));
    assert!(!t.active);
    s.handle_event(&mut c, &mut t, down(Keycode::Right));
    s.handle_event(&mut c, &mut t, down(Keycode::Right));
    assert_eq!(c.level.general_info.time_limit, 20);
    s.handle_event(&mut c, &mut t, down(Keycode::Left));
    assert_eq!(c.level.general_info.time_limit, 10);
    s.handle_event(&mut c, &mut t, down(Keycode::Down));
    s.handle_event(&mut c, &mut t, down(Keycode::Right));
    assert_eq!(c.level.general_info.enemy_table[0], 1);
    s.handle_event(&mut c, &mut t, down(Keycode::Left));
    s.handle_event(&mut c, &mut t, down(Keycode::Left));
    assert_eq!(c.level.general_info.enemy_table[0], 0);
    for _ in 0..20 {
        s.handle_event(&mut c, &mut t, down(Keycode::Down));
    }
    assert_eq!(s.selected, 9);
    s.handle_event(&mut c, &mut t, down(Keycode::Right));
    assert_eq!(c.level.general_info.enemy_table[7], 1);
    assert_eq!(s.handle_event(&mut c, &mut t, down(Keycode::Escape)), Mode::Editor);
}

#[test]
fn comment_length_is_capped() {
    let mut s = GeneralLevelInfoState::new();
    let mut c = Context::new((32, 22));
    let mut t = TextCapture { active: true };
    s.handle_event(&mut c, &mut t, Event::TextInput { text: "abcdefghijklmnopqrs".to_string() });
    assert_eq!(c.level.general_info.comment.len(), 19);
    s.handle_event(&mut c, &mut t, Event::TextInput { text: "t".to_string() });
    assert_eq!(c.level.general_info.comment.len(), 19);
}

#[test]
fn random_item_values() {
    let mut l = Level::get_default_level((16, 12));
    set_value(&mut l, &GameType::Normal, 3, 7);
    set_value(&mut l, &GameType::Normal, 12, 4);
    set_value(&mut l, &GameType::Deathmatch, 20, 9);
    set_value(&mut l, &GameType::Deathmatch, 40, 2);
    assert_eq!(l.crates.random.normal.weapons[3], 7);
    assert_eq!(l.crates.random.normal.bullets[1], 4);
    assert_eq!(l.crates.random.deathmatch.energy, 2);
    assert_eq!(get_value(&l, &GameType::Normal, 3), 7);
    assert_eq!(get_value(&l, &GameType::Normal, 12), 4);
    assert_eq!(get_value(&l, &GameType::Deathmatch, 20), 2);
    assert_eq!(get_value(&l, &GameType::Deathmatch, 3), 0);
}

#[test]
fn random_item_screen() {
    let mut s = RandomItemEditorState::new();
    let mut c = Context::new((16, 12));
    let mut t = TextCapture { active: true };
    let m = s.handle_event(&mut c, &mut t, GameType::Deathmatch, down(Keycode::Right));
    assert_eq!(m, Mode::RandomItemEditor(GameType::Deathmatch));
    assert_eq!(c.level.crates.random.deathmatch.weapons[0], 1);
    s.handle_event(&mut c, &mut t, GameType::Deathmatch, down(Keycode::Up));
    assert_eq!(s.selected, 0);
    for _ in 0..30 {
        s.handle_event(&mut c, &mut t, GameType::Normal, down(Keycode::Down));
    }
    assert_eq!(s.selected, 20);
    s.handle_event(&mut c, &mut t, GameType::Normal, down(Keycode::Left));
    assert_eq!(c.level.crates.random.normal.energy, 0);
    s.handle_event(&mut c, &mut t, GameType::Normal, down(Keycode::Right));
    assert_eq!(c.level.crates.random.normal.energy, 1);
    assert_eq!(s.handle_event(&mut c, &mut t, GameType::Normal, down(Keycode::Escape)), Mode::Editor);
    assert!(!t.active);
}

#[test]
fn level_file_names() {
    assert!(is_level_file(&char_vec("A.LEV")));
    assert!(is_level_file(&char_vec("b.lev")));
    assert!(!is_level_file(&char_vec("b.levx")));
    assert!(!is_level_file(&char_vec("LEV")));
    assert_eq!(get_save_name(&char_vec("MYLEVEL.LEV")), char_vec("MYLEVEL"));
    assert_eq!(get_save_name(&char_vec("my-level.lev")), char_vec(""));
}

#[test]
fn load_screen_lists_and_requests() {
    let names = vec![char_vec("a.txt"), char_vec("ONE.LEV"), char_vec("two.lev"), char_vec("three")];
    let mut s = LoadLevelState::new(&names);
    assert_eq!(s.files, vec![char_vec("ONE.LEV"), char_vec("two.lev")]);
    let mut c = Context::new((16, 12));
    assert_eq!(s.handle_event(&mut c, down(Keycode::Down)), Mode::LoadLevel);
    s.handle_event(&mut c, down(Keycode::Down));
    assert_eq!(s.selected, 1);
    assert_eq!(s.handle_event(&mut c, down(Keycode::Return)), Mode::Editor);
    assert_eq!(c.load_request, Some(char_vec("two.lev")));
    c.apply_loaded_level(&char_vec("two.lev"), Level::get_default_level((20, 20)));
    assert_eq!(c.level.tiles.len(), 20);
    assert_eq!(c.saved_level_name, Some(char_vec("two.lev")));
    assert_eq!(c.level_save_name, char_vec("two"));
    assert!(c.load_request.is_none());
}

#[test]
fn load_screen_empty_directory() {
    let mut s = LoadLevelState::new(&vec![]);
    let mut c = Context::new((16, 12));
    s.handle_event(&mut c, down(Keycode::Down));
    assert_eq!(s.selected, 0);
    assert_eq!(s.handle_event(&mut c, down(Keycode::KpEnter)), Mode::Editor);
    assert!(c.load_request.is_none());
}

#[test]
fn help_returns_on_any_key() {
    let h = HelpState::new();
    assert_eq!(h.handle_event(&down(Keycode::A)), Mode::Editor);
    assert_eq!(h.handle_event(&Event::Quit), Mode::Editor);
    assert_eq!(h.handle_event(&Event::MouseMotion { x: 1, y: 1 }), Mode::Help);
}

#[test]
fn state_dispatch_and_quit() {
    let ts = TileSelectState::new((200, 100), (100, 40), (60, 20));
    let mut st = State::new(ts, LoadLevelState::new(&vec![]));
    let mut c = Context::new((32, 22));
    let mut t = TextCapture { active: false };
    assert_eq!(st.handle_event(&mut c, &mut t, down(Keycode::F4)), RunState::Run);
    assert_eq!(st.editor.prompt, utk_editor::transitions::PromptType::NewLevel(utk_editor::transitions::NewLevelState::Prompt));
    st.handle_event(&mut c, &mut t, down(Keycode::F1));
    assert_eq!(st.mode, Mode::Help);
    assert_eq!(st.editor.prompt, PromptType::NoPrompt);
    st.handle_event(&mut c, &mut t, down(Keycode::Space));
    assert_eq!(st.mode, Mode::Editor);
    st.handle_event(&mut c, &mut t, Event::Window { win_event: WindowEvent::Resized { width: 800, height: 60 } });
    assert_eq!((c.graphics.resolution_x, c.graphics.resolution_y), (800, 128));
    st.handle_event(&mut c, &mut t, down(Keycode::Escape));
    assert_eq!(st.handle_event(&mut c, &mut t, down(Keycode::Y)), RunState::Quit);
    assert_eq!(st.handle_event(&mut c, &mut t, down(Keycode::Space)), RunState::Quit);
}

#[test]
fn resize_pulls_scroll_back_inside_level() {
    let mut c = Context::new((40, 30));
    c.level.scroll = (8, 6);
    c.resize(WindowEvent::Resized { width: 800, height: 600 });
    assert_eq!((c.graphics.resolution_x, c.graphics.resolution_y), (800, 600));
    assert_eq!(c.level.scroll, (0, 0));
    c.level.scroll = (4, 3);
    c.resize(WindowEvent::Resized { width: 640, height: 480 });
    assert_eq!(c.level.scroll, (4, 3));
    c.level.scroll = (8, 3);
    c.resize(WindowEvent::Resized { width: 700, height: 9000 });
    assert_eq!(c.graphics.resolution_y, 8192);
    assert_eq!(c.level.scroll, (5, 0));
}

#[test]
fn browser_screen_pixels() {
    let mut s = utk_editor::web::State::new();
    assert_eq!((s.screen_width(), s.screen_height()), (320, 200));
    assert_eq!(s.screen().len(), 320 * 200 * 4);
    assert_eq!(&s.screen()[0..8], &[0, 0, 0, 255, 0, 0, 0, 255]);
    s.mouse_move(2, 1);
    assert_eq!(s.screen()[(320 + 2) * 4], 255);
    s.mouse_move(320, 1);
    assert_eq!(s.screen().iter().filter(|b| **b == 255).count(), 320 * 200 + 1);
    s.frame();
}
