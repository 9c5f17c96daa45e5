use utk_editor::context::{Context, TextCapture};
use utk_editor::level::{CrateClass, StaticCrate, StaticCrateType, Steam};
use utk_editor::text::sanitize_numeric_input;
use utk_editor::transitions::{
    EditorState, InsertState, InsertType, NewLevelState, PromptType, SaveLevelType, ShadowPromptType,
};
use utk_editor::types::{Event, Keycode, Mode, MouseButton, TextureType};

fn setup() -> (EditorState, Context, TextCapture) {
    (EditorState::new(), Context::new((32, 22)), TextCapture { active: false })
}

fn key(e: &mut EditorState, c: &mut Context, t: &mut TextCapture, k: Keycode) -> Mode {
    e.handle_event(c, t, Event::KeyDown { keycode: k })
}

fn typed(e: &mut EditorState, c: &mut Context, t: &mut TextCapture, s: &str) -> Mode {
    e.handle_event(c, t, Event::TextInput { text: s.to_string() })
}

fn chars(s: &str) -> Vec<char> {
    s.chars().collect()
}

fn click_at(e: &mut EditorState, c: &mut Context, t: &mut TextCapture, x: u32, y: u32) {
    e.handle_event(c, t, Event::MouseMotion { x, y });
    e.handle_event(c, t, Event::MouseButtonDown { button: MouseButton::Left });
    e.handle_event(c, t, Event::MouseButtonUp { button: MouseButton::Left });
}

#[test]
fn numeric_field_drops_non_digits() {
    let mut field = Vec::new();
    for ch in "abc123".chars() {
        sanitize_numeric_input(&ch.to_string(), &mut field);
    }
    assert_eq!(field, chars("123"));
}

#[test]
fn numeric_field_keeps_first_three_digits() {
    let mut field = Vec::new();
    for ch in "4567".chars() {
        sanitize_numeric_input(&ch.to_string(), &mut field);
    }
    assert_eq!(field, chars("456"));
}

#[test]
fn size_prompt_typing_char_by_char() {
    let (mut e, mut c, mut t) = setup();
    key(&mut e, &mut c, &mut t, Keycode::F4);
    key(&mut e, &mut c, &mut t, Keycode::Y);
    key(&mut e, &mut c, &mut t, Keycode::Backspace);
    key(&mut e, &mut c, &mut t, Keycode::Backspace);
    for ch in "abc123".chars() {
        typed(&mut e, &mut c, &mut t, &ch.to_string());
    }
    assert_eq!(e.new_level_size_x, chars("123"));
}

#[test]
fn new_level_flow() {
    let (mut e, mut c, mut t) = setup();
    c.saved_level_name = Some(chars("old.lev"));
    c.level_save_name = chars("old");
    key(&mut e, &mut c, &mut t, Keycode::F4);
    assert_eq!(e.prompt, PromptType::NewLevel(NewLevelState::Prompt));
    assert_eq!(e.new_level_size_x, chars("16"));
    assert_eq!(e.new_level_size_y, chars("12"));
    key(&mut e, &mut c, &mut t, Keycode::Y);
    assert_eq!(e.prompt, PromptType::NewLevel(NewLevelState::XSize));
    assert!(t.active);
    key(&mut e, &mut c, &mut t, Keycode::Backspace);
    key(&mut e, &mut c, &mut t, Keycode::Backspace);
    typed(&mut e, &mut c, &mut t, "20");
    key(&mut e, &mut c, &mut t, Keycode::Return);
    assert_eq!(e.prompt, PromptType::NewLevel(NewLevelState::YSize));
    key(&mut e, &mut c, &mut t, Keycode::Backspace);
    key(&mut e, &mut c, &mut t, Keycode::Backspace);
    typed(&mut e, &mut c, &mut t, "15");
    key(&mut e, &mut c, &mut t, Keycode::Return);
    assert_eq!(e.prompt, PromptType::NoPrompt);
    assert!(!t.active);
    assert_eq!(c.level.tiles.len(), 15);
    assert_eq!(c.level.tiles[0].len(), 20);
    assert!(c.saved_level_name.is_none());
    assert!(c.level_save_name.is_empty());
    assert_eq!(c.level.scroll, (0, 0));
}

#[test]
fn new_level_rejects_small_sizes() {
    let (mut e, mut c, mut t) = setup();
    key(&mut e, &mut c, &mut t, Keycode::F4);
    key(&mut e, &mut c, &mut t, Keycode::Y);
    key(&mut e, &mut c, &mut t, Keycode::Backspace);
    key(&mut e, &mut c, &mut t, Keycode::Backspace);
    typed(&mut e, &mut c, &mut t, "15");
    key(&mut e, &mut c, &mut t, Keycode::Return);
    assert_eq!(e.prompt, PromptType::NewLevel(NewLevelState::XSize));
    key(&mut e, &mut c, &mut t, Keycode::Backspace);
    typed(&mut e, &mut c, &mut t, "6");
    key(&mut e, &mut c, &mut t, Keycode::Return);
    assert_eq!(e.prompt, PromptType::NewLevel(NewLevelState::YSize));
    key(&mut e, &mut c, &mut t, Keycode::Backspace);
    typed(&mut e, &mut c, &mut t, "1");
    key(&mut e, &mut c, &mut t, Keycode::Return);
    assert_eq!(e.prompt, PromptType::NewLevel(NewLevelState::YSize));
    assert_eq!(c.level.tiles.len(), 22);
}

#[test]
fn new_level_accepts_three_digit_sizes() {
    let (mut e, mut c, mut t) = setup();
    key(&mut e, &mut c, &mut t, Keycode::F4);
    key(&mut e, &mut c, &mut t, Keycode::Y);
    key(&mut e, &mut c, &mut t, Keycode::Backspace);
    key(&mut e, &mut c, &mut t, Keycode::Backspace);
    typed(&mut e, &mut c, &mut t, "300");
    key(&mut e, &mut c, &mut t, Keycode::Return);
    assert_eq!(e.prompt, PromptType::NewLevel(NewLevelState::YSize));
    key(&mut e, &mut c, &mut t, Keycode::Backspace);
    key(&mut e, &mut c, &mut t, Keycode::Backspace);
    typed(&mut e, &mut c, &mut t, "999");
    key(&mut e, &mut c, &mut t, Keycode::Return);
    assert_eq!(e.prompt, PromptType::NoPrompt);
    assert_eq!(c.level.tiles.len(), 999);
    assert_eq!(c.level.tiles[0].len(), 300);
}

#[test]
fn y_size_prompt_rejects_empty_field() {
    let (mut e, mut c, mut t) = setup();
    key(&mut e, &mut c, &mut t, Keycode::F4);
    key(&mut e, &mut c, &mut t, Keycode::Y);
    key(&mut e, &mut c, &mut t, Keycode::Return);
    key(&mut e, &mut c, &mut t, Keycode::Backspace);
    key(&mut e, &mut c, &mut t, Keycode::Backspace);
    key(&mut e, &mut c, &mut t, Keycode::Return);
    assert_eq!(e.prompt, PromptType::NewLevel(NewLevelState::YSize));
    assert_eq!(c.level.tiles.len(), 22);
}

#[test]
fn failed_save_reports_and_is_dismissed() {
    let (mut e, mut c, mut t) = setup();
    key(&mut e, &mut c, &mut t, Keycode::F2);
    key(&mut e, &mut c, &mut t, Keycode::Y);
    typed(&mut e, &mut c, &mut t, "lvl");
    key(&mut e, &mut c, &mut t, Keycode::Return);
    assert!(c.saved_level_name.is_some());
    e.save_failed(&mut c);
    assert_eq!(e.prompt, PromptType::FileError);
    assert!(c.saved_level_name.is_none());
    key(&mut e, &mut c, &mut t, Keycode::PageUp);
    assert_eq!(e.prompt, PromptType::NoPrompt);
    e.load_failed();
    key(&mut e, &mut c, &mut t, Keycode::Y);
    assert_eq!(e.prompt, PromptType::NoPrompt);
}

#[test]
fn leaving_editor_closes_prompt() {
    let (mut e, mut c, mut t) = setup();
    key(&mut e, &mut c, &mut t, Keycode::F2);
    key(&mut e, &mut c, &mut t, Keycode::Y);
    assert!(t.active);
    assert_eq!(key(&mut e, &mut c, &mut t, Keycode::Space), Mode::TileSelect);
    assert_eq!(e.prompt, PromptType::NoPrompt);
    assert!(!t.active);
}

#[test]
fn place_spotlight_flow() {
    let (mut e, mut c, mut t) = setup();
    key(&mut e, &mut c, &mut t, Keycode::Q);
    assert!(matches!(e.insert_item, InsertType::Spotlight(InsertState::Place)));
    e.handle_event(&mut c, &mut t, Event::MouseMotion { x: 110, y: 110 });
    e.handle_event(&mut c, &mut t, Event::MouseButtonDown { button: MouseButton::Left });
    assert_eq!(c.level.get_spotlight_from_level(&(5, 5)), Some(0));
    assert!(matches!(e.insert_item, InsertType::Spotlight(InsertState::Instructions((5, 5)))));
    key(&mut e, &mut c, &mut t, Keycode::Up);
    key(&mut e, &mut c, &mut t, Keycode::Up);
    assert_eq!(c.level.get_spotlight_from_level(&(5, 5)), Some(2));
    key(&mut e, &mut c, &mut t, Keycode::Return);
    assert!(matches!(e.insert_item, InsertType::Spotlight(InsertState::Place)));
}

#[test]
fn spotlight_intensity_stops_at_zero() {
    let (mut e, mut c, mut t) = setup();
    key(&mut e, &mut c, &mut t, Keycode::Q);
    click_at(&mut e, &mut c, &mut t, 45, 65);
    assert_eq!(c.level.get_spotlight_from_level(&(2, 3)), Some(0));
    key(&mut e, &mut c, &mut t, Keycode::Down);
    assert_eq!(c.level.get_spotlight_from_level(&(2, 3)), Some(0));
}

#[test]
fn save_flow() {
    let (mut e, mut c, mut t) = setup();
    key(&mut e, &mut c, &mut t, Keycode::F2);
    assert_eq!(e.prompt, PromptType::Save(SaveLevelType::Prompt));
    key(&mut e, &mut c, &mut t, Keycode::Y);
    assert_eq!(e.prompt, PromptType::Save(SaveLevelType::NameInput));
    assert!(t.active);
    typed(&mut e, &mut c, &mut t, "mylevel");
    key(&mut e, &mut c, &mut t, Keycode::Return);
    assert_eq!(c.save_request, Some(chars("MYLEVEL.LEV")));
    assert_eq!(c.saved_level_name, Some(chars("mylevel.lev")));
    assert_eq!(e.prompt, PromptType::NoPrompt);
    assert!(!t.active);
}

#[test]
fn save_name_rejects_symbols_and_short_names() {
    let (mut e, mut c, mut t) = setup();
    key(&mut e, &mut c, &mut t, Keycode::F2);
    key(&mut e, &mut c, &mut t, Keycode::Y);
    typed(&mut e, &mut c, &mut t, "a-b");
    typed(&mut e, &mut c, &mut t, "a");
    assert_eq!(c.level_save_name, chars("a"));
    key(&mut e, &mut c, &mut t, Keycode::Return);
    assert_eq!(e.prompt, PromptType::Save(SaveLevelType::NameInput));
    assert!(c.save_request.is_none());
    typed(&mut e, &mut c, &mut t, "bcdefghijk");
    typed(&mut e, &mut c, &mut t, "z");
    assert_eq!(c.level_save_name, chars("abcdefghijk"));
}

#[test]
fn minus_resets_zoom_and_scroll() {
    let (mut e, mut c, mut t) = setup();
    key(&mut e, &mut c, &mut t, Keycode::Plus);
    assert_eq!(c.graphics.render_multiplier, 2);
    key(&mut e, &mut c, &mut t, Keycode::Right);
    key(&mut e, &mut c, &mut t, Keycode::Down);
    assert_ne!(c.level.scroll, (0, 0));
    key(&mut e, &mut c, &mut t, Keycode::Minus);
    assert_eq!(c.graphics.render_multiplier, 1);
    assert_eq!(c.level.scroll, (0, 0));
}

#[test]
fn escape_from_clean_state_asks_to_quit() {
    let (mut e, mut c, mut t) = setup();
    let m = key(&mut e, &mut c, &mut t, Keycode::Escape);
    assert_eq!(m, Mode::Editor);
    assert_eq!(e.prompt, PromptType::Quit);
    let m = key(&mut e, &mut c, &mut t, Keycode::Y);
    assert_eq!(m, Mode::Quit);
}

#[test]
fn escape_cancels_insertion_without_quit_prompt() {
    let (mut e, mut c, mut t) = setup();
    key(&mut e, &mut c, &mut t, Keycode::A);
    let m = key(&mut e, &mut c, &mut t, Keycode::Escape);
    assert_eq!(m, Mode::Editor);
    assert!(matches!(e.insert_item, InsertType::NoneInsert));
    assert_eq!(e.prompt, PromptType::NoPrompt);
    assert!(!t.active);
}

#[test]
fn window_close_request_acts_as_escape() {
    let (mut e, mut c, mut t) = setup();
    key(&mut e, &mut c, &mut t, Keycode::Num1);
    e.handle_event(&mut c, &mut t, Event::Quit);
    assert_eq!(e.set_position, 0);
    assert_eq!(e.prompt, PromptType::NoPrompt);
}

#[test]
fn scroll_stays_inside_level() {
    let (mut e, mut c, mut t) = setup();
    for _ in 0..50 {
        key(&mut e, &mut c, &mut t, Keycode::Right);
        key(&mut e, &mut c, &mut t, Keycode::Down);
    }
    let full_x = c.graphics.get_full_x_tiles_per_screen();
    let full_y = c.graphics.get_full_y_tiles_per_screen();
    assert_eq!((full_x, full_y), (32, 24));
    assert_eq!(c.level.scroll, (0, 0));
    key(&mut e, &mut c, &mut t, Keycode::Plus);
    for _ in 0..50 {
        key(&mut e, &mut c, &mut t, Keycode::Right);
        key(&mut e, &mut c, &mut t, Keycode::Down);
    }
    assert_eq!(c.level.scroll, (16, 10));
    for _ in 0..50 {
        key(&mut e, &mut c, &mut t, Keycode::Left);
        key(&mut e, &mut c, &mut t, Keycode::Up);
    }
    assert_eq!(c.level.scroll, (0, 0));
}

#[test]
fn steam_range_and_angle_bounds() {
    let (mut e, mut c, mut t) = setup();
    key(&mut e, &mut c, &mut t, Keycode::A);
    click_at(&mut e, &mut c, &mut t, 70, 30);
    assert_eq!(c.level.get_steam_from_level(&(3, 1)), Some(Steam { angle: 0, range: 1 }));
    for _ in 0..10 {
        key(&mut e, &mut c, &mut t, Keycode::Up);
    }
    assert_eq!(c.level.get_steam_from_level(&(3, 1)).unwrap().range, 6);
    for _ in 0..10 {
        key(&mut e, &mut c, &mut t, Keycode::Down);
    }
    assert_eq!(c.level.get_steam_from_level(&(3, 1)).unwrap().range, 0);
    key(&mut e, &mut c, &mut t, Keycode::Left);
    assert_eq!(c.level.get_steam_from_level(&(3, 1)).unwrap().angle, 355);
    key(&mut e, &mut c, &mut t, Keycode::Right);
    key(&mut e, &mut c, &mut t, Keycode::Right);
    assert_eq!(c.level.get_steam_from_level(&(3, 1)).unwrap().angle, 5);
}

#[test]
fn crate_class_and_type_bounds() {
    let (mut e, mut c, mut t) = setup();
    key(&mut e, &mut c, &mut t, Keycode::X);
    click_at(&mut e, &mut c, &mut t, 10, 10);
    let at = (0, 0);
    assert_eq!(
        c.level.get_crate_from_level(&at),
        Some(StaticCrateType { crate_variant: StaticCrate::Deathmatch, crate_class: CrateClass::Weapon, crate_type: 0 })
    );
    for _ in 0..20 {
        key(&mut e, &mut c, &mut t, Keycode::Right);
    }
    assert_eq!(c.level.get_crate_from_level(&at).unwrap().crate_type, 10);
    key(&mut e, &mut c, &mut t, Keycode::Up);
    let cr = c.level.get_crate_from_level(&at).unwrap();
    assert_eq!(cr.crate_class, CrateClass::Bullet);
    assert_eq!(cr.crate_type, 0);
    for _ in 0..5 {
        key(&mut e, &mut c, &mut t, Keycode::Up);
    }
    assert_eq!(c.level.get_crate_from_level(&at).unwrap().crate_class, CrateClass::Energy);
    key(&mut e, &mut c, &mut t, Keycode::Right);
    assert_eq!(c.level.get_crate_from_level(&at).unwrap().crate_type, 0);
    for _ in 0..5 {
        key(&mut e, &mut c, &mut t, Keycode::Down);
    }
    assert_eq!(c.level.get_crate_from_level(&at).unwrap().crate_class, CrateClass::Weapon);
    key(&mut e, &mut c, &mut t, Keycode::Left);
    assert_eq!(c.level.get_crate_from_level(&at).unwrap().crate_type, 0);
}

#[test]
fn delete_removes_nearest_within_radius() {
    let (mut e, mut c, mut t) = setup();
    key(&mut e, &mut c, &mut t, Keycode::Q);
    click_at(&mut e, &mut c, &mut t, 110, 110);
    key(&mut e, &mut c, &mut t, Keycode::Return);
    click_at(&mut e, &mut c, &mut t, 210, 210);
    key(&mut e, &mut c, &mut t, Keycode::W);
    click_at(&mut e, &mut c, &mut t, 150, 150);
    assert_eq!(c.level.spotlights.len(), 2);
    click_at(&mut e, &mut c, &mut t, 130, 110);
    assert_eq!(c.level.get_spotlight_from_level(&(5, 5)), None);
    assert_eq!(c.level.get_spotlight_from_level(&(10, 10)), Some(0));
}

#[test]
fn drag_paints_rectangle_and_shadows() {
    let (mut e, mut c, mut t) = setup();
    c.selected_tile_id = 7;
    c.texture_type_selected = TextureType::Walls;
    e.handle_event(&mut c, &mut t, Event::MouseMotion { x: 25, y: 25 });
    e.handle_event(&mut c, &mut t, Event::MouseButtonDown { button: MouseButton::Left });
    assert!(e.drag_tiles);
    e.handle_event(&mut c, &mut t, Event::MouseMotion { x: 65, y: 45 });
    e.handle_event(&mut c, &mut t, Event::MouseButtonUp { button: MouseButton::Left });
    assert!(!e.drag_tiles);
    for y in 0..22usize {
        for x in 0..32usize {
            let tile = c.level.tiles[y][x];
            let inside = (1..=3).contains(&x) && (1..=2).contains(&y);
            assert_eq!(tile.texture_type == TextureType::Walls, inside);
            assert_eq!(tile.id, if inside { 7 } else { 0 });
        }
    }
    assert_eq!(c.level.tiles[1][4].shadow, 1);
    assert_eq!(c.level.tiles[3][2].shadow, 6);
    assert_eq!(c.level.tiles[3][4].shadow, 4);
    assert!(c.automatic_shadows);
}

#[test]
fn right_click_clears_shadow_and_disables_auto() {
    let (mut e, mut c, mut t) = setup();
    c.level.tiles[2][3].shadow = 5;
    e.handle_event(&mut c, &mut t, Event::MouseMotion { x: 70, y: 50 });
    e.handle_event(&mut c, &mut t, Event::MouseButtonDown { button: MouseButton::Right });
    assert_eq!(c.level.tiles[2][3].shadow, 0);
    assert!(!c.automatic_shadows);
    e.handle_event(&mut c, &mut t, Event::MouseButtonUp { button: MouseButton::Right });
    assert!(!e.mouse_right_click);
}

#[test]
fn shadow_prompt_toggles_auto_shadows() {
    let (mut e, mut c, mut t) = setup();
    key(&mut e, &mut c, &mut t, Keycode::F6);
    assert_eq!(e.prompt, PromptType::CreateShadows(ShadowPromptType::Enabled));
    key(&mut e, &mut c, &mut t, Keycode::Y);
    assert!(!c.automatic_shadows);
    c.level.tiles[0][0].texture_type = TextureType::Walls;
    key(&mut e, &mut c, &mut t, Keycode::F6);
    assert_eq!(e.prompt, PromptType::CreateShadows(ShadowPromptType::Disabled));
    key(&mut e, &mut c, &mut t, Keycode::Y);
    assert!(c.automatic_shadows);
    assert_eq!(c.level.tiles[0][1].shadow, 1);
    assert_eq!(c.level.tiles[1][0].shadow, 2);
    assert_eq!(c.level.tiles[1][1].shadow, 4);
}

#[test]
fn other_key_dismisses_yes_no_prompt() {
    let (mut e, mut c, mut t) = setup();
    key(&mut e, &mut c, &mut t, Keycode::F4);
    key(&mut e, &mut c, &mut t, Keycode::PageDown);
    assert_eq!(e.prompt, PromptType::NoPrompt);
}

#[test]
fn function_keys_switch_screens() {
    let (mut e, mut c, mut t) = setup();
    assert_eq!(key(&mut e, &mut c, &mut t, Keycode::Space), Mode::TileSelect);
    assert_eq!(key(&mut e, &mut c, &mut t, Keycode::F1), Mode::Help);
    assert_eq!(key(&mut e, &mut c, &mut t, Keycode::F3), Mode::LoadLevel);
    assert_eq!(key(&mut e, &mut c, &mut t, Keycode::F7), Mode::GeneralLevelInfo);
    assert_eq!(
        key(&mut e, &mut c, &mut t, Keycode::F8),
        Mode::RandomItemEditor(utk_editor::types::GameType::Normal)
    );
    assert_eq!(
        key(&mut e, &mut c, &mut t, Keycode::F9),
        Mode::RandomItemEditor(utk_editor::types::GameType::Deathmatch)
    );
}

#[test]
fn start_point_placement() {
    let (mut e, mut c, mut t) = setup();
    key(&mut e, &mut c, &mut t, Keycode::Num2);
    assert_eq!(e.set_position, 2);
    click_at(&mut e, &mut c, &mut t, 130, 90);
    assert_eq!(c.level.p2_position, (6, 4));
    assert_eq!(e.set_position, 0);
}

#[test]
fn escape_twice_from_clean_state_closes_quit_prompt() {
    let (mut e, mut c, mut t) = setup();
    key(&mut e, &mut c, &mut t, Keycode::Escape);
    assert_eq!(e.prompt, PromptType::Quit);
    key(&mut e, &mut c, &mut t, Keycode::Escape);
    assert_eq!(e.prompt, PromptType::NoPrompt);
    key(&mut e, &mut c, &mut t, Keycode::Z);
    key(&mut e, &mut c, &mut t, Keycode::Escape);
    key(&mut e, &mut c, &mut t, Keycode::Escape);
    assert_eq!(e.prompt, PromptType::Quit);
    assert!(matches!(e.insert_item, InsertType::NoneInsert));
}
