use utk_editor::level::{CrateClass, Level, StaticCrate, StaticCrateType, Steam};
use utk_editor::types::TextureType;

fn sample_level() -> Level {
    let mut l = Level::get_default_level((17, 13));
    l.tiles[2][3].texture_type = TextureType::Walls;
    l.tiles[2][3].id = 9;
    l.tiles[12][16].shadow = 4;
    l.p1_position = (4, 5);
    l.p2_position = (6, 7);
    l.put_spotlight_to_level(&(1, 2), 3);
    l.put_steam_to_level(&(5, 6), &Steam { angle: 90, range: 4 });
    l.put_crate_to_level(
        &(7, 8),
        &StaticCrateType { crate_variant: StaticCrate::Deathmatch, crate_class: CrateClass::Bullet, crate_type: 8 },
    );
    l.crates.random.normal.weapons[10] = 5;
    l.crates.random.deathmatch.bullets[0] = 2;
    l.crates.random.deathmatch.energy = 3;
    l.general_info.comment = "hi there".chars().collect();
    l.general_info.time_limit = 120;
    l.general_info.enemy_table[7] = 6;
    l
}

#[test]
fn level_file_round_trip() {
    let l = sample_level();
    let bytes = l.serialize().unwrap();
    let back = Level::deserialize(&bytes).unwrap();
    assert_eq!(back.tiles, l.tiles);
    assert_eq!(back.p1_position, l.p1_position);
    assert_eq!(back.p2_position, l.p2_position);
    assert_eq!(back.spotlights, l.spotlights);
    assert_eq!(back.steams, l.steams);
    assert_eq!(back.crates.static_crates, l.crates.static_crates);
    assert_eq!(back.crates.random.normal.weapons, l.crates.random.normal.weapons);
    assert_eq!(back.crates.random.deathmatch.bullets, l.crates.random.deathmatch.bullets);
    assert_eq!(back.crates.random.deathmatch.energy, 3);
    assert_eq!(back.general_info.comment, l.general_info.comment);
    assert_eq!(back.general_info.time_limit, 120);
    assert_eq!(back.general_info.enemy_table, l.general_info.enemy_table);
    assert_eq!(back.scroll, (0, 0));
}

#[test]
fn level_file_layout() {
    let l = Level::get_default_level((16, 12));
    let bytes = l.serialize().unwrap();
    assert_eq!(bytes.len(), 4 * (80 + 3 * 16 * 12));
    assert_eq!(&bytes[0..8], &[16, 0, 0, 0, 12, 0, 0, 0]);
    assert_eq!(&bytes[8..12], &[1, 0, 0, 0]);
    let words = l.to_words();
    assert_eq!(words.len(), 80 + 3 * 16 * 12);
    assert_eq!(words[57], 0);
}

#[test]
fn level_file_rejects_damaged_bytes() {
    let l = sample_level();
    let bytes = l.serialize().unwrap();
    assert!(Level::deserialize(&bytes[..bytes.len() - 1].to_vec()).is_none());
    assert!(Level::deserialize(&bytes[..bytes.len() - 4].to_vec()).is_none());
    let mut bad = bytes.clone();
    bad[0] = 0;
    assert!(Level::deserialize(&bad).is_none());
    let mut bad_tile = bytes.clone();
    let last_tile = bad_tile.len() - 12;
    bad_tile[last_tile] = 3;
    assert!(Level::deserialize(&bad_tile).is_none());
    assert!(Level::deserialize(&vec![]).is_none());
}

#[test]
fn level_file_rejects_duplicate_spotlights() {
    let mut l = Level::get_default_level((16, 12));
    l.put_spotlight_to_level(&(1, 1), 1);
    l.put_spotlight_to_level(&(2, 1), 1);
    let mut words = l.to_words();
    words[80 + 3] = 1;
    assert!(Level::from_words(&words).is_none());
    words[80 + 3] = 2;
    assert!(Level::from_words(&words).is_some());
}
