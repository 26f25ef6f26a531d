use game_core::game_obj::ResponseType;
use game_core::geometry::{vec2, Rect};
use game_core::maps::{
    fetch_tile_pixel, make_map, MapError, MapInfo, MapSource, MapSources, TileData, TileSheets, COLOR,
    TILESHEETS,
};
use game_core::scene::SCENES;

fn six_tiles() -> Vec<[i32; 2]> {
    vec![[1, 0], [2, 1], [3, 0], [4, 0], [5, 1], [6, 0]]
}

fn three_by_two() -> MapSources {
    MapSources { test_map: MapSource::new(3, 2, six_tiles()).unwrap() }
}

fn tiles_of(map: &MapInfo) -> Vec<TileData> {
    (0..map.tile_count()).map(|i| map.tile(i)).collect()
}

#[test]
fn make_map_places_tiles_row_major() {
    let map = make_map(SCENES::TestScene, &three_by_two());
    let expected = vec![
        TileData { pos: vec2(0, 0), tile_id: 1, collision: false },
        TileData { pos: vec2(16, 0), tile_id: 2, collision: true },
        TileData { pos: vec2(32, 0), tile_id: 3, collision: false },
        TileData { pos: vec2(0, 16), tile_id: 4, collision: false },
        TileData { pos: vec2(16, 16), tile_id: 5, collision: true },
        TileData { pos: vec2(32, 16), tile_id: 6, collision: false },
    ];
    assert_eq!(tiles_of(&map), expected);
}

#[test]
fn both_scenes_use_the_same_map() {
    let sources = three_by_two();
    let first = make_map(SCENES::TestScene, &sources);
    let second = make_map(SCENES::Map001, &sources);
    assert_eq!(tiles_of(&first), tiles_of(&second));
}

#[test]
fn offset_by_zero_round_trips_to_direct_construction() {
    let mut loaded = make_map(SCENES::TestScene, &three_by_two());
    loaded.offset_tiles(vec2(0, 0));
    let mut direct = MapInfo::new(2, 3, 16);
    for entry in six_tiles() {
        direct.add_tile(entry[0], entry[1]);
    }
    assert_eq!(tiles_of(&loaded), tiles_of(&direct));
    assert_eq!(loaded.tile(4).pos, vec2(16, 16));
}

#[test]
fn add_tile_wraps_after_width_tiles() {
    let mut map = MapInfo::new(2, 2, 8);
    map.add_tile(7, 1);
    map.add_tile(8, 0);
    map.add_tile(9, 2);
    assert_eq!(map.tile(0), TileData { pos: vec2(0, 0), tile_id: 7, collision: true });
    assert_eq!(map.tile(1), TileData { pos: vec2(8, 0), tile_id: 8, collision: false });
    assert_eq!(map.tile(2), TileData { pos: vec2(0, 8), tile_id: 9, collision: false });
}

#[test]
fn offset_tiles_subtracts_the_offset() {
    let mut map = make_map(SCENES::TestScene, &three_by_two());
    map.offset_tiles(vec2(5, -3));
    assert_eq!(map.tile(0).pos, vec2(-5, 3));
    assert_eq!(map.tile(5).pos, vec2(27, 19));
    assert_eq!(map.tile(5).tile_id, 6);
    assert!(map.tile(4).collision);
}

#[test]
fn is_colliding_answers_level_on_a_solid_tile() {
    let map = make_map(SCENES::TestScene, &three_by_two());
    let on_solid = Rect::new(vec2(20, 4), vec2(4, 4));
    assert_eq!(map.is_colliding(on_solid), ResponseType::LEVEL);
}

#[test]
fn is_colliding_answers_none_on_open_tiles() {
    let map = make_map(SCENES::TestScene, &three_by_two());
    let on_open = Rect::new(vec2(2, 2), vec2(4, 4));
    assert_eq!(map.is_colliding(on_open), ResponseType::NONE);
    let far_away = Rect::new(vec2(500, 500), vec2(16, 16));
    assert_eq!(map.is_colliding(far_away), ResponseType::NONE);
}

#[test]
fn is_colliding_does_not_count_touching_edges() {
    let map = make_map(SCENES::TestScene, &three_by_two());
    let left_of_solid = Rect::new(vec2(0, 0), vec2(16, 16));
    assert_eq!(map.is_colliding(left_of_solid), ResponseType::NONE);
    let one_pixel_in = Rect::new(vec2(1, 0), vec2(16, 16));
    assert_eq!(map.is_colliding(one_pixel_in), ResponseType::LEVEL);
}

#[test]
fn is_colliding_gives_the_same_answer_twice() {
    let map = make_map(SCENES::TestScene, &three_by_two());
    let across_both = Rect::new(vec2(10, 10), vec2(20, 20));
    let first = map.is_colliding(across_both);
    let second = map.is_colliding(across_both);
    assert_eq!(first, ResponseType::LEVEL);
    assert_eq!(first, second);
    assert_eq!(map.tile_count(), 6);
}

#[test]
fn is_colliding_follows_the_tiles_after_an_offset() {
    let mut map = make_map(SCENES::TestScene, &three_by_two());
    let probe = Rect::new(vec2(20, 4), vec2(4, 4));
    map.offset_tiles(vec2(16, 0));
    assert_eq!(map.is_colliding(probe), ResponseType::NONE);
    assert_eq!(map.is_colliding(Rect::new(vec2(4, 4), vec2(4, 4))), ResponseType::LEVEL);
}

#[test]
fn empty_map_collides_with_nothing() {
    let sources = MapSources { test_map: MapSource::new(0, 0, Vec::new()).unwrap() };
    let map = make_map(SCENES::TestScene, &sources);
    assert_eq!(map.tile_count(), 0);
    assert_eq!(map.is_colliding(Rect::new(vec2(0, 0), vec2(16, 16))), ResponseType::NONE);
}

#[test]
fn source_with_wrong_length_is_a_lookup_mismatch() {
    let mut short = six_tiles();
    short.pop();
    assert_eq!(MapSource::new(3, 2, short).err(), Some(MapError::TileLookupMismatch));
    assert_eq!(MapSource::new(2, 2, six_tiles()).err(), Some(MapError::TileLookupMismatch));
    assert_eq!(MapSource::new(usize::MAX, 2, six_tiles()).err(), Some(MapError::TileLookupMismatch));
}

#[test]
fn source_too_wide_for_the_grid_is_too_large() {
    assert_eq!(MapSource::new(0x800_0000, 0, Vec::new()).err(), Some(MapError::MapTooLarge));
    assert_eq!(MapSource::new(0, 0x800_0000, Vec::new()).err(), Some(MapError::MapTooLarge));
    assert!(MapSource::new(0x7ff_ffff, 0, Vec::new()).is_ok());
}

#[test]
fn color_new_takes_the_parts_in_order() {
    assert_eq!(COLOR::new([1, 2, 3, 4]), COLOR { R: 1, G: 2, B: 3, A: 4 });
}

#[test]
fn fetch_tile_pixel_reads_the_sheet() {
    let sheets = TileSheets {
        tile_sheet_test: vec![vec![[0, 0, 0, 255], [9, 8, 7, 6]], vec![[10, 20, 30, 40]]],
    };
    assert_eq!(
        fetch_tile_pixel(&sheets, TILESHEETS::TileSheetTest, 0, 1),
        Some(COLOR { R: 9, G: 8, B: 7, A: 6 })
    );
    assert_eq!(
        fetch_tile_pixel(&sheets, TILESHEETS::TileSheetTest, 1, 0),
        Some(COLOR { R: 10, G: 20, B: 30, A: 40 })
    );
}
