use dizzy_ducklings::catalog::{
    CurrentLevel, Level, Levels, TileCoord, WorldPoint, DEFAULT_LEVEL_COUNT, MAP_HALF_TILE, TILE_SIZE,
};

fn tiles(points: &[(i32, i32)]) -> Vec<TileCoord> {
    points.iter().map(|&(x, y)| TileCoord::new(x, y)).collect()
}

fn built_in(number: i32) -> Level {
    Levels::default().current(CurrentLevel(number)).cloned().unwrap()
}

#[test]
fn the_built_in_catalog_has_ten_levels() {
    let levels = Levels::default();
    assert_eq!(levels.len(), 10);
    assert_eq!(DEFAULT_LEVEL_COUNT, 10);
    assert!(levels.current(CurrentLevel(9)).is_some());
    assert!(levels.current(CurrentLevel(10)).is_none());
}

#[test]
fn the_built_in_levels_name_their_maps_in_order() {
    let maps: Vec<String> = (0..10).map(|n| built_in(n).map).collect();
    assert_eq!(
        maps,
        vec![
            "level1.tmx",
            "level2.tmx",
            "level3.tmx",
            "level4.tmx",
            "level5.tmx",
            "level6.tmx",
            "level7.tmx",
            "level8.tmx",
            "level9.tmx",
            "level11.tmx",
        ]
    );
}

#[test]
fn the_built_in_levels_have_their_sizes_and_start_tiles() {
    let sizes: Vec<(i32, i32)> = (0..10).map(|n| (built_in(n).size.x, built_in(n).size.y)).collect();
    assert_eq!(
        sizes,
        vec![
            (21, 21),
            (21, 21),
            (21, 21),
            (21, 21),
            (21, 21),
            (31, 31),
            (31, 31),
            (31, 31),
            (25, 25),
            (25, 25),
        ]
    );
    let starts: Vec<(i32, i32)> = (0..10)
        .map(|n| (built_in(n).start_tile.x, built_in(n).start_tile.y))
        .collect();
    assert_eq!(
        starts,
        vec![
            (-2, 2),
            (-8, -8),
            (-2, -3),
            (5, 5),
            (0, 0),
            (-2, 4),
            (0, 2),
            (-2, -2),
            (10, -10),
            (7, 1),
        ]
    );
}

#[test]
fn the_built_in_levels_have_their_ducklings() {
    let counts: Vec<usize> = (0..10).map(|n| built_in(n).duckling_spawn_points.len()).collect();
    assert_eq!(counts, vec![3, 4, 6, 7, 10, 10, 11, 13, 13, 30]);
    assert_eq!(built_in(0).duckling_spawn_points, tiles(&[(0, -6), (0, 8), (6, 3)]));
    assert_eq!(
        built_in(1).duckling_spawn_points,
        tiles(&[(-8, 8), (8, -5), (4, 0), (-6, 1)])
    );
    assert_eq!(
        built_in(2).duckling_spawn_points,
        tiles(&[(-8, 0), (8, 0), (8, 8), (-8, -8), (8, -8), (-8, 8)])
    );
    assert_eq!(
        built_in(3).duckling_spawn_points,
        tiles(&[(-7, -7), (7, -7), (-7, 0), (7, 0), (0, 7), (-3, 8), (3, 8)])
    );
    assert_eq!(
        built_in(4).duckling_spawn_points,
        tiles(&[
            (-5, -2),
            (5, -2),
            (-5, 1),
            (5, 1),
            (-9, 4),
            (9, -4),
            (1, 8),
            (-2, -4),
            (2, -4),
            (3, 6),
        ])
    );
    assert_eq!(
        built_in(5).duckling_spawn_points,
        tiles(&[
            (-13, -1),
            (-13, -3),
            (0, -13),
            (5, -9),
            (-7, -13),
            (9, -4),
            (-11, 11),
            (0, 11),
            (13, 1),
            (3, 7),
        ])
    );
    assert_eq!(
        built_in(6).duckling_spawn_points,
        tiles(&[
            (-3, 0),
            (3, 0),
            (0, -3),
            (-11, 0),
            (11, 0),
            (0, 11),
            (0, -11),
            (9, 9),
            (9, -9),
            (-9, -9),
            (-9, 9),
        ])
    );
    assert_eq!(
        built_in(7).duckling_spawn_points,
        tiles(&[
            (-4, 2),
            (-8, 0),
            (4, 0),
            (6, -3),
            (4, -8),
            (8, 0),
            (10, 7),
            (-8, 6),
            (0, 8),
            (13, 7),
            (12, -6),
            (-10, -6),
            (-11, -10),
        ])
    );
    assert_eq!(
        built_in(8).duckling_spawn_points,
        tiles(&[
            (3, 3),
            (-3, 3),
            (-3, -3),
            (3, -3),
            (-10, 0),
            (10, 0),
            (3, 10),
            (-3, -10),
            (10, 10),
            (-10, -10),
            (-10, 10),
            (4, 11),
            (4, -11),
        ])
    );
    assert_eq!(
        built_in(9).duckling_spawn_points,
        tiles(&[
            (0, 1),
            (-1, 1),
            (-2, 1),
            (-3, 1),
            (1, 1),
            (2, 1),
            (3, 1),
            (4, 7),
            (5, 7),
            (6, 7),
            (7, 7),
            (8, 7),
            (-4, 7),
            (-5, 7),
            (-6, 7),
            (-7, 7),
            (-8, 7),
            (-4, -5),
            (-5, -5),
            (-6, -5),
            (-7, -5),
            (-8, -5),
            (4, -5),
            (5, -5),
            (6, -5),
            (7, -5),
            (8, -5),
            (-11, -11),
            (-11, 11),
            (11, -11),
        ])
    );
}

#[test]
fn a_number_outside_the_catalog_names_no_level() {
    let levels = Levels::default();
    assert!(levels.current(CurrentLevel(-1)).is_none());
    assert!(levels.current(CurrentLevel(i32::MIN)).is_none());
    assert!(levels.current(CurrentLevel(10)).is_none());
    assert!(levels.current(CurrentLevel(i32::MAX)).is_none());
    assert!(Levels::from_levels(Vec::new()).current(CurrentLevel(0)).is_none());
}

#[test]
fn a_catalog_keeps_the_levels_it_was_made_of() {
    let one = Level::new("a.tmx", TileCoord::new(3, 4), TileCoord::new(-1, 1), tiles(&[(2, 2)]));
    let two = Level::new("b.tmx", TileCoord::new(5, 6), TileCoord::new(0, 0), tiles(&[]));
    let levels = Levels::from_levels(vec![one.clone(), two.clone()]);
    assert_eq!(levels.len(), 2);
    assert_eq!(levels.current(CurrentLevel(0)), Some(&one));
    assert_eq!(levels.current(CurrentLevel(1)), Some(&two));
    assert_eq!(one.map, "a.tmx");
    assert_eq!(one.size, TileCoord { x: 3, y: 4 });
    assert_eq!(one.start_tile, TileCoord { x: -1, y: 1 });
}

#[test]
fn advancing_through_the_catalog_runs_out_at_the_last_advance() {
    let levels = Levels::default();
    let mut level = CurrentLevel::first();
    assert_eq!(level.index(), 0);
    let mut ran_out = 0;
    for step in 1..=levels.len() {
        let more = levels.advance(&mut level);
        assert_eq!(level, CurrentLevel(step as i32));
        assert_eq!(more, step < levels.len());
        if !more {
            ran_out += 1;
        }
    }
    assert_eq!(ran_out, 1);
    assert_eq!(level, CurrentLevel(10));
    assert!(levels.current(level).is_none());
}

#[test]
fn advancing_from_below_the_catalog_finds_no_level_before_the_first() {
    let levels = Levels::default();
    let mut level = CurrentLevel(-5);
    assert!(!levels.advance(&mut level));
    assert_eq!(level, CurrentLevel(-4));
    let mut level = CurrentLevel(-1);
    assert!(levels.advance(&mut level));
    assert_eq!(level, CurrentLevel(0));
}

#[test]
fn a_tile_is_thirty_two_units_wide() {
    assert_eq!(TILE_SIZE, 32);
    assert_eq!(TileCoord::new(0, 0).world_position(), WorldPoint { x: 0, y: 0 });
    assert_eq!(TileCoord::new(-2, 2).world_position(), WorldPoint { x: -64, y: 64 });
    assert_eq!(
        TileCoord::new(i32::MAX, i32::MIN).world_position(),
        WorldPoint { x: 68_719_476_704, y: -68_719_476_736 }
    );
}

#[test]
fn a_map_is_centred_on_the_origin() {
    assert_eq!(MAP_HALF_TILE, 16);
    assert_eq!(built_in(0).map_origin(), WorldPoint { x: -320, y: -320 });
    assert_eq!(built_in(5).map_origin(), WorldPoint { x: -480, y: -480 });
    assert_eq!(built_in(8).map_origin(), WorldPoint { x: -384, y: -384 });
    let wide = Level::new("w.tmx", TileCoord::new(1, 0), TileCoord::new(0, 0), Vec::new());
    assert_eq!(wide.map_origin(), WorldPoint { x: 0, y: 16 });
}
