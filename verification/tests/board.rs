use canal_mania::board::{build_board, check_neighbours, Board, NeighbourMatch, TileEvent};
use canal_mania::level::{Level, LevelTools, TileInfo};
use canal_mania::tile::{Tile, TileContents, TileCostModifier, TileNeighbours, TileType};
use canal_mania::wetness::{Wetness, WetnessSource};

fn info(tile_type: TileType, contents: TileContents, height: usize) -> TileInfo {
    TileInfo { tile_type, contents, is_goal: false, cost_modifier: TileCostModifier::Normal, height }
}

fn level_of(tiles: Vec<Vec<TileInfo>>, width: usize, height: usize) -> Level {
    Level {
        tiles,
        title: None,
        initial_description: None,
        sidebar_text: None,
        width,
        height,
        events: Vec::new(),
        tools: LevelTools::default(),
    }
}

fn plain(width: usize, height: usize) -> Board {
    let column: Vec<TileInfo> = (0..height).map(|_| info(TileType::Land, TileContents::Empty, 0)).collect();
    build_board(&level_of((0..width).map(|_| column.clone()).collect(), width, height))
}

#[test]
fn neighbour_ids_in_the_middle() {
    let board = plain(3, 3);
    assert_eq!(board.neighbour_ids(1, 1), [Some((1, 0)), Some((0, 1)), Some((2, 1)), Some((1, 2))]);
}

#[test]
fn neighbour_ids_at_the_corners() {
    let board = plain(3, 2);
    assert_eq!(board.neighbour_ids(0, 0), [None, None, Some((1, 0)), Some((0, 1))]);
    assert_eq!(board.neighbour_ids(2, 1), [Some((2, 0)), Some((1, 1)), None, None]);
}

#[test]
fn neighbour_ids_at_the_greatest_coordinate() {
    let board = plain(1, 1);
    assert_eq!(
        board.neighbour_ids(usize::MAX, usize::MAX),
        [Some((usize::MAX, usize::MAX - 1)), Some((usize::MAX - 1, usize::MAX)), None, None]
    );
}

#[test]
fn cells_stand_column_by_column() {
    let board = plain(3, 2);
    assert_eq!(board.len(), 6);
    assert_eq!(board.child(0, 0), Some(0));
    assert_eq!(board.child(0, 1), Some(1));
    assert_eq!(board.child(1, 0), Some(2));
    assert_eq!(board.child(2, 1), Some(5));
    assert_eq!(board.child(3, 0), None);
    assert_eq!(board.child(0, 2), None);
    let t = board.tile(5).unwrap();
    assert_eq!((t.x, t.y), (2, 1));
    assert_eq!(board.tile(6), None);
}

#[test]
fn neighbours_are_looked_up_in_the_index() {
    let board = plain(3, 2);
    assert_eq!(board.neighbours(1, 0), [None, Some(0), Some(4), Some(3)]);
    assert_eq!(board.neighbours_of(2), Some(TileNeighbours([None, Some(0), Some(4), Some(3)])));
    assert_eq!(board.neighbours_of(6), None);
}

#[test]
fn a_ragged_level_has_no_cell_where_a_column_is_short() {
    let land = info(TileType::Land, TileContents::Empty, 0);
    let board = build_board(&level_of(vec![vec![land, land], vec![land], vec![]], 3, 2));
    assert_eq!(board.len(), 3);
    assert_eq!(board.child(1, 0), Some(2));
    assert_eq!(board.child(1, 1), None);
    assert_eq!(board.child(2, 0), None);
    assert_eq!(board.neighbours(0, 1), [Some(0), None, None, None]);
    assert_eq!(board.neighbours(1, 0), [None, Some(0), None, None]);
}

#[test]
fn an_empty_level_gives_an_empty_board() {
    let board = build_board(&level_of(Vec::new(), 0, 0));
    assert_eq!(board.len(), 0);
    assert_eq!(board.child(0, 0), None);
    assert_eq!(board.tile_at(0, 0), None);
}

#[test]
fn rivers_and_sea_start_as_sources() {
    let board = build_board(&level_of(
        vec![
            vec![info(TileType::Land, TileContents::River, 2)],
            vec![info(TileType::Sea, TileContents::Empty, 0)],
            vec![info(TileType::Farm, TileContents::Canal, 1)],
        ],
        3,
        1,
    ));
    let river = board.tile_at(0, 0).unwrap();
    assert_eq!(river.wetness, Wetness::WaterSource);
    assert_eq!(river.z, 2);
    assert_eq!(board.source(0), Some(WetnessSource::Source(0, 0)));
    assert_eq!(board.tile_at(1, 0).unwrap().wetness, Wetness::WaterSource);
    assert_eq!(board.source(1), Some(WetnessSource::Source(1, 0)));
    let canal = board.tile_at(2, 0).unwrap();
    assert_eq!(canal.wetness, Wetness::Dry);
    assert_eq!(canal.contents, TileContents::Canal);
    assert_eq!(canal.tile_type, TileType::Farm);
    assert_eq!(board.source(2), Some(WetnessSource::Unfed));
    assert_eq!(board.source(3), None);
}

#[test]
fn the_board_takes_its_bounds_from_the_level() {
    let board = plain(2, 2);
    assert_eq!(board.width(), 2);
    assert_eq!(board.height(), 2);
}

#[test]
fn check_neighbours_sorts_the_answers() {
    let wet = Tile { contents: TileContents::Canal, wetness: Wetness::Wet(2), z: 5, ..Tile::default() };
    let dry = Tile { contents: TileContents::Road, ..Tile::default() };
    let around: Vec<Option<(usize, &Tile, u8)>> = vec![Some((7, &wet, 1)), None, Some((9, &dry, 2))];
    let answers = check_neighbours(&around, |t: &Tile| t.wetness != Wetness::Dry, |t: &Tile, r: &u8, e: &usize| (t.z, *r, *e));
    assert!(matches!(answers[0], NeighbourMatch::Matches((TileContents::Canal, 5, (5, 1, 7)))));
    assert!(matches!(answers[1], NeighbourMatch::NoNeighbour));
    assert!(matches!(answers[2], NeighbourMatch::DoesntMatch));
    assert!(matches!(answers[3], NeighbourMatch::NoNeighbour));
}

#[test]
fn check_neighbours_of_nothing() {
    let around: Vec<Option<(usize, &Tile, ())>> = Vec::new();
    let answers = check_neighbours(&around, |_t: &Tile| true, |_t: &Tile, _r: &(), _e: &usize| 0u8);
    for answer in answers.iter() {
        assert!(matches!(answer, NeighbourMatch::NoNeighbour));
    }
}

#[test]
fn tile_events_carry_the_cell() {
    let t = Tile::default();
    assert_eq!(TileEvent::Clicked(t, 3), TileEvent::Clicked(t, 3));
    assert_ne!(TileEvent::Clicked(t, 3), TileEvent::HoverStarted(t, 3));
}
