use canal_mania::board::{build_board, Board, NeighbourMatch};
use canal_mania::flow::{takes_source_from, takes_water_from, water_level_of};
use canal_mania::level::{Level, LevelTools, TileInfo};
use canal_mania::simulation::{propogate_water_sources, propogate_wetness, run_water_simulation};
use canal_mania::tile::{Tile, TileContents, TileCostModifier, TileType};
use canal_mania::wetness::{Wetness, WetnessSource};

fn cell(contents: TileContents, height: usize) -> TileInfo {
    TileInfo { tile_type: TileType::Land, contents, is_goal: false, cost_modifier: TileCostModifier::Normal, height }
}

fn row(cells: Vec<TileInfo>) -> Board {
    let width = cells.len();
    build_board(&Level {
        tiles: cells.into_iter().map(|c| vec![c]).collect(),
        title: None,
        initial_description: None,
        sidebar_text: None,
        width,
        height: 1,
        events: Vec::new(),
        tools: LevelTools::default(),
    })
}

fn ticks(board: &mut Board, count: usize) {
    let mut only_dry = false;
    for _ in 0..count {
        run_water_simulation(board, &mut only_dry);
        propogate_water_sources(board);
    }
}

fn wetness(board: &Board, x: usize) -> Wetness {
    board.tile_at(x, 0).unwrap().wetness
}

fn source(board: &Board, x: usize) -> WetnessSource {
    board.source(board.child(x, 0).unwrap()).unwrap()
}

fn tile(contents: TileContents, z: usize, wetness: Wetness) -> Tile {
    Tile { contents, z, wetness, ..Tile::default() }
}

fn offers(w: [Option<Wetness>; 4]) -> [NeighbourMatch<(TileContents, usize, Wetness)>; 4] {
    w.map(|o| match o {
        Some(w) => NeighbourMatch::Matches((TileContents::Canal, 0, w)),
        None => NeighbourMatch::DoesntMatch,
    })
}

#[test]
fn water_reaches_the_end_of_a_canal() {
    let mut board = row(vec![cell(TileContents::River, 0), cell(TileContents::Canal, 0), cell(TileContents::Canal, 0)]);
    ticks(&mut board, 8);
    assert_eq!(wetness(&board, 0), Wetness::WaterSource);
    assert_eq!(wetness(&board, 1), Wetness::Wet(1));
    assert_eq!(wetness(&board, 2), Wetness::Wet(2));
    assert_eq!(source(&board, 2), WetnessSource::Source(0, 0));
    assert_eq!(source(&board, 1), WetnessSource::Source(0, 0));
}

#[test]
fn water_spreads_one_cell_every_other_tick() {
    let mut board = row(vec![cell(TileContents::River, 0), cell(TileContents::Canal, 0), cell(TileContents::Canal, 0)]);
    let mut only_dry = false;
    run_water_simulation(&mut board, &mut only_dry);
    assert!(only_dry);
    assert_eq!(wetness(&board, 1), Wetness::Dry);
    run_water_simulation(&mut board, &mut only_dry);
    assert!(!only_dry);
    assert_eq!(wetness(&board, 1), Wetness::Wet(1));
    assert_eq!(wetness(&board, 2), Wetness::Dry);
    run_water_simulation(&mut board, &mut only_dry);
    assert_eq!(wetness(&board, 2), Wetness::Dry);
    run_water_simulation(&mut board, &mut only_dry);
    assert_eq!(wetness(&board, 2), Wetness::Wet(2));
}

#[test]
fn a_settled_board_stays_as_it_is() {
    let mut board = row(vec![cell(TileContents::River, 0), cell(TileContents::Canal, 0), cell(TileContents::Canal, 0), cell(TileContents::Road, 0)]);
    ticks(&mut board, 10);
    let before: Vec<Tile> = (0..board.len()).map(|i| board.tile(i).unwrap()).collect();
    let sources: Vec<WetnessSource> = (0..board.len()).map(|i| board.source(i).unwrap()).collect();
    ticks(&mut board, 1);
    ticks(&mut board, 1);
    let after: Vec<Tile> = (0..board.len()).map(|i| board.tile(i).unwrap()).collect();
    assert_eq!(before, after);
    assert_eq!(sources, (0..board.len()).map(|i| board.source(i).unwrap()).collect::<Vec<_>>());
}

#[test]
fn every_wet_cell_of_a_settled_board_has_a_predecessor() {
    let mut board = row(vec![
        cell(TileContents::Canal, 0),
        cell(TileContents::Canal, 0),
        cell(TileContents::River, 0),
        cell(TileContents::Canal, 0),
        cell(TileContents::Canal, 0),
        cell(TileContents::Canal, 0),
    ]);
    ticks(&mut board, 12);
    let expected = [Wetness::Wet(2), Wetness::Wet(1), Wetness::WaterSource, Wetness::Wet(1), Wetness::Wet(2), Wetness::Wet(3)];
    for (x, w) in expected.iter().enumerate() {
        assert_eq!(wetness(&board, x), *w);
    }
    for x in 0..6 {
        if let Wetness::Wet(n) = wetness(&board, x) {
            let me = board.tile_at(x, 0).unwrap();
            let found = board.neighbours(x, 0).iter().flatten().any(|j| {
                let other = board.tile(*j).unwrap();
                takes_water_from(&me, &other)
                    && ((other.wetness == Wetness::WaterSource && n == 1) || other.wetness == Wetness::Wet(n - 1))
            });
            assert!(found);
        }
    }
}

#[test]
fn roads_and_empty_cells_stay_dry() {
    let mut board = row(vec![cell(TileContents::River, 0), cell(TileContents::Road, 0), cell(TileContents::Empty, 0)]);
    ticks(&mut board, 6);
    assert_eq!(wetness(&board, 1), Wetness::Dry);
    assert_eq!(wetness(&board, 2), Wetness::Dry);
    assert_eq!(source(&board, 1), WetnessSource::Unfed);
}

#[test]
fn a_canal_takes_water_only_on_its_own_level() {
    let mut board = row(vec![cell(TileContents::River, 1), cell(TileContents::Canal, 0), cell(TileContents::River, 0), cell(TileContents::Canal, 1)]);
    ticks(&mut board, 6);
    assert_eq!(wetness(&board, 1), Wetness::Wet(1));
    assert_eq!(source(&board, 1), WetnessSource::Source(2, 0));
    assert_eq!(wetness(&board, 3), Wetness::Dry);
}

#[test]
fn a_lock_takes_water_from_up_to_four_levels_above() {
    let mut board = row(vec![cell(TileContents::River, 4), cell(TileContents::Lock, 0), cell(TileContents::Canal, 0)]);
    ticks(&mut board, 8);
    assert_eq!(wetness(&board, 1), Wetness::Wet(1));
    assert_eq!(wetness(&board, 2), Wetness::Wet(2));
    assert_eq!(source(&board, 2), WetnessSource::Source(0, 0));
    let mut too_high = row(vec![cell(TileContents::River, 5), cell(TileContents::Lock, 0)]);
    ticks(&mut too_high, 8);
    assert_eq!(wetness(&too_high, 1), Wetness::Dry);
    let mut below = row(vec![cell(TileContents::River, 0), cell(TileContents::Lock, 1)]);
    ticks(&mut below, 8);
    assert_eq!(wetness(&below, 1), Wetness::Dry);
}

#[test]
fn an_aquaduct_connects_at_the_height_of_its_channel() {
    let aquaduct = tile(TileContents::Aquaduct(2), 0, Wetness::Dry);
    let level = tile(TileContents::Canal, 2, Wetness::Wet(1));
    let lower = tile(TileContents::Canal, 1, Wetness::Wet(1));
    assert!(takes_water_from(&aquaduct, &level));
    assert!(!takes_water_from(&aquaduct, &lower));
    assert!(takes_water_from(&level, &tile(TileContents::Aquaduct(2), 0, Wetness::Wet(1))));
    assert!(!takes_water_from(&lower, &tile(TileContents::Aquaduct(2), 0, Wetness::Wet(1))));
    assert_eq!(water_level_of(&aquaduct), 2);
    assert_eq!(water_level_of(&level), 2);
}

#[test]
fn water_crosses_an_aquaduct() {
    let mut board = row(vec![cell(TileContents::River, 2), cell(TileContents::Canal, 2), cell(TileContents::Aquaduct(2), 0), cell(TileContents::Canal, 2)]);
    ticks(&mut board, 12);
    assert_eq!(wetness(&board, 2), Wetness::Wet(2));
    assert_eq!(wetness(&board, 3), Wetness::Wet(3));
    assert_eq!(source(&board, 3), WetnessSource::Source(0, 0));
}

#[test]
fn nothing_takes_water_from_a_dry_neighbour() {
    let canal = tile(TileContents::Canal, 0, Wetness::Dry);
    assert!(!takes_water_from(&canal, &tile(TileContents::Canal, 0, Wetness::Dry)));
    assert!(takes_water_from(&canal, &tile(TileContents::Canal, 0, Wetness::Wet(7))));
    assert!(takes_water_from(&canal, &tile(TileContents::River, 0, Wetness::WaterSource)));
    assert!(!takes_water_from(&tile(TileContents::Road, 0, Wetness::Dry), &tile(TileContents::River, 0, Wetness::WaterSource)));
}

#[test]
fn a_lock_meets_an_aquaduct_only_on_its_own_level() {
    let lock = tile(TileContents::Lock, 1, Wetness::Dry);
    assert!(takes_water_from(&lock, &tile(TileContents::Aquaduct(1), 0, Wetness::Wet(1))));
    assert!(!takes_water_from(&lock, &tile(TileContents::Aquaduct(3), 0, Wetness::Wet(1))));
    assert!(takes_water_from(&lock, &tile(TileContents::Canal, 3, Wetness::Wet(1))));
}

#[test]
fn heights_near_the_limit_do_not_overflow() {
    let high = tile(TileContents::Aquaduct(usize::MAX), usize::MAX, Wetness::Wet(1));
    assert_eq!(water_level_of(&high), 2 * (usize::MAX as u128));
    assert!(!takes_water_from(&tile(TileContents::Canal, usize::MAX, Wetness::Dry), &high));
}

#[test]
fn sources_share_their_identity_along_a_river() {
    let source_tile = tile(TileContents::River, 0, Wetness::WaterSource);
    assert!(takes_source_from(&source_tile, &tile(TileContents::River, 14, Wetness::WaterSource)));
    assert!(!takes_source_from(&source_tile, &tile(TileContents::River, 15, Wetness::WaterSource)));
    assert!(takes_source_from(&tile(TileContents::River, 14, Wetness::WaterSource), &source_tile));
    assert!(takes_source_from(&source_tile, &tile(TileContents::Canal, 0, Wetness::Wet(1))));
    assert!(!takes_source_from(&source_tile, &tile(TileContents::Canal, 1, Wetness::Wet(1))));
    assert!(!takes_source_from(&source_tile, &tile(TileContents::Canal, 0, Wetness::Dry)));
    assert!(!takes_source_from(&tile(TileContents::Canal, 0, Wetness::Dry), &source_tile));
}

#[test]
fn a_river_takes_the_least_source_along_its_course() {
    let mut board = row(vec![cell(TileContents::River, 3), cell(TileContents::River, 2), cell(TileContents::River, 0)]);
    assert_eq!(source(&board, 2), WetnessSource::Source(2, 0));
    propogate_water_sources(&mut board);
    assert_eq!(source(&board, 0), WetnessSource::Source(0, 0));
    assert_eq!(source(&board, 1), WetnessSource::Source(0, 0));
    assert_eq!(source(&board, 2), WetnessSource::Source(1, 0));
    propogate_water_sources(&mut board);
    assert_eq!(source(&board, 2), WetnessSource::Source(0, 0));
}

#[test]
fn a_pass_of_sources_reads_the_board_as_it_was() {
    let mut board = row(vec![cell(TileContents::River, 0), cell(TileContents::River, 0), cell(TileContents::River, 0), cell(TileContents::River, 0)]);
    propogate_water_sources(&mut board);
    let got: Vec<WetnessSource> = (0..4).map(|x| source(&board, x)).collect();
    assert_eq!(
        got,
        vec![WetnessSource::Source(0, 0), WetnessSource::Source(0, 0), WetnessSource::Source(1, 0), WetnessSource::Source(2, 0)]
    );
}

#[test]
fn the_transition_table() {
    let dry = tile(TileContents::Canal, 0, Wetness::Dry);
    let wet = |n: usize| tile(TileContents::Canal, 0, Wetness::Wet(n));
    let none = offers([None, None, None, None]);
    let by_source = offers([None, Some(Wetness::WaterSource), Some(Wetness::Wet(4)), None]);
    let by_wet = offers([Some(Wetness::Wet(5)), None, Some(Wetness::Wet(3)), None]);
    assert_eq!(propogate_wetness(by_source, &dry, false), Some(Wetness::Wet(1)));
    assert_eq!(propogate_wetness(by_wet, &dry, false), Some(Wetness::Wet(4)));
    assert_eq!(propogate_wetness(none, &dry, false), None);
    assert_eq!(propogate_wetness(none, &wet(2), false), Some(Wetness::Dry));
    assert_eq!(propogate_wetness(by_source, &wet(3), false), Some(Wetness::Wet(1)));
    assert_eq!(propogate_wetness(by_source, &wet(1), false), None);
    assert_eq!(propogate_wetness(by_wet, &wet(4), false), None);
    assert_eq!(propogate_wetness(by_wet, &wet(5), false), Some(Wetness::Dry));
    assert_eq!(propogate_wetness(by_wet, &wet(2), false), Some(Wetness::Dry));
}

#[test]
fn only_drying_is_applied_in_the_dry_phase() {
    let dry = tile(TileContents::Canal, 0, Wetness::Dry);
    let wet = |n: usize| tile(TileContents::Canal, 0, Wetness::Wet(n));
    let none = offers([None, None, None, None]);
    let by_source = offers([Some(Wetness::WaterSource), None, None, None]);
    let by_wet = offers([None, None, None, Some(Wetness::Wet(3))]);
    assert_eq!(propogate_wetness(by_source, &dry, true), None);
    assert_eq!(propogate_wetness(by_wet, &dry, true), None);
    assert_eq!(propogate_wetness(by_source, &wet(3), true), None);
    assert_eq!(propogate_wetness(none, &wet(2), true), Some(Wetness::Dry));
    assert_eq!(propogate_wetness(by_wet, &wet(9), true), Some(Wetness::Dry));
    assert_eq!(propogate_wetness(by_wet, &wet(4), true), None);
}

#[test]
fn a_cut_canal_dries() {
    let mut board = row(vec![cell(TileContents::River, 0), cell(TileContents::Canal, 0), cell(TileContents::Canal, 0)]);
    ticks(&mut board, 8);
    let mut cut = row(vec![cell(TileContents::Empty, 0), cell(TileContents::Canal, 0), cell(TileContents::Canal, 0)]);
    ticks(&mut cut, 8);
    assert_eq!(wetness(&cut, 1), Wetness::Dry);
    assert_eq!(wetness(&cut, 2), Wetness::Dry);
    assert_eq!(wetness(&board, 2), Wetness::Wet(2));
}
