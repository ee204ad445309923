use canal_mania::tile::{tile_position, Tile, TileContents, TileCostModifier, TileType};
use canal_mania::wetness::{Wetness, WetnessSource};

fn tile(tile_type: TileType, contents: TileContents, cost_modifier: TileCostModifier) -> Tile {
    Tile { x: 0, y: 0, z: 0, tile_type, contents, is_goal: false, wetness: Wetness::Dry, cost_modifier }
}

#[test]
fn wetness_source_order() {
    let a = WetnessSource::Unfed;
    let b = WetnessSource::Source(3, 2);
    let c = WetnessSource::Source(1, 5);

    assert!(a > b);
    assert!(b > c);
}

#[test]
fn source_order_is_by_rank() {
    assert!(WetnessSource::Source(0, 9999) < WetnessSource::Source(1, 0));
    assert!(WetnessSource::Source(2, 7) < WetnessSource::Unfed);
    assert!(!(WetnessSource::Unfed < WetnessSource::Unfed));
    assert!(WetnessSource::Unfed >= WetnessSource::Unfed);
    // the rank of (0, 10000) is that of (1, 0): neither comes first
    assert!(!(WetnessSource::Source(0, 10000) < WetnessSource::Source(1, 0)));
    assert!(!(WetnessSource::Source(1, 0) < WetnessSource::Source(0, 10000)));
}

#[test]
fn source_order_has_no_overflow() {
    let far = WetnessSource::Source(usize::MAX, usize::MAX);
    let near = WetnessSource::Source(usize::MAX, 0);
    assert!(near < far);
    assert!(far < WetnessSource::Unfed);
}

#[test]
fn min_takes_the_least_and_keeps_self_on_a_tie() {
    let a = WetnessSource::Source(3, 2);
    let b = WetnessSource::Source(1, 5);
    assert_eq!(a.min(b), b);
    assert_eq!(b.min(a), b);
    assert_eq!(WetnessSource::Unfed.min(a), a);
    assert_eq!(a.min(WetnessSource::Unfed), a);
    let tie_one = WetnessSource::Source(0, 10000);
    let tie_two = WetnessSource::Source(1, 0);
    assert_eq!(tie_one.min(tie_two), tie_one);
    assert_eq!(tie_two.min(tie_one), tie_two);
}

#[test]
fn defaults() {
    assert_eq!(TileType::default(), TileType::Land);
    assert_eq!(TileContents::default(), TileContents::Empty);
    assert_eq!(TileCostModifier::default(), TileCostModifier::Normal);
    assert_eq!(Wetness::default(), Wetness::Dry);
    let t = Tile::default();
    assert_eq!(t.x, 0);
    assert_eq!(t.z, 0);
    assert_eq!(t.tile_type, TileType::Land);
    assert_eq!(t.contents, TileContents::Empty);
    assert!(!t.is_goal);
}

#[test]
fn dig_cost_by_terrain() {
    assert_eq!(tile(TileType::Land, TileContents::Empty, TileCostModifier::Normal).get_dig_cost(), Some(3));
    assert_eq!(tile(TileType::Farm, TileContents::Empty, TileCostModifier::Normal).get_dig_cost(), Some(4));
    assert_eq!(tile(TileType::City, TileContents::Empty, TileCostModifier::Normal).get_dig_cost(), Some(6));
    assert_eq!(tile(TileType::Sea, TileContents::Empty, TileCostModifier::Normal).get_dig_cost(), Some(8));
}

#[test]
fn dig_cost_rises_from_land_to_sea() {
    let cost = |t: TileType, m: TileCostModifier| tile(t, TileContents::Empty, m).get_dig_cost().unwrap();
    for modifier in [TileCostModifier::Normal, TileCostModifier::Multiplier] {
        assert!(cost(TileType::Land, modifier) < cost(TileType::Farm, modifier));
        assert!(cost(TileType::Farm, modifier) < cost(TileType::City, modifier));
        assert!(cost(TileType::City, modifier) < cost(TileType::Sea, modifier));
    }
    assert_eq!(tile(TileType::Sea, TileContents::Road, TileCostModifier::Multiplier).get_dig_cost(), Some(18));
    assert_eq!(tile(TileType::Sea, TileContents::Empty, TileCostModifier::Normal).get_aquaduct_cost(), Some(10));
}

#[test]
fn dig_cost_through_a_road_is_one_more() {
    assert_eq!(tile(TileType::Land, TileContents::Road, TileCostModifier::Normal).get_dig_cost(), Some(4));
    assert_eq!(tile(TileType::City, TileContents::Road, TileCostModifier::Multiplier).get_dig_cost(), Some(14));
}

#[test]
fn dig_cost_modifiers() {
    assert_eq!(tile(TileType::Farm, TileContents::Empty, TileCostModifier::Multiplier).get_dig_cost(), Some(8));
    assert_eq!(tile(TileType::Farm, TileContents::Empty, TileCostModifier::Blocked).get_dig_cost(), None);
    assert_eq!(tile(TileType::Farm, TileContents::River, TileCostModifier::Normal).get_dig_cost(), None);
}

#[test]
fn lock_and_aquaduct_cost_follow_dig_cost() {
    let t = tile(TileType::Land, TileContents::Empty, TileCostModifier::Multiplier);
    assert_eq!(t.get_lock_cost(), Some(7));
    assert_eq!(t.get_aquaduct_cost(), Some(8));
    let blocked = tile(TileType::Land, TileContents::Empty, TileCostModifier::Blocked);
    assert_eq!(blocked.get_lock_cost(), None);
    assert_eq!(blocked.get_aquaduct_cost(), None);
    let river = tile(TileType::Land, TileContents::River, TileCostModifier::Normal);
    assert_eq!(river.get_lock_cost(), None);
    assert_eq!(river.get_aquaduct_cost(), None);
}

#[test]
fn demolish_cost_by_contents() {
    let cost = |c: TileContents| tile(TileType::Land, c, TileCostModifier::Normal).get_demolish_cost();
    assert_eq!(cost(TileContents::Empty), None);
    assert_eq!(cost(TileContents::Road), Some(1));
    assert_eq!(cost(TileContents::Canal), Some(3));
    assert_eq!(cost(TileContents::Lock), Some(4));
    assert_eq!(cost(TileContents::Aquaduct(3)), Some(15));
    assert_eq!(cost(TileContents::Aquaduct(0)), Some(0));
    assert_eq!(cost(TileContents::River), None);
}

#[test]
fn demolishing_a_lock_costs_four_whatever_the_height() {
    let mut lock = tile(TileType::City, TileContents::Lock, TileCostModifier::Multiplier);
    lock.z = 9;
    assert_eq!(lock.get_demolish_cost(), Some(4));
    let mut aquaduct = tile(TileType::City, TileContents::Aquaduct(2), TileCostModifier::Multiplier);
    aquaduct.z = 9;
    assert_eq!(aquaduct.get_demolish_cost(), Some(10));
}

#[test]
fn costs_are_the_same_for_the_same_kind_of_cell() {
    let mut a = tile(TileType::Farm, TileContents::Road, TileCostModifier::Multiplier);
    let mut b = a;
    a.x = 4;
    a.y = 1;
    a.is_goal = true;
    b.wetness = Wetness::Wet(3);
    assert_eq!(a.get_dig_cost(), b.get_dig_cost());
    assert_eq!(a.get_dig_cost(), a.get_dig_cost());
    assert_eq!(a.get_lock_cost(), b.get_lock_cost());
    assert_eq!(a.get_aquaduct_cost(), b.get_aquaduct_cost());
    assert_eq!(a.get_demolish_cost(), b.get_demolish_cost());
}

#[test]
fn tile_position_needs_both_parts() {
    assert_eq!(tile_position(Some(1), Some(2)), Some((1, 2)));
    assert_eq!(tile_position(None, Some(2)), None);
    assert_eq!(tile_position(Some(1), None), None);
    assert_eq!(tile_position(None, None), None);
}
