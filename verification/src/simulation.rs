//! The simulation of water: the pass that lets wetness spread from cell to
//! cell, and the pass that carries the identity of the feeding source
//! along with it.

use crate::board::{
    Board, Grid, NeighbourMatch, carries_water, check_neighbours, lemma_neighbour_in_range,
    lemma_same_layout_wf, sound_wetness,
};
use crate::flow::{feeds, shares_source, takes_source_from, takes_water_from};
use crate::staging::{new_changes, stage, staged, staged_entries};
use crate::tile::{Tile, TileContents};
use crate::wetness::{Wetness, WetnessSource};
use vstd::prelude::*;

verus! {

/// What a neighbour's answer offers of wetness: what was read from one that
/// passed, nothing from any other.
pub open spec fn offered_wetness(answer: NeighbourMatch<(TileContents, usize, Wetness)>) -> Wetness {
    match answer {
        NeighbourMatch::Matches((_, _, wetness)) => wetness,
        _ => Wetness::Dry,
    }
}

/// The nearest water among four answers.
pub open spec fn nearest_offer(
    answers: Seq<NeighbourMatch<(TileContents, usize, Wetness)>>,
) -> Wetness {
    Wetness::Dry.nearer(offered_wetness(answers[0])).nearer(offered_wetness(answers[1])).nearer(
        offered_wetness(answers[2]),
    ).nearer(offered_wetness(answers[3]))
}

/// The wetness a cell takes when the nearest water among its neighbours is
/// `nearest`, or `None` where it keeps what it has.
///
/// A dry cell beside water becomes wet one step further than that water. A
/// wet cell with no water beside it dries. A wet cell whose distance is not
/// one more than the nearest water's is corrected: to one beside a source,
/// to dry otherwise, so that it is fed anew. While `only_dry` holds, only
/// drying is applied.
pub open spec fn wetness_step(current: Wetness, nearest: Wetness, only_dry: bool) -> Option<
    Wetness,
> {
    match (current, nearest) {
        (Wetness::Dry, Wetness::WaterSource) => if only_dry {
            None
        } else {
            Some(Wetness::Wet(1))
        },
        (Wetness::Dry, Wetness::Wet(a)) => if only_dry {
            None
        } else {
            Some(Wetness::Wet((a + 1) as usize))
        },
        (Wetness::Wet(_), Wetness::Dry) => Some(Wetness::Dry),
        (Wetness::Wet(a), Wetness::WaterSource) => if a != 1 && !only_dry {
            Some(Wetness::Wet(1))
        } else {
            None
        },
        (Wetness::Wet(a), Wetness::Wet(b)) => if a != b + 1 {
            Some(Wetness::Dry)
        } else {
            None
        },
        _ => None,
    }
}

/// Decides the wetness of one cell from the answers of its neighbours:
/// `Some` with the new wetness where the cell changes, `None` where it
/// keeps what it has.
pub fn propogate_wetness(
    neighbours: [NeighbourMatch<(TileContents, usize, Wetness)>; 4],
    tile: &Tile,
    only_dry: bool,
) -> (update: Option<Wetness>)
    requires
        forall|d: int| 0 <= d < 4 ==> offered_wetness(#[trigger] neighbours@[d]) != Wetness::Wet(usize::MAX),
    ensures
        update == wetness_step(tile.wetness, nearest_offer(neighbours@), only_dry),
{
    let mut min_wetness = Wetness::Dry;
    let mut d: usize = 0;
    while d < 4
        invariant
            d <= 4,
            forall|k: int|
                0 <= k < 4 ==> offered_wetness(#[trigger] neighbours@[k]) != Wetness::Wet(usize::MAX),
            min_wetness != Wetness::Wet(usize::MAX),
            d == 0 ==> min_wetness == Wetness::Dry,
            d == 1 ==> min_wetness == Wetness::Dry.nearer(offered_wetness(neighbours@[0])),
            d == 2 ==> min_wetness == Wetness::Dry.nearer(offered_wetness(neighbours@[0])).nearer(
                offered_wetness(neighbours@[1]),
            ),
            d == 3 ==> min_wetness == Wetness::Dry.nearer(offered_wetness(neighbours@[0])).nearer(
                offered_wetness(neighbours@[1]),
            ).nearer(offered_wetness(neighbours@[2])),
            d == 4 ==> min_wetness == nearest_offer(neighbours@),
        decreases 4 - d,
    {
        if let NeighbourMatch::Matches((_, _, wetness)) = neighbours[d] {
            min_wetness = match wetness {
                Wetness::Dry => min_wetness,
                Wetness::WaterSource => wetness,
                Wetness::Wet(a) => match min_wetness {
                    Wetness::Dry => wetness,
                    Wetness::WaterSource => min_wetness,
                    Wetness::Wet(b) => if a <= b {
                        Wetness::Wet(a)
                    } else {
                        Wetness::Wet(b)
                    },
                },
            };
        }
        d += 1;
    }
    let (should_update, new_wetness) = match (tile.wetness, min_wetness) {
        (Wetness::Dry, Wetness::WaterSource) => (true, Wetness::Wet(1)),
        (Wetness::Dry, Wetness::Wet(a)) => (true, Wetness::Wet(a + 1)),
        (Wetness::Wet(_), Wetness::Dry) => (true, Wetness::Dry),
        (Wetness::Wet(a), Wetness::WaterSource) => {
            if a != 1 {
                (true, Wetness::Wet(1))
            } else {
                (false, Wetness::Wet(a))
            }
        },
        (Wetness::Wet(a), Wetness::Wet(b)) => {
            if a != b + 1 {
                (true, Wetness::Dry)
            } else {
                (false, Wetness::Dry)
            }
        },
        _ => (false, Wetness::Dry),
    };
    if only_dry && new_wetness != Wetness::Dry {
        return None;
    }
    if should_update {
        Some(new_wetness)
    } else {
        None
    }
}

impl Grid {
    /// No cell is wet at the greatest distance the machine can count, so
    /// that one step further can still be counted.
    pub open spec fn distances_fit(self) -> bool {
        forall|i: int|
            0 <= i < self.tiles.len() ==> (#[trigger] self.tiles[i]).wetness != Wetness::Wet(
                usize::MAX,
            )
    }

    /// What the neighbour of cell `i` in direction `d` offers it of water:
    /// its wetness where the cell takes water from it, nothing otherwise.
    pub open spec fn inflow(self, i: int, d: int) -> Wetness {
        match self.neighbour(i, d) {
            Some(j) => if feeds(self.tiles[i], self.tiles[j as int]) {
                self.tiles[j as int].wetness
            } else {
                Wetness::Dry
            },
            None => Wetness::Dry,
        }
    }

    /// The nearest water that the neighbours of cell `i` offer it.
    pub open spec fn nearest_water(self, i: int) -> Wetness {
        Wetness::Dry.nearer(self.inflow(i, 0)).nearer(self.inflow(i, 1)).nearer(
            self.inflow(i, 2),
        ).nearer(self.inflow(i, 3))
    }

    /// The wetness of cell `i` after one pass. A water source, and a cell
    /// with nothing built that carries water, keep what they have.
    pub open spec fn next_wetness(self, i: int, only_dry: bool) -> Wetness {
        let tile = self.tiles[i];
        if tile.wetness == Wetness::WaterSource || !carries_water(tile.contents) {
            tile.wetness
        } else {
            match wetness_step(tile.wetness, self.nearest_water(i), only_dry) {
                Some(wetness) => wetness,
                None => tile.wetness,
            }
        }
    }

    /// The board after one pass of wetness: every cell takes its next
    /// wetness, read from the board as it was before the pass.
    pub open spec fn after_wetness_pass(self, only_dry: bool) -> Grid {
        Grid {
            tiles: Seq::new(
                self.tiles.len(),
                |i: int| Tile { wetness: self.next_wetness(i, only_dry), ..self.tiles[i] },
            ),
            ..self
        }
    }

    /// The source that the neighbour of cell `i` in direction `d` shares
    /// with it, if it shares one.
    pub open spec fn shared_source(self, i: int, d: int) -> Option<WetnessSource> {
        match self.neighbour(i, d) {
            Some(j) => if shares_source(self.tiles[i], self.tiles[j as int]) {
                Some(self.sources[j as int])
            } else {
                None
            },
            None => None,
        }
    }

    /// The source of cell `i` after one pass: the least among its own and
    /// those its neighbours share with it, its own on a tie.
    pub open spec fn next_source(self, i: int) -> WetnessSource {
        least_with(
            least_with(
                least_with(
                    least_with(self.sources[i], self.shared_source(i, 0)),
                    self.shared_source(i, 1),
                ),
                self.shared_source(i, 2),
            ),
            self.shared_source(i, 3),
        )
    }

    /// The board after one pass of sources: every cell takes its next
    /// source, read from the board as it was before the pass.
    pub open spec fn after_source_pass(self) -> Grid {
        Grid { sources: Seq::new(self.sources.len(), |i: int| self.next_source(i)), ..self }
    }
}

/// The lesser of a source and one that may be missing.
pub open spec fn least_with(source: WetnessSource, other: Option<WetnessSource>) -> WetnessSource {
    match other {
        Some(s) => source.least(s),
        None => source,
    }
}

/// The neighbours of cell `i`, each with its index, its state and its
/// source.
fn around(board: &Board, i: usize) -> (r: Vec<Option<(usize, &Tile, WetnessSource)>>)
    requires
        board@.wf(),
        i < board@.len(),
    ensures
        r@.len() == 4,
        forall|d: int|
            0 <= d < 4 ==> (#[trigger] r@[d]) == match board@.neighbour(i as int, d) {
                Some(j) => Some((j, &board@.tiles[j as int], board@.sources[j as int])),
                None => None::<(usize, &Tile, WetnessSource)>,
            },
{
    let mut r: Vec<Option<(usize, &Tile, WetnessSource)>> = Vec::new();
    let ids = board.neighbours[i];
    let mut d: usize = 0;
    while d < 4
        invariant
            d <= 4,
            board@.wf(),
            i < board@.len(),
            ids == board@.neighbours[i as int],
            r@.len() == d,
            forall|k: int|
                0 <= k < d ==> (#[trigger] r@[k]) == match board@.neighbour(i as int, k) {
                    Some(j) => Some((j, &board@.tiles[j as int], board@.sources[j as int])),
                    None => None::<(usize, &Tile, WetnessSource)>,
                },
        decreases 4 - d,
    {
        proof {
            lemma_neighbour_in_range(board@, i as int, d as int);
        }
        let entry: Option<(usize, &Tile, WetnessSource)> = match ids.0[d] {
            Some(j) => Some((j, &board.tiles[j], board.sources[j])),
            None => None,
        };
        r.push(entry);
        d += 1;
    }
    r
}

/// Whether no cell is wet at the greatest distance the machine can count.
pub fn distances_fit(board: &Board) -> (fits: bool)
    ensures
        fits == board@.distances_fit(),
{
    let n: usize = board.tiles.len();
    let mut i: usize = 0;
    while i < n
        invariant
            i <= n,
            n == board@.tiles.len(),
            forall|k: int| 0 <= k < i ==> (#[trigger] board@.tiles[k]).wetness != Wetness::Wet(
                usize::MAX,
            ),
        decreases n - i,
    {
        let tile: Tile = board.tiles[i];
        if let Wetness::Wet(distance) = tile.wetness {
            if distance == usize::MAX {
                return false;
            }
        }
        i += 1;
    }
    true
}

/// One pass of wetness over the board. The flag alternates from pass to
/// pass: it is flipped first, and while it holds only drying is applied.
/// Every cell reads its neighbours as they were before the pass.
pub fn run_water_simulation(board: &mut Board, only_dry: &mut bool)
    requires
        old(board)@.wf(),
        old(board)@.distances_fit(),
    ensures
        *final(only_dry) == !*old(only_dry),
        final(board)@ == old(board)@.after_wetness_pass(*final(only_dry)),
        final(board)@.wf(),
{
    *only_dry = !*only_dry;
    let phase: bool = *only_dry;
    let n: usize = board.tiles.len();
    let mut next: Vec<Tile> = Vec::new();
    let mut i: usize = 0;
    while i < n
        invariant
            i <= n,
            n == board@.len(),
            board@.wf(),
            board@.distances_fit(),
            next@.len() == i,
            forall|k: int|
                0 <= k < i ==> (#[trigger] next@[k]) == (Tile {
                    wetness: board@.next_wetness(k, phase),
                    ..board@.tiles[k]
                }),
        decreases n - i,
    {
        let tile: &Tile = &board.tiles[i];
        let mut updated: Tile = *tile;
        if tile.wetness != Wetness::WaterSource {
            let is_canal = tile.contents == TileContents::Canal;
            let is_lock = tile.contents == TileContents::Lock;
            let is_aquaduct = match tile.contents {
                TileContents::Aquaduct(_) => true,
                _ => false,
            };
            if is_canal || is_lock || is_aquaduct {
                let neighbours = around(board, i);
                let checked = |neighbour: &Tile| -> (r: bool)
                    ensures
                        r == feeds(*tile, *neighbour),
                    {
                        takes_water_from(tile, neighbour)
                    };
                let selector = |t: &Tile, _source: &WetnessSource, _id: &usize| -> (w: Wetness)
                    ensures
                        w == t.wetness,
                    {
                        t.wetness
                    };
                let entries = neighbours.as_slice();
                let answers = check_neighbours(entries, checked, selector);
                proof {
                    assert forall|d: int| 0 <= d < 4 implies offered_wetness(
                        #[trigger] answers@[d],
                    ) == board@.inflow(i as int, d) by {
                        lemma_neighbour_in_range(board@, i as int, d);
                        assert(neighbours@[d] == entries@[d]);
                    }
                    assert forall|d: int| 0 <= d < 4 implies offered_wetness(
                        #[trigger] answers@[d],
                    ) != Wetness::Wet(usize::MAX) by {
                        lemma_neighbour_in_range(board@, i as int, d);
                        assert(offered_wetness(answers@[d]) == board@.inflow(i as int, d));
                    }
                }
                if let Some(wetness) = propogate_wetness(answers, tile, phase) {
                    updated.wetness = wetness;
                }
            }
        }
        next.push(updated);
        i += 1;
    }
    let ghost before = board@;
    board.tiles = next;
    proof {
        assert(board@.tiles =~= before.after_wetness_pass(phase).tiles);
        lemma_wetness_pass_wf(before, phase);
    }
}

/// The nearest water beside a cell is what one of its neighbours offers.
pub proof fn lemma_nearest_is_offered(grid: Grid, i: int)
    ensures
        grid.nearest_water(i) == Wetness::Dry || exists|d: int|
            0 <= d < 4 && #[trigger] grid.inflow(i, d) == grid.nearest_water(i),
{
    let a = Wetness::Dry.nearer(grid.inflow(i, 0));
    let b = a.nearer(grid.inflow(i, 1));
    let c = b.nearer(grid.inflow(i, 2));
    let e = c.nearer(grid.inflow(i, 3));
    assert(a == Wetness::Dry || a == grid.inflow(i, 0));
    assert(b == a || b == grid.inflow(i, 1));
    assert(c == b || c == grid.inflow(i, 2));
    assert(e == c || e == grid.inflow(i, 3));
}

/// The nearest water beside a cell of a well-formed board is never at the
/// greatest distance where no cell is, and never at distance nothing.
pub proof fn lemma_nearest_is_sound(grid: Grid, i: int)
    requires
        grid.wf(),
        0 <= i < grid.len(),
    ensures
        grid.nearest_water(i) matches Wetness::Wet(b) ==> b >= 1 && (grid.distances_fit() ==> b
            < usize::MAX),
{
    lemma_nearest_is_offered(grid, i);
    if grid.nearest_water(i) != Wetness::Dry {
        let d = choose|d: int| 0 <= d < 4 && #[trigger] grid.inflow(i, d) == grid.nearest_water(i);
        lemma_neighbour_in_range(grid, i, d);
        let j = grid.neighbour(i, d)->0;
        assert(sound_wetness(grid.tiles[j as int]));
    }
}

/// One pass of wetness leaves a well-formed board well formed.
pub proof fn lemma_wetness_pass_wf(grid: Grid, only_dry: bool)
    requires
        grid.wf(),
        grid.distances_fit(),
    ensures
        grid.after_wetness_pass(only_dry).wf(),
{
    let after = grid.after_wetness_pass(only_dry);
    assert forall|i: int| 0 <= i < after.tiles.len() implies sound_wetness(
        #[trigger] after.tiles[i],
    ) by {
        assert(sound_wetness(grid.tiles[i]));
        lemma_nearest_is_sound(grid, i);
    }
    assert(grid.same_layout(after));
    lemma_same_layout_wf(grid, after);
}

/// What a neighbour's answer offers of a source: what was read from one
/// that passed, nothing from any other.
pub open spec fn offered_source(
    answer: NeighbourMatch<(TileContents, usize, (WetnessSource, usize, usize, usize))>,
) -> Option<WetnessSource> {
    match answer {
        NeighbourMatch::Matches((_, _, (source, _, _, _))) => Some(source),
        _ => None,
    }
}

/// One pass of sources over the board. Every cell that is not dry takes
/// the least source among its own and those of the neighbours that share
/// theirs with it. The new sources are staged while the board is read and
/// written afterwards, so that every cell reads its neighbours as they
/// were before the pass.
pub fn propogate_water_sources(board: &mut Board)
    requires
        old(board)@.wf(),
    ensures
        final(board)@ == old(board)@.after_source_pass(),
        final(board)@.wf(),
{
    let n: usize = board.tiles.len();
    let mut changes = new_changes();
    let mut i: usize = 0;
    while i < n
        invariant
            i <= n,
            n == board@.len(),
            board@.wf(),
            forall|k: usize|
                staged(changes).contains_key(k) ==> k < i && #[trigger] staged(changes)[k]
                    == board@.next_source(k as int),
            forall|k: usize|
                k < i && board@.next_source(k as int) != board@.sources[k as int]
                    ==> #[trigger] staged(changes).contains_key(k),
        decreases n - i,
    {
        let tile: &Tile = &board.tiles[i];
        let source: WetnessSource = board.sources[i];
        let mut min_source: WetnessSource = source;
        if tile.wetness != Wetness::Dry {
            let neighbours = around(board, i);
            let checked = |neighbour: &Tile| -> (r: bool)
                ensures
                    r == shares_source(*tile, *neighbour),
                {
                    takes_source_from(tile, neighbour)
                };
            let selector = |t: &Tile, n_source: &WetnessSource, e: &usize| -> (z: (
                WetnessSource,
                usize,
                usize,
                usize,
            ))
                ensures
                    z == (*n_source, *e, t.x, t.y),
                {
                    (*n_source, *e, t.x, t.y)
                };
            let entries = neighbours.as_slice();
            let answers = check_neighbours(entries, checked, selector);
            proof {
                assert forall|d: int| 0 <= d < 4 implies offered_source(#[trigger] answers@[d])
                    == board@.shared_source(i as int, d) by {
                    lemma_neighbour_in_range(board@, i as int, d);
                    assert(neighbours@[d] == entries@[d]);
                }
            }
            let mut d: usize = 0;
            while d < 4
                invariant
                    d <= 4,
                    i < board@.len(),
                    source == board@.sources[i as int],
                    forall|k: int|
                        0 <= k < 4 ==> offered_source(#[trigger] answers@[k])
                            == board@.shared_source(i as int, k),
                    d == 0 ==> min_source == source,
                    d == 1 ==> min_source == least_with(source, board@.shared_source(i as int, 0)),
                    d == 2 ==> min_source == least_with(
                        least_with(source, board@.shared_source(i as int, 0)),
                        board@.shared_source(i as int, 1),
                    ),
                    d == 3 ==> min_source == least_with(
                        least_with(
                            least_with(source, board@.shared_source(i as int, 0)),
                            board@.shared_source(i as int, 1),
                        ),
                        board@.shared_source(i as int, 2),
                    ),
                    d == 4 ==> min_source == board@.next_source(i as int),
                decreases 4 - d,
            {
                if let NeighbourMatch::Matches((_, _, (s, _e, _x, _y))) = answers[d] {
                    min_source = min_source.min(s);
                }
                d += 1;
            }
        } else {
            proof {
                lemma_dry_keeps_source(board@, i as int);
            }
        }
        if min_source != source {
            stage(&mut changes, i, min_source);
        }
        i += 1;
    }
    let entries = staged_entries(&changes);
    let ghost before = board@;
    let mut j: usize = 0;
    while j < entries.len()
        invariant
            j <= entries@.len(),
            n == before.len(),
            before.wf(),
            board@.same_layout(before),
            board@.tiles == before.tiles,
            forall|k: usize|
                staged(changes).contains_key(k) ==> k < n && #[trigger] staged(changes)[k]
                    == before.next_source(k as int),
            forall|k: usize|
                k < n && before.next_source(k as int) != before.sources[k as int]
                    ==> #[trigger] staged(changes).contains_key(k),
            forall|e: int|
                0 <= e < entries@.len() ==> staged(changes).contains_pair(
                    (#[trigger] entries@[e]).0,
                    entries@[e].1,
                ),
            forall|k: int|
                0 <= k < n ==> (#[trigger] board@.sources[k]) == before.sources[k]
                    || board@.sources[k] == before.next_source(k),
            forall|e: int|
                0 <= e < j ==> board@.sources[(#[trigger] entries@[e]).0 as int]
                    == before.next_source(entries@[e].0 as int),
        decreases entries@.len() - j,
    {
        let (tile, source) = entries[j];
        assert(staged(changes).contains_pair(entries@[j as int].0, entries@[j as int].1));
        let ghost sources_before = board.sources@;
        board.sources[tile] = source;
        proof {
            assert(board.sources@ == sources_before.update(tile as int, source));
            assert forall|e: int| 0 <= e < j + 1 implies board@.sources[(
            #[trigger] entries@[e]).0 as int] == before.next_source(entries@[e].0 as int) by {
                assert(staged(changes).contains_pair(entries@[e].0, entries@[e].1));
                if entries@[e].0 != tile {
                    assert(sources_before[entries@[e].0 as int] == before.next_source(
                        entries@[e].0 as int,
                    ));
                }
            }
        }
        j += 1;
    }
    proof {
        assert forall|k: int| 0 <= k < n implies #[trigger] board@.sources[k]
            == before.next_source(k) by {
            if before.next_source(k) != before.sources[k] {
                assert(staged(changes).contains_key(k as usize));
                let e = choose|e: int|
                    0 <= e < entries@.len() && (#[trigger] entries@[e]).0 == k as usize;
                assert(board@.sources[entries@[e].0 as int] == before.next_source(
                    entries@[e].0 as int,
                ));
            }
        }
        assert(board@.sources =~= before.after_source_pass().sources);
        assert(board@.starts == before.starts);
        assert(board@.neighbours == before.neighbours);
        assert(board@ == before.after_source_pass());
        lemma_source_pass_wf(before);
    }
}

/// A dry cell keeps its source.
pub proof fn lemma_dry_keeps_source(grid: Grid, i: int)
    requires
        grid.tiles[i].wetness == Wetness::Dry,
    ensures
        grid.next_source(i) == grid.sources[i],
{
    assert(grid.shared_source(i, 0) is None);
    assert(grid.shared_source(i, 1) is None);
    assert(grid.shared_source(i, 2) is None);
    assert(grid.shared_source(i, 3) is None);
}

/// One pass of sources leaves a well-formed board well formed.
pub proof fn lemma_source_pass_wf(grid: Grid)
    requires
        grid.wf(),
    ensures
        grid.after_source_pass().wf(),
{
    let after = grid.after_source_pass();
    assert(grid.same_layout(after));
    lemma_same_layout_wf(grid, after);
}

} // verus!
