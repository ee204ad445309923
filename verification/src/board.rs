//! The board: every cell of the active level in one arena, the index from
//! coordinates to cells, and each cell's neighbours.

use crate::level::{Level, TileInfo};
use crate::tile::{Tile, TileContents, TileNeighbours, TileType, tile_position};
use crate::wetness::{Wetness, WetnessSource};
use vstd::prelude::*;

verus! {

/// The mathematical model of a board.
///
/// The cells stand in `tiles` column by column: column `x` fills the indices
/// from `starts[x]` up to `starts[x + 1]`, lowest row first. `sources` and
/// `neighbours` are indexed as `tiles` is.
pub struct Grid {
    pub width: usize,
    pub height: usize,
    pub starts: Seq<usize>,
    pub tiles: Seq<Tile>,
    pub sources: Seq<WetnessSource>,
    pub neighbours: Seq<TileNeighbours>,
}

/// Whether water can stand in what is built: a canal, a lock or an aqueduct.
pub open spec fn carries_water(contents: TileContents) -> bool {
    contents == TileContents::Canal || contents == TileContents::Lock
        || contents is Aquaduct
}

/// Whether the wetness of a cell is sound: only a cell that carries water
/// is wet at a distance, and that distance is one at least.
pub open spec fn sound_wetness(tile: Tile) -> bool {
    tile.wetness matches Wetness::Wet(n) ==> n >= 1 && carries_water(tile.contents)
}

/// The cell a level describes at `(x, y)`: a river or the sea is a water
/// source from the start, everything else starts dry.
pub open spec fn initial_tile(info: TileInfo, x: usize, y: usize) -> Tile {
    Tile {
        x,
        y,
        z: info.height,
        tile_type: info.tile_type,
        contents: info.contents,
        is_goal: info.is_goal,
        wetness: if info.contents == TileContents::River || info.tile_type == TileType::Sea {
            Wetness::WaterSource
        } else {
            Wetness::Dry
        },
        cost_modifier: info.cost_modifier,
    }
}

/// The source a cell has when the board is built: itself where it is a
/// water source, none otherwise.
pub open spec fn initial_source(tile: Tile) -> WetnessSource {
    if tile.wetness == Wetness::WaterSource {
        WetnessSource::Source(tile.x, tile.y)
    } else {
        WetnessSource::Unfed
    }
}

impl Grid {
    /// The number of columns.
    pub open spec fn columns(self) -> int {
        self.starts.len() - 1
    }

    /// The number of cells in column `x`.
    pub open spec fn column_len(self, x: int) -> int {
        self.starts[x + 1] - self.starts[x]
    }

    /// The number of cells.
    pub open spec fn len(self) -> int {
        self.tiles.len() as int
    }

    /// The index of the cell at `(x, y)`, if the board has one there.
    pub open spec fn child(self, x: usize, y: usize) -> Option<usize> {
        if x < self.columns() && y < self.column_len(x as int) {
            Some((self.starts[x as int] + y) as usize)
        } else {
            None
        }
    }

    /// The coordinates above, left of, right of and below `(x, y)`, each
    /// present only inside the board's stated width and height.
    pub open spec fn neighbour_ids(self, x: usize, y: usize) -> Seq<Option<(usize, usize)>> {
        seq![
            if y >= 1 {
                Some((x, (y - 1) as usize))
            } else {
                None
            },
            if x >= 1 {
                Some(((x - 1) as usize, y))
            } else {
                None
            },
            if x + 1 < self.width {
                Some(((x + 1) as usize, y))
            } else {
                None
            },
            if y + 1 < self.height {
                Some((x, (y + 1) as usize))
            } else {
                None
            },
        ]
    }

    /// The cell at a coordinate that may be missing.
    pub open spec fn lookup(self, position: Option<(usize, usize)>) -> Option<usize> {
        match position {
            Some((x, y)) => self.child(x, y),
            None => None,
        }
    }

    /// The cells around `(x, y)`, in the order of `neighbour_ids`.
    pub open spec fn adjacent(self, x: usize, y: usize) -> Seq<Option<usize>> {
        Seq::new(4, |d: int| self.lookup(self.neighbour_ids(x, y)[d]))
    }

    /// The index is sound: the columns tile the arena, and a cell stands at
    /// the coordinates it carries.
    pub open spec fn index_wf(self) -> bool {
        &&& self.starts.len() >= 1
        &&& self.starts[0] == 0
        &&& forall|x: int| 0 <= x < self.columns() ==> #[trigger] self.column_len(x) >= 0
        &&& self.starts.last() == self.tiles.len()
        &&& self.sources.len() == self.tiles.len()
        &&& forall|i: int|
            0 <= i < self.tiles.len() ==> self.child(
                (#[trigger] self.tiles[i]).x,
                self.tiles[i].y,
            ) == Some(i as usize)
        &&& forall|x: usize, y: usize|
            (#[trigger] self.child(x, y)) matches Some(i) ==> i < self.tiles.len()
                && self.tiles[i as int].x == x && self.tiles[i as int].y == y
    }

    /// The board is well formed: the index is sound, every cell knows its
    /// neighbours, and only what carries water is wet at a distance, which
    /// is one at least.
    pub open spec fn wf(self) -> bool {
        &&& self.index_wf()
        &&& self.neighbours.len() == self.tiles.len()
        &&& forall|i: int|
            0 <= i < self.tiles.len() ==> (#[trigger] self.neighbours[i]).0@ == self.adjacent(
                self.tiles[i].x,
                self.tiles[i].y,
            )
        &&& forall|i: int| 0 <= i < self.tiles.len() ==> sound_wetness(#[trigger] self.tiles[i])
    }

    /// The neighbour of cell `i` in direction `d`.
    pub open spec fn neighbour(self, i: int, d: int) -> Option<usize> {
        self.neighbours[i].0@[d]
    }

    /// The board holds exactly the cells of the level, in their initial
    /// state.
    pub open spec fn matches_level(self, level: &Level) -> bool {
        &&& self.width == level.width
        &&& self.height == level.height
        &&& self.columns() == level.tiles@.len()
        &&& forall|x: int|
            0 <= x < level.tiles@.len() ==> self.column_len(x) == (#[trigger] level.tiles@[x])@.len()
        &&& forall|x: usize, y: usize|
            (#[trigger] self.child(x, y)) matches Some(i) ==> {
                &&& self.tiles[i as int] == initial_tile(level.tiles@[x as int]@[y as int], x, y)
                &&& self.sources[i as int] == initial_source(self.tiles[i as int])
            }
    }

    /// Two boards with the same dimensions and the same index, whose cells
    /// carry the same coordinates.
    pub open spec fn same_index(self, other: Grid) -> bool {
        &&& self.width == other.width
        &&& self.height == other.height
        &&& self.starts == other.starts
        &&& self.tiles.len() == other.tiles.len()
        &&& self.sources.len() == other.sources.len()
        &&& forall|i: int|
            0 <= i < self.tiles.len() ==> (#[trigger] self.tiles[i]).x == other.tiles[i].x
                && self.tiles[i].y == other.tiles[i].y
    }

    /// Two boards that differ at most in their cells' state: the same
    /// dimensions, the same index, the same neighbours.
    pub open spec fn same_layout(self, other: Grid) -> bool {
        &&& self.same_index(other)
        &&& self.neighbours == other.neighbours
    }
}

/// In a well-formed board every neighbour is a cell of the board.
pub proof fn lemma_neighbour_in_range(grid: Grid, i: int, d: int)
    requires
        grid.wf(),
        0 <= i < grid.len(),
        0 <= d < 4,
    ensures
        grid.neighbour(i, d) matches Some(j) ==> j < grid.len(),
{
    let x = grid.tiles[i].x;
    let y = grid.tiles[i].y;
    assert(grid.neighbours[i].0@ == grid.adjacent(x, y));
    let p = grid.neighbour_ids(x, y)[d];
    assert(grid.neighbour(i, d) == grid.lookup(p));
    if let Some((px, py)) = p {
        let c = grid.child(px, py);
        assert(c == grid.neighbour(i, d));
    }
}

/// The index stays sound, and finds the same cells, when only the state of
/// the cells changes.
pub proof fn lemma_same_index(old_grid: Grid, new_grid: Grid)
    requires
        old_grid.index_wf(),
        old_grid.same_index(new_grid),
    ensures
        new_grid.index_wf(),
        forall|x: usize, y: usize| old_grid.child(x, y) == new_grid.child(x, y),
        forall|x: usize, y: usize| old_grid.adjacent(x, y) == new_grid.adjacent(x, y),
{
    assert forall|x: usize, y: usize| old_grid.child(x, y) == new_grid.child(x, y) by {}
    assert forall|x: int| 0 <= x < new_grid.columns() implies #[trigger] new_grid.column_len(x)
        >= 0 by {
        assert(old_grid.column_len(x) >= 0);
    }
    assert forall|i: int| 0 <= i < new_grid.tiles.len() implies new_grid.child(
        (#[trigger] new_grid.tiles[i]).x,
        new_grid.tiles[i].y,
    ) == Some(i as usize) by {
        assert(old_grid.tiles[i].x == new_grid.tiles[i].x);
        assert(old_grid.child(old_grid.tiles[i].x, old_grid.tiles[i].y) == Some(i as usize));
    }
    assert forall|x: usize, y: usize| (#[trigger] new_grid.child(x, y)) is Some implies {
        let i = new_grid.child(x, y)->0;
        i < new_grid.tiles.len() && new_grid.tiles[i as int].x == x && new_grid.tiles[i as int].y
            == y
    } by {
        let i = old_grid.child(x, y)->0;
        assert(old_grid.tiles[i as int].x == new_grid.tiles[i as int].x);
    }
    assert forall|x: usize, y: usize| old_grid.adjacent(x, y) == new_grid.adjacent(x, y) by {
        assert(old_grid.neighbour_ids(x, y) == new_grid.neighbour_ids(x, y));
        assert(old_grid.adjacent(x, y) =~= new_grid.adjacent(x, y));
    }
}

/// A well-formed board stays well formed when the state of its cells
/// changes and the wetness of every cell stays sound.
pub proof fn lemma_same_layout_wf(old_grid: Grid, new_grid: Grid)
    requires
        old_grid.wf(),
        old_grid.same_layout(new_grid),
        forall|i: int| 0 <= i < new_grid.tiles.len() ==> sound_wetness(#[trigger] new_grid.tiles[i]),
    ensures
        new_grid.wf(),
{
    lemma_same_index(old_grid, new_grid);
    assert forall|i: int| 0 <= i < new_grid.tiles.len() implies (#[trigger] new_grid.neighbours[i]).0@
        == new_grid.adjacent(new_grid.tiles[i].x, new_grid.tiles[i].y) by {
        assert(old_grid.tiles[i].x == new_grid.tiles[i].x);
        assert(old_grid.neighbours[i].0@ == old_grid.adjacent(
            old_grid.tiles[i].x,
            old_grid.tiles[i].y,
        ));
    }
}

/// The board of the active level.
#[derive(Debug, Clone)]
pub struct Board {
    pub(crate) width: usize,
    pub(crate) height: usize,
    pub(crate) starts: Vec<usize>,
    pub(crate) tiles: Vec<Tile>,
    pub(crate) sources: Vec<WetnessSource>,
    pub(crate) neighbours: Vec<TileNeighbours>,
}

impl View for Board {
    type V = Grid;

    open(crate) spec fn view(&self) -> Grid {
        Grid {
            width: self.width,
            height: self.height,
            starts: self.starts@,
            tiles: self.tiles@,
            sources: self.sources@,
            neighbours: self.neighbours@,
        }
    }
}

impl Board {
    /// The coordinates above, left of, right of and below `(x, y)`.
    pub fn neighbour_ids(&self, x: usize, y: usize) -> (r: [Option<(usize, usize)>; 4])
        ensures
            r@ == self@.neighbour_ids(x, y),
    {
        let above: Option<usize> = y.checked_sub(1);
        let left: Option<usize> = x.checked_sub(1);
        let center_x: Option<usize> = Some(x);
        let center_y: Option<usize> = Some(y);
        let below: Option<usize> = if y < usize::MAX && y + 1 < self.height {
            Some(y + 1)
        } else {
            None
        };
        let right: Option<usize> = if x < usize::MAX && x + 1 < self.width {
            Some(x + 1)
        } else {
            None
        };
        let r = [
            tile_position(center_x, above),
            tile_position(left, center_y),
            tile_position(right, center_y),
            tile_position(center_x, below),
        ];
        assert(r@ =~= self@.neighbour_ids(x, y));
        r
    }

    /// The index of the cell at `(x, y)`, if the board has one there.
    pub fn child(&self, x: usize, y: usize) -> (r: Option<usize>)
        requires
            self@.index_wf(),
        ensures
            r == self@.child(x, y),
    {
        if x < self.starts.len() - 1 {
            let start: usize = self.starts[x];
            let end: usize = self.starts[x + 1];
            if y < end - start {
                return Some(start + y);
            }
        }
        None
    }

    /// The cells around `(x, y)`, in the order of `neighbour_ids`.
    pub fn neighbours(&self, x: usize, y: usize) -> (r: [Option<usize>; 4])
        requires
            self@.index_wf(),
        ensures
            r@ == self@.adjacent(x, y),
    {
        let ids = self.neighbour_ids(x, y);
        let mut r: [Option<usize>; 4] = [None; 4];
        let mut d: usize = 0;
        while d < 4
            invariant
                d <= 4,
                self@.index_wf(),
                ids@ == self@.neighbour_ids(x, y),
                forall|k: int| 0 <= k < d ==> r@[k] == self@.lookup(ids@[k]),
            decreases 4 - d,
        {
            let found: Option<usize> = match ids[d] {
                Some(p) => self.child(p.0, p.1),
                None => None,
            };
            r[d] = found;
            d += 1;
        }
        assert(r@ =~= self@.adjacent(x, y));
        r
    }

    /// The width that the level states: no cell has a neighbour to its
    /// right at or beyond it.
    pub fn width(&self) -> (w: usize)
        ensures
            w == self@.width,
    {
        self.width
    }

    /// The height that the level states: no cell has a neighbour below it
    /// at or beyond it.
    pub fn height(&self) -> (h: usize)
        ensures
            h == self@.height,
    {
        self.height
    }

    /// The number of cells.
    pub fn len(&self) -> (n: usize)
        ensures
            n == self@.len(),
    {
        self.tiles.len()
    }

    /// The cell with index `i`.
    pub fn tile(&self, i: usize) -> (r: Option<Tile>)
        ensures
            r == if i < self@.len() {
                Some(self@.tiles[i as int])
            } else {
                None
            },
    {
        if i < self.tiles.len() {
            Some(self.tiles[i])
        } else {
            None
        }
    }

    /// The cell at `(x, y)`.
    pub fn tile_at(&self, x: usize, y: usize) -> (r: Option<Tile>)
        requires
            self@.index_wf(),
        ensures
            r == match self@.child(x, y) {
                Some(i) => Some(self@.tiles[i as int]),
                None => None,
            },
    {
        match self.child(x, y) {
            Some(i) => Some(self.tiles[i]),
            None => None,
        }
    }

    /// The source that feeds the cell with index `i`.
    pub fn source(&self, i: usize) -> (r: Option<WetnessSource>)
        ensures
            r == if i < self@.sources.len() {
                Some(self@.sources[i as int])
            } else {
                None
            },
    {
        if i < self.sources.len() {
            Some(self.sources[i])
        } else {
            None
        }
    }

    /// The neighbours of the cell with index `i`.
    pub fn neighbours_of(&self, i: usize) -> (r: Option<TileNeighbours>)
        ensures
            r == if i < self@.neighbours.len() {
                Some(self@.neighbours[i as int])
            } else {
                None
            },
    {
        if i < self.neighbours.len() {
            Some(self.neighbours[i])
        } else {
            None
        }
    }
}

/// What the pointer did to a cell: the cell as it looked then, and its
/// index.
#[derive(Debug, Clone, Copy, PartialEq, Eq, Structural)]
pub enum TileEvent {
    Clicked(Tile, usize),
    HoverStarted(Tile, usize),
    HoverEnded(Tile, usize),
}

/// How a neighbour answered a test: it passed, with what was read from it;
/// it failed; or there is no neighbour in that direction.
#[derive(Debug, Clone, Copy)]
pub enum NeighbourMatch<T> {
    Matches(T),
    DoesntMatch,
    NoNeighbour,
}

/// Whether `out` is a right answer for one direction: no neighbour gives
/// `NoNeighbour`; a neighbour that passes `checked` gives its contents, its
/// height and what `selector` reads from it; one that fails gives
/// `DoesntMatch`.
pub open spec fn answers<F: Fn(&Tile) -> bool, R, Z, S: Fn(&Tile, &R, &usize) -> Z>(
    entry: Option<(usize, &Tile, R)>,
    checked: F,
    selector: S,
    out: NeighbourMatch<(TileContents, usize, Z)>,
) -> bool {
    match entry {
        None => out is NoNeighbour,
        Some((id, tile, value)) => match out {
            NeighbourMatch::Matches((contents, z, selected)) => {
                &&& checked.ensures((tile,), true)
                &&& contents == tile.contents
                &&& z == tile.z
                &&& selector.ensures((tile, &value, &id), selected)
            },
            NeighbourMatch::DoesntMatch => checked.ensures((tile,), false),
            NeighbourMatch::NoNeighbour => false,
        },
    }
}

/// Tests each of up to four neighbours with `checked` and reads from those
/// that pass with `selector`.
pub fn check_neighbours<F: Fn(&Tile) -> bool, R, Z: Copy, S: Fn(&Tile, &R, &usize) -> Z>(
    neighbours: &[Option<(usize, &Tile, R)>],
    checked: F,
    selector: S,
) -> (result: [NeighbourMatch<(TileContents, usize, Z)>; 4])
    requires
        forall|i: int| 4 <= i < neighbours@.len() ==> neighbours@[i] is None,
        forall|t: &Tile| checked.requires((t,)),
        forall|t: &Tile, r: &R, e: &usize| selector.requires((t, r, e)),
    ensures
        forall|i: int|
            0 <= i < 4 ==> answers(
                if i < neighbours@.len() {
                    neighbours@[i]
                } else {
                    None
                },
                checked,
                selector,
                #[trigger] result@[i],
            ),
{
    let mut result: [NeighbourMatch<(TileContents, usize, Z)>; 4] = [NeighbourMatch::NoNeighbour;
        4];
    let mut i: usize = 0;
    while i < 4
        invariant
            i <= 4,
            forall|t: &Tile| checked.requires((t,)),
            forall|t: &Tile, r: &R, e: &usize| selector.requires((t, r, e)),
            forall|k: int|
                0 <= k < i ==> answers(
                    if k < neighbours@.len() {
                        neighbours@[k]
                    } else {
                        None
                    },
                    checked,
                    selector,
                    #[trigger] result@[k],
                ),
            forall|k: int| i <= k < 4 ==> (#[trigger] result@[k]) is NoNeighbour,
        decreases 4 - i,
    {
        if i < neighbours.len() {
            if let Some((e, neighbour, v)) = &neighbours[i] {
                let found = if checked(neighbour) {
                    NeighbourMatch::Matches((neighbour.contents, neighbour.z, selector(neighbour, v, e)))
                } else {
                    NeighbourMatch::DoesntMatch
                };
                result[i] = found;
            }
        }
        i += 1;
    }
    result
}

/// Column `a` of the level ends where the next column begins, or at
/// `total` where no column has begun after it.
spec fn column_placed(starts: Seq<usize>, total: int, level: &Level, a: int) -> bool {
    starts[a] + level.tiles@[a]@.len() == if a + 1 < starts.len() {
        starts[a + 1] as int
    } else {
        total
    }
}

/// The cell with index `i` is the one the level describes at the
/// coordinates the cell carries, and it stands where the index expects it.
spec fn tile_placed(
    starts: Seq<usize>,
    tiles: Seq<Tile>,
    sources: Seq<WetnessSource>,
    level: &Level,
    i: int,
) -> bool {
    let t = tiles[i];
    &&& t.x < starts.len()
    &&& t.x < level.tiles@.len()
    &&& t.y < level.tiles@[t.x as int]@.len()
    &&& starts[t.x as int] + t.y == i
    &&& t == initial_tile(level.tiles@[t.x as int]@[t.y as int], t.x, t.y)
    &&& sources[i] == initial_source(t)
}

/// Builds the board of a level: one cell for each entry of the level's grid,
/// in its initial state, with its source and its neighbours.
pub fn build_board(level: &Level) -> (board: Board)
    ensures
        board@.wf(),
        board@.matches_level(level),
{
    let mut board = Board {
        width: level.width,
        height: level.height,
        starts: Vec::new(),
        tiles: Vec::new(),
        sources: Vec::new(),
        neighbours: Vec::new(),
    };
    let columns: usize = level.tiles.len();
    let mut x: usize = 0;
    while x < columns
        invariant
            x <= columns,
            columns == level.tiles@.len(),
            board.width == level.width,
            board.height == level.height,
            board.neighbours@.len() == 0,
            board.starts@.len() == x,
            board.sources@.len() == board.tiles@.len(),
            x > 0 ==> board.starts@[0] == 0,
            x == 0 ==> board.tiles@.len() == 0,
            forall|a: int|
                0 <= a < x ==> #[trigger] column_placed(
                    board.starts@,
                    board.tiles@.len() as int,
                    level,
                    a,
                ),
            forall|i: int|
                0 <= i < board.tiles@.len() ==> #[trigger] tile_placed(
                    board.starts@,
                    board.tiles@,
                    board.sources@,
                    level,
                    i,
                ),
        decreases columns - x,
    {
        let start: usize = board.tiles.len();
        let ghost starts_before = board.starts@;
        board.starts.push(start);
        proof {
            assert forall|a: int| 0 <= a < x implies #[trigger] column_placed(
                board.starts@,
                start as int,
                level,
                a,
            ) by {
                assert(column_placed(starts_before, start as int, level, a));
            }
            assert forall|i: int| 0 <= i < board.tiles@.len() implies #[trigger] tile_placed(
                board.starts@,
                board.tiles@,
                board.sources@,
                level,
                i,
            ) by {
                assert(tile_placed(starts_before, board.tiles@, board.sources@, level, i));
            }
        }
        let column = &level.tiles[x];
        let rows: usize = column.len();
        let mut y: usize = 0;
        while y < rows
            invariant
                y <= rows,
                x < columns,
                columns == level.tiles@.len(),
                rows == level.tiles@[x as int]@.len(),
                column@ == level.tiles@[x as int]@,
                board.width == level.width,
                board.height == level.height,
                board.neighbours@.len() == 0,
                board.starts@.len() == x + 1,
                board.starts@[x as int] == start,
                board.starts@[0] == 0,
                board.sources@.len() == board.tiles@.len(),
                board.tiles@.len() == start + y,
                forall|a: int|
                    0 <= a < x ==> #[trigger] column_placed(board.starts@, start as int, level, a),
                forall|i: int|
                    0 <= i < board.tiles@.len() ==> #[trigger] tile_placed(
                        board.starts@,
                        board.tiles@,
                        board.sources@,
                        level,
                        i,
                    ),
            decreases rows - y,
        {
            let info: TileInfo = column[y];
            let tile = Tile {
                x,
                y,
                z: info.height,
                tile_type: info.tile_type,
                is_goal: info.is_goal,
                contents: info.contents,
                wetness: if info.contents == TileContents::River || info.tile_type
                    == TileType::Sea {
                    Wetness::WaterSource
                } else {
                    Wetness::Dry
                },
                cost_modifier: info.cost_modifier,
            };
            let source = if tile.wetness == Wetness::WaterSource {
                WetnessSource::Source(x, y)
            } else {
                WetnessSource::Unfed
            };
            let ghost tiles_before = board.tiles@;
            let ghost sources_before = board.sources@;
            board.tiles.push(tile);
            board.sources.push(source);
            proof {
                assert(board.tiles.len() == start + y + 1);
                assert forall|i: int| 0 <= i < board.tiles@.len() implies #[trigger] tile_placed(
                    board.starts@,
                    board.tiles@,
                    board.sources@,
                    level,
                    i,
                ) by {
                    if i < start + y {
                        assert(tile_placed(board.starts@, tiles_before, sources_before, level, i));
                    }
                }
            }
            y += 1;
        }
        proof {
            assert forall|a: int| 0 <= a < x + 1 implies #[trigger] column_placed(
                board.starts@,
                board.tiles@.len() as int,
                level,
                a,
            ) by {
                if a < x {
                    assert(column_placed(board.starts@, start as int, level, a));
                }
            }
        }
        x += 1;
    }
    let total: usize = board.tiles.len();
    let ghost starts_before = board.starts@;
    board.starts.push(total);
    proof {
        assert forall|a: int| 0 <= a < columns implies #[trigger] column_placed(
            board.starts@,
            total as int,
            level,
            a,
        ) by {
            assert(column_placed(starts_before, total as int, level, a));
        }
        assert forall|i: int| 0 <= i < board.tiles@.len() implies #[trigger] tile_placed(
            board.starts@,
            board.tiles@,
            board.sources@,
            level,
            i,
        ) by {
            assert(tile_placed(starts_before, board.tiles@, board.sources@, level, i));
        }
        lemma_built_index(board@, level);
    }
    let mut i: usize = 0;
    while i < total
        invariant
            i <= total,
            total == board.tiles@.len(),
            board@.index_wf(),
            board@.matches_level(level),
            board.neighbours@.len() == i,
            forall|k: int|
                0 <= k < i ==> (#[trigger] board.neighbours@[k]).0@ == board@.adjacent(
                    board.tiles@[k].x,
                    board.tiles@[k].y,
                ),
            forall|k: int| 0 <= k < total ==> !((#[trigger] board.tiles@[k]).wetness is Wet),
        decreases total - i,
    {
        let tile: Tile = board.tiles[i];
        let around = board.neighbours(tile.x, tile.y);
        let ghost before = board@;
        board.neighbours.push(TileNeighbours(around));
        proof {
            lemma_same_index(before, board@);
            assert(board@.tiles == before.tiles);
            assert(board@.sources == before.sources);
            assert forall|x: int| 0 <= x < level.tiles@.len() implies board@.column_len(x) == (
            #[trigger] level.tiles@[x])@.len() by {
                assert(before.column_len(x) == level.tiles@[x]@.len());
            }
        }
        i += 1;
    }
    board
}

/// The column starts never decrease.
proof fn lemma_starts_monotone(starts: Seq<usize>, level: &Level, a: int, b: int)
    requires
        starts.len() == level.tiles@.len() + 1,
        forall|c: int|
            0 <= c < level.tiles@.len() ==> #[trigger] column_placed(starts, 0, level, c),
        0 <= a <= b < starts.len(),
    ensures
        starts[a] <= starts[b],
    decreases b - a,
{
    if a < b {
        lemma_starts_monotone(starts, level, a, b - 1);
        assert(column_placed(starts, 0, level, b - 1));
    }
}

/// The cell that the index finds at `(x, y)` carries these coordinates.
proof fn lemma_child_is_placed(grid: Grid, level: &Level, x: usize, y: usize)
    requires
        grid.starts.len() == level.tiles@.len() + 1,
        grid.starts.last() == grid.tiles.len(),
        forall|c: int|
            0 <= c < level.tiles@.len() ==> #[trigger] column_placed(grid.starts, 0, level, c),
        forall|i: int|
            0 <= i < grid.tiles.len() ==> #[trigger] tile_placed(
                grid.starts,
                grid.tiles,
                grid.sources,
                level,
                i,
            ),
        grid.child(x, y) is Some,
    ensures
        grid.child(x, y)->0 < grid.tiles.len(),
        grid.tiles[grid.child(x, y)->0 as int].x == x,
        grid.tiles[grid.child(x, y)->0 as int].y == y,
{
    let i = grid.starts[x as int] + y;
    let n = level.tiles@.len() as int;
    assert(column_placed(grid.starts, 0, level, x as int));
    lemma_starts_monotone(grid.starts, level, x + 1, n);
    assert(i < grid.tiles.len());
    assert(tile_placed(grid.starts, grid.tiles, grid.sources, level, i));
    let t = grid.tiles[i];
    assert(column_placed(grid.starts, 0, level, t.x as int));
    if t.x < x {
        lemma_starts_monotone(grid.starts, level, t.x + 1, x as int);
    } else if t.x > x {
        lemma_starts_monotone(grid.starts, level, x + 1, t.x as int);
    }
}

/// What the passes over the level's grid leave behind is a sound index that
/// holds the level's cells.
proof fn lemma_built_index(grid: Grid, level: &Level)
    requires
        grid.width == level.width,
        grid.height == level.height,
        grid.starts.len() == level.tiles@.len() + 1,
        grid.sources.len() == grid.tiles.len(),
        grid.starts.last() == grid.tiles.len(),
        grid.starts[0] == 0 || level.tiles@.len() == 0,
        forall|c: int|
            0 <= c < level.tiles@.len() ==> #[trigger] column_placed(
                grid.starts,
                grid.tiles.len() as int,
                level,
                c,
            ),
        forall|i: int|
            0 <= i < grid.tiles.len() ==> #[trigger] tile_placed(
                grid.starts,
                grid.tiles,
                grid.sources,
                level,
                i,
            ),
    ensures
        grid.index_wf(),
        grid.matches_level(level),
        forall|k: int| 0 <= k < grid.tiles.len() ==> !((#[trigger] grid.tiles[k]).wetness is Wet),
{
    assert forall|c: int| 0 <= c < level.tiles@.len() implies #[trigger] column_placed(
        grid.starts,
        0,
        level,
        c,
    ) by {
        assert(column_placed(grid.starts, grid.tiles.len() as int, level, c));
    }
    if grid.tiles.len() > 0 {
        assert(tile_placed(grid.starts, grid.tiles, grid.sources, level, 0));
    }
    assert forall|x: int| 0 <= x < grid.columns() implies #[trigger] grid.column_len(x) >= 0
        && grid.column_len(x) == level.tiles@[x]@.len() by {
        assert(column_placed(grid.starts, 0, level, x));
    }
    assert forall|i: int| 0 <= i < grid.tiles.len() implies grid.child(
        (#[trigger] grid.tiles[i]).x,
        grid.tiles[i].y,
    ) == Some(i as usize) && !(grid.tiles[i].wetness is Wet) by {
        assert(tile_placed(grid.starts, grid.tiles, grid.sources, level, i));
        assert(column_placed(grid.starts, 0, level, grid.tiles[i].x as int));
    }
    assert forall|x: usize, y: usize| (#[trigger] grid.child(x, y)) is Some implies {
        let i = grid.child(x, y)->0;
        &&& i < grid.tiles.len()
        &&& grid.tiles[i as int].x == x
        &&& grid.tiles[i as int].y == y
        &&& grid.tiles[i as int] == initial_tile(level.tiles@[x as int]@[y as int], x, y)
        &&& grid.sources[i as int] == initial_source(grid.tiles[i as int])
    } by {
        lemma_child_is_placed(grid, level, x, y);
        let i = grid.child(x, y)->0;
        assert(tile_placed(grid.starts, grid.tiles, grid.sources, level, i as int));
    }
}

} // verus!
