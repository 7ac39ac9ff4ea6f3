use crate::cells::grid_cells;
use crate::cells::lemma_grid_cells_len;
use crate::error::SimError;
use crate::life::Organism;
use crate::random::RandomSource;
use crate::render::background;
use crate::render::Color;
use vstd::prelude::*;
use vstd::set_lib::lemma_len_subset;

verus! {

/// One cell of the board. It holds at most one organism.
#[derive(Clone, Debug, PartialEq, Eq)]
pub struct Tile {
    pub organism: Option<Organism>,
}

impl Tile {
    /// A tile without an organism.
    pub fn new() -> (tile: Tile)
        ensures
            tile.organism is None,
    {
        Tile { organism: None }
    }

    /// Removes the organism, if there is one.
    pub fn clear(&mut self)
        ensures
            final(self).organism is None,
    {
        self.organism = None;
    }
}

/// What a board is, mathematically: its dimensions and the organisms on it,
/// keyed by the coordinate `(x, y)` of the tile each one occupies.
pub struct BoardView {
    pub width: nat,
    pub height: nat,
    pub cells: Map<(int, int), Organism>,
}

impl BoardView {
    /// Whether `(x, y)` names a tile of the board.
    pub open spec fn in_bounds(self, x: int, y: int) -> bool {
        0 <= x < self.width && 0 <= y < self.height
    }

    /// Number of tiles.
    pub open spec fn capacity(self) -> nat {
        self.width * self.height
    }

    /// The coordinates of the tiles that hold an organism.
    pub open spec fn occupied(self) -> Set<(int, int)> {
        self.cells.dom()
    }

    /// Number of organisms on the board.
    pub open spec fn population(self) -> nat {
        self.occupied().len()
    }

    /// Whether tile `(x, y)` exists and holds no organism.
    pub open spec fn is_free(self, x: int, y: int) -> bool {
        self.in_bounds(x, y) && !self.cells.contains_key((x, y))
    }

    /// Whether some tile holds no organism.
    pub open spec fn has_free_tile(self) -> bool {
        exists|x: int, y: int| #[trigger] self.is_free(x, y)
    }

    /// Every organism sits on a tile of the board and carries the coordinate
    /// of that tile.
    pub open spec fn wf(self) -> bool {
        forall|x: int, y: int| #[trigger]
            self.cells.contains_key((x, y)) ==> self.in_bounds(x, y) && self.cells[(x, y)].x == x
                && self.cells[(x, y)].y == y
    }

    /// Exactly `count` tiles are occupied, and every organism has a genome of
    /// `genome_size` genes.
    pub open spec fn is_population_of(self, count: nat, genome_size: nat) -> bool {
        &&& self.occupied().finite()
        &&& self.population() == count
        &&& forall|x: int, y: int| #[trigger]
            self.cells.contains_key((x, y)) ==> self.cells[(x, y)].genome@.len() == genome_size
    }

    /// The same board with `organism` on the tile it names, in place of
    /// whatever that tile held.
    pub open spec fn with_organism(self, organism: Organism) -> BoardView {
        BoardView {
            cells: self.cells.insert((organism.x as int, organism.y as int), organism),
            ..self
        }
    }

    /// The same board without any organism.
    pub open spec fn cleared(self) -> BoardView {
        BoardView { cells: Map::empty(), ..self }
    }

    /// The answer to a colour query at `(x, y)`: rejected outside the board,
    /// the organism's colour on an occupied tile, the background elsewhere.
    pub open spec fn color_at(self, x: int, y: int) -> Result<Color, SimError> {
        if !self.in_bounds(x, y) {
            Err(SimError::OutOfBounds)
        } else if self.cells.contains_key((x, y)) {
            Ok(self.cells[(x, y)].spec_color())
        } else {
            Ok(background())
        }
    }

    /// The organisms of a board occupy distinct tiles of it, so there are
    /// finitely many and no more than the board has tiles.
    pub proof fn lemma_population_bounded(self)
        requires
            self.wf(),
        ensures
            self.occupied().finite(),
            self.occupied().subset_of(grid_cells(self.width, self.height)),
            self.population() <= self.capacity(),
    {
        let all = grid_cells(self.width, self.height);
        lemma_grid_cells_len(self.width, self.height);
        assert forall|c: (int, int)| self.occupied().contains(c) implies all.contains(c) by {
            assert(self.cells.contains_key((c.0, c.1)));
        }
        lemma_len_subset(self.occupied(), all);
    }

    /// A board with fewer organisms than tiles has a tile that holds none.
    pub proof fn lemma_room_left(self)
        requires
            self.wf(),
            self.population() < self.capacity(),
        ensures
            self.has_free_tile(),
    {
        let all = grid_cells(self.width, self.height);
        self.lemma_population_bounded();
        lemma_grid_cells_len(self.width, self.height);
        if !self.has_free_tile() {
            assert forall|c: (int, int)| all.contains(c) implies self.occupied().contains(c) by {
                assert(!self.is_free(c.0, c.1));
            }
            assert(self.occupied() =~= all);
        }
    }

    /// On a board without organisms every tile shows the background colour.
    pub proof fn lemma_cleared_shows_background(self, x: int, y: int)
        requires
            self.in_bounds(x, y),
        ensures
            self.cleared().color_at(x, y) == Ok::<Color, SimError>(background()),
    {
    }

    /// Putting an organism on a free tile of the board adds exactly one to the
    /// population and keeps the board well formed.
    pub proof fn lemma_with_organism(self, organism: Organism)
        requires
            self.wf(),
            self.is_free(organism.x as int, organism.y as int),
        ensures
            self.with_organism(organism).wf(),
            self.with_organism(organism).population() == self.population() + 1,
    {
        self.lemma_population_bounded();
        let after = self.with_organism(organism);
        assert(after.occupied() =~= self.occupied().insert((organism.x as int, organism.y as int)));
    }
}

/// Whether `(x1, y1)` comes before `(x2, y2)` when the tiles are read row by
/// row, each row from left to right.
spec fn reads_before(x1: int, y1: int, x2: int, y2: int) -> bool {
    y1 < y2 || (y1 == y2 && x1 < x2)
}

/// Every row of `tiles` is `width` tiles long.
spec fn rectangular(tiles: Seq<Vec<Tile>>, width: nat) -> bool {
    forall|y: int| 0 <= y < tiles.len() ==> (#[trigger] tiles[y])@.len() == width
}

/// The organisms held by `tiles`, keyed by coordinate.
spec fn organisms_of(tiles: Seq<Vec<Tile>>, width: nat) -> Map<(int, int), Organism> {
    Map::new(
        |cell: (int, int)|
            0 <= cell.0 < width && 0 <= cell.1 < tiles.len()
                && tiles[cell.1]@[cell.0].organism is Some,
        |cell: (int, int)| tiles[cell.1]@[cell.0].organism->Some_0,
    )
}

/// The first `n` tiles of `row` hold no organism.
spec fn empty_before(row: Vec<Tile>, n: int) -> bool {
    forall|i: int| 0 <= i < n ==> (#[trigger] row@[i]).organism is None
}

/// `height` rows of `width` empty tiles.
fn empty_tiles(width: usize, height: usize) -> (tiles: Vec<Vec<Tile>>)
    ensures
        tiles@.len() == height,
        rectangular(tiles@, width as nat),
        organisms_of(tiles@, width as nat) == Map::<(int, int), Organism>::empty(),
{
    let mut tiles: Vec<Vec<Tile>> = Vec::new();
    let mut y: usize = 0;
    while y < height
        invariant
            y <= height,
            tiles@.len() == y,
            rectangular(tiles@, width as nat),
            forall|j: int| 0 <= j < y ==> empty_before(#[trigger] tiles@[j], width as int),
        decreases height - y,
    {
        let mut row: Vec<Tile> = Vec::new();
        let mut x: usize = 0;
        while x < width
            invariant
                x <= width,
                row@.len() == x,
                empty_before(row, x as int),
            decreases width - x,
        {
            row.push(Tile::new());
            x = x + 1;
        }
        tiles.push(row);
        y = y + 1;
    }
    assert(organisms_of(tiles@, width as nat) =~= Map::<(int, int), Organism>::empty());
    tiles
}

/// Empties every tile of a rectangular grid.
fn clear_tiles(tiles: &mut Vec<Vec<Tile>>, width: usize)
    requires
        rectangular(old(tiles)@, width as nat),
    ensures
        final(tiles)@.len() == old(tiles)@.len(),
        rectangular(final(tiles)@, width as nat),
        organisms_of(final(tiles)@, width as nat) == Map::<(int, int), Organism>::empty(),
{
    let height: usize = tiles.len();
    let mut y: usize = 0;
    while y < height
        invariant
            y <= height,
            height == tiles@.len(),
            rectangular(tiles@, width as nat),
            forall|j: int| 0 <= j < y ==> empty_before(#[trigger] tiles@[j], width as int),
        decreases height - y,
    {
        let mut x: usize = 0;
        while x < width
            invariant
                y < height,
                x <= width,
                height == tiles@.len(),
                rectangular(tiles@, width as nat),
                forall|j: int| 0 <= j < y ==> empty_before(#[trigger] tiles@[j], width as int),
                empty_before(tiles@[y as int], x as int),
            decreases width - x,
        {
            tiles[y][x].clear();
            x = x + 1;
        }
        y = y + 1;
    }
    assert(organisms_of(tiles@, width as nat) =~= Map::<(int, int), Organism>::empty());
}

/// Puts `organism` on the tile it names.
fn put_organism(tiles: &mut Vec<Vec<Tile>>, width: usize, organism: Organism)
    requires
        rectangular(old(tiles)@, width as nat),
        organism.x < width,
        organism.y < old(tiles)@.len(),
    ensures
        final(tiles)@.len() == old(tiles)@.len(),
        rectangular(final(tiles)@, width as nat),
        organisms_of(final(tiles)@, width as nat) == organisms_of(
            old(tiles)@,
            width as nat,
        ).insert((organism.x as int, organism.y as int), organism),
{
    let x: usize = organism.x;
    let y: usize = organism.y;
    tiles[y][x].organism = Some(organism);
    assert(organisms_of(tiles@, width as nat) =~= organisms_of(old(tiles)@, width as nat).insert(
        (x as int, y as int),
        organism,
    ));
}

/// How many random draws per tile of the board a single placement may spend
/// before it stops drawing.
pub const DRAWS_PER_TILE: usize = 16;

/// The number of random draws a single placement may spend on a board of the
/// given dimensions.
fn retry_budget(width: usize, height: usize) -> (budget: usize)
    ensures
        budget == draw_budget(width as nat, height as nat),
{
    assert(width * height > usize::MAX ==> width * height * DRAWS_PER_TILE > usize::MAX)
        by (nonlinear_arith);
    match width.checked_mul(height) {
        Some(tiles) => match tiles.checked_mul(DRAWS_PER_TILE) {
            Some(budget) => budget,
            None => usize::MAX,
        },
        None => usize::MAX,
    }
}

/// [`DRAWS_PER_TILE`] draws for each tile of a `width` by `height` board, or
/// the largest `usize` where that many do not fit in one.
pub open spec fn draw_budget(width: nat, height: nat) -> int {
    if width * height * DRAWS_PER_TILE <= usize::MAX {
        width * height * DRAWS_PER_TILE
    } else {
        usize::MAX as int
    }
}

/// A fixed-size rectangular grid of tiles, `height` rows of `width` tiles.
/// The tile at `(x, y)` is tile `x` of row `y`.
pub struct Board {
    width: usize,
    tiles: Vec<Vec<Tile>>,
}

impl View for Board {
    type V = BoardView;

    closed spec fn view(&self) -> BoardView {
        BoardView {
            width: self.width as nat,
            height: self.tiles@.len(),
            cells: organisms_of(self.tiles@, self.width as nat),
        }
    }
}

impl Board {
    /// The representation invariant: every row is `width` tiles long, and an
    /// organism on tile `(x, y)` carries the coordinate `(x, y)`.
    #[verifier::type_invariant]
    pub closed spec fn wf(&self) -> bool {
        &&& rectangular(self.tiles@, self.width as nat)
        &&& self@.wf()
    }

    /// The view of a well-formed board is well formed.
    pub proof fn lemma_view_wf(&self)
        requires
            self.wf(),
        ensures
            self@.wf(),
    {
    }

    /// A board of `width` by `height` empty tiles. Either dimension may be
    /// zero; such a board has no tiles.
    pub fn new(width: usize, height: usize) -> (board: Board)
        ensures
            board@ == (BoardView {
                width: width as nat,
                height: height as nat,
                cells: Map::empty(),
            }),
    {
        Board { width, tiles: empty_tiles(width, height) }
    }

    /// Number of tiles in each row.
    pub fn width(&self) -> (width: usize)
        ensures
            width == self@.width,
    {
        self.width
    }

    /// Number of rows.
    pub fn height(&self) -> (height: usize)
        ensures
            height == self@.height,
    {
        self.tiles.len()
    }

    /// The organism on tile `(x, y)`; `None` for an empty tile and for a
    /// coordinate outside the board.
    pub fn organism_at(&self, x: usize, y: usize) -> (found: Option<&Organism>)
        ensures
            self@.cells.contains_key((x as int, y as int)) ==> found == Some(
                &self@.cells[(x as int, y as int)],
            ),
            !self@.cells.contains_key((x as int, y as int)) ==> found is None,
    {
        proof {
            use_type_invariant(self);
        }
        if x < self.width && y < self.tiles.len() {
            self.tiles[y][x].organism.as_ref()
        } else {
            None
        }
    }

    /// Empties every tile. The dimensions stay as they are.
    pub fn clear(&mut self)
        ensures
            final(self)@ == old(self)@.cleared(),
    {
        proof {
            use_type_invariant(&*self);
        }
        let mut tiles: Vec<Vec<Tile>> = Vec::new();
        std::mem::swap(&mut tiles, &mut self.tiles);
        clear_tiles(&mut tiles, self.width);
        self.tiles = tiles;
    }

    /// Puts `organism` on the tile `(organism.x, organism.y)`, replacing the
    /// organism that tile held, if any. An organism whose coordinate lies
    /// outside the board is rejected and the board is left as it was.
    pub fn place(&mut self, organism: Organism) -> (result: Result<(), SimError>)
        ensures
            final(self)@.wf(),
            !old(self)@.in_bounds(organism.x as int, organism.y as int) ==> (result matches Err(
                SimError::OutOfBounds,
            )),
            !old(self)@.in_bounds(organism.x as int, organism.y as int) ==> *final(self) == *old(
                self
            ),
            old(self)@.in_bounds(organism.x as int, organism.y as int) ==> result is Ok,
            old(self)@.in_bounds(organism.x as int, organism.y as int) ==> final(self)@ == old(
                self
            )@.with_organism(organism),
    {
        proof {
            use_type_invariant(&*self);
        }
        if organism.x >= self.width || organism.y >= self.tiles.len() {
            return Err(SimError::OutOfBounds);
        }
        let mut tiles: Vec<Vec<Tile>> = Vec::new();
        std::mem::swap(&mut tiles, &mut self.tiles);
        put_organism(&mut tiles, self.width, organism);
        proof {
            let before = old(self)@;
            let after = before.with_organism(organism);
            assert(organisms_of(tiles@, self.width as nat) == after.cells);
            assert forall|x: int, y: int| #[trigger] after.cells.contains_key((x, y)) implies {
                &&& after.in_bounds(x, y)
                &&& after.cells[(x, y)].x == x
                &&& after.cells[(x, y)].y == y
            } by {
                if x != organism.x || y != organism.y {
                    assert(before.cells.contains_key((x, y)));
                }
            }
        }
        self.tiles = tiles;
        Ok(())
    }

    /// Whether the board has at least `count` tiles.
    pub fn has_room_for(&self, count: usize) -> (fits: bool)
        ensures
            fits == (count <= self@.capacity()),
    {
        match self.width.checked_mul(self.tiles.len()) {
            Some(capacity) => count <= capacity,
            None => true,
        }
    }

    /// The first free tile in reading order.
    fn first_free_tile(&self) -> (cell: (usize, usize))
        requires
            self@.has_free_tile(),
        ensures
            self@.is_free(cell.0 as int, cell.1 as int),
            forall|x: int, y: int|
                self@.in_bounds(x, y) && reads_before(x, y, cell.0 as int, cell.1 as int)
                    ==> #[trigger] self@.cells.contains_key((x, y)),
    {
        proof {
            use_type_invariant(self);
        }
        let ghost free: (int, int) = choose|free: (int, int)| self@.is_free(free.0, free.1);
        let height: usize = self.tiles.len();
        let mut x: usize = 0;
        let mut y: usize = 0;
        while self.tiles[y][x].organism.is_some()
            invariant
                rectangular(self.tiles@, self.width as nat),
                height == self.tiles@.len(),
                self@.is_free(free.0, free.1),
                self@.in_bounds(x as int, y as int),
                !reads_before(free.0, free.1, x as int, y as int),
                forall|i: int, j: int|
                    self@.in_bounds(i, j) && reads_before(i, j, x as int, y as int)
                        ==> #[trigger] self@.cells.contains_key((i, j)),
            decreases free.1 - y, self.width - x,
        {
            assert(self@.cells.contains_key((x as int, y as int)));
            if x + 1 < self.width {
                x = x + 1;
            } else {
                x = 0;
                y = y + 1;
            }
        }
        (x, y)
    }

    /// A free tile chosen at random: coordinates are drawn from `rng` until
    /// one names a free tile. Should the draws keep hitting occupied tiles
    /// for longer than the retry budget allows, the first free tile in
    /// reading order is taken, so that the search always ends.
    fn random_free_tile(&self, rng: &mut RandomSource) -> (cell: (usize, usize))
        requires
            self@.has_free_tile(),
        ensures
            self@.is_free(cell.0 as int, cell.1 as int),
    {
        proof {
            use_type_invariant(self);
        }
        let height: usize = self.tiles.len();
        let mut attempts: usize = retry_budget(self.width, height);
        while attempts > 0
            invariant
                rectangular(self.tiles@, self.width as nat),
                height == self.tiles@.len(),
                self@.has_free_tile(),
            decreases attempts,
        {
            let x: usize = rng.below(self.width);
            let y: usize = rng.below(height);
            if self.tiles[y][x].organism.is_none() {
                return (x, y);
            }
            attempts = attempts - 1;
        }
        self.first_free_tile()
    }

    /// Empties the board and then puts `count` new organisms on distinct
    /// tiles chosen at random, each with a genome of `genome_size` genes
    /// drawn from `rng`.
    ///
    /// The request is checked before anything changes: a `count` above the
    /// number of tiles is rejected and leaves the board exactly as it was.
    ///
    /// Each tile is chosen by drawing a coordinate and drawing again while
    /// the tile drawn is taken. A placement that has used up its
    /// [`DRAWS_PER_TILE`] draws per tile of the board takes the first free
    /// tile instead, so the call always returns. What is promised holds for
    /// every stream of random numbers; no distribution over the possible
    /// placements is promised.
    pub fn populate_with(
        &mut self,
        count: usize,
        genome_size: usize,
        rng: &mut RandomSource,
    ) -> (result: Result<(), SimError>)
        ensures
            final(self)@.wf(),
            final(self)@.width == old(self)@.width,
            final(self)@.height == old(self)@.height,
            count > old(self)@.capacity() ==> (result matches Err(SimError::Capacity)),
            count > old(self)@.capacity() ==> *final(self) == *old(self),
            count <= old(self)@.capacity() ==> result is Ok,
            count <= old(self)@.capacity() ==> final(self)@.is_population_of(
                count as nat,
                genome_size as nat,
            ),
    {
        proof {
            use_type_invariant(&*self);
        }
        if !self.has_room_for(count) {
            return Err(SimError::Capacity);
        }
        self.clear();
        let mut placed: usize = 0;
        while placed < count
            invariant
                placed <= count,
                count <= self@.capacity(),
                self@.width == old(self)@.width,
                self@.height == old(self)@.height,
                self@.wf(),
                self@.is_population_of(placed as nat, genome_size as nat),
            decreases count - placed,
        {
            proof {
                self@.lemma_room_left();
            }
            let cell = self.random_free_tile(rng);
            let organism = Organism::new_with(cell.0, cell.1, genome_size, rng);
            proof {
                self@.lemma_with_organism(organism);
            }
            let _ = self.place(organism);
            placed = placed + 1;
        }
        Ok(())
    }

    /// Like [`Board::populate_with`], with a source seeded by the operating
    /// system.
    pub fn populate_with_random_organisms(
        &mut self,
        count: usize,
        genome_size: usize,
    ) -> (result: Result<(), SimError>)
        ensures
            final(self)@.wf(),
            final(self)@.width == old(self)@.width,
            final(self)@.height == old(self)@.height,
            count > old(self)@.capacity() ==> (result matches Err(SimError::Capacity)),
            count > old(self)@.capacity() ==> *final(self) == *old(self),
            count <= old(self)@.capacity() ==> result is Ok,
            count <= old(self)@.capacity() ==> final(self)@.is_population_of(
                count as nat,
                genome_size as nat,
            ),
    {
        let mut rng = RandomSource::from_entropy();
        self.populate_with(count, genome_size, &mut rng)
    }

    /// The colour to draw for tile `(x, y)`.
    pub fn color_at(&self, x: usize, y: usize) -> (result: Result<Color, SimError>)
        ensures
            result == self@.color_at(x as int, y as int),
    {
        proof {
            use_type_invariant(self);
        }
        if x >= self.width || y >= self.tiles.len() {
            return Err(SimError::OutOfBounds);
        }
        match &self.tiles[y][x].organism {
            Some(organism) => Ok(organism.color()),
            None => Ok(Color::background()),
        }
    }
}

} // verus!
