//! The ground that the creatures walk on: a square grid of terrain.

use vstd::prelude::*;

verus! {

/// The number of cells along each side of the grid.
pub const MAP_SIZE: usize = 16;

/// What a cell of the grid is made of.
#[derive(PartialEq, Eq, Clone, Copy, Debug, Structural)]
pub enum Terrain {
    Wall,
    Floor,
    Door { vertical: bool, open: bool },
}

/// Whether the cell `(x, y)` lies on the rim of the grid.
pub open spec fn on_rim(x: int, y: int) -> bool {
    x == 0 || y == 0 || x == MAP_SIZE - 1 || y == MAP_SIZE - 1
}

/// Whether the cell `(x, y)` is among those of the rim that have a wall once
/// the first `done` cells of each side were walled.
spec fn walled_so_far(x: int, y: int, done: int) -> bool {
    (x < done && (y == 0 || y == MAP_SIZE - 1)) || (y < done && (x == 0 || x == MAP_SIZE - 1))
}

/// The state of the game: the grid, one piece of terrain for each cell.
pub struct GameState {
    map: [[Terrain; MAP_SIZE]; MAP_SIZE],
}

impl GameState {
    /// What the cell `(x, y)` is made of.
    pub closed spec fn cell(&self, x: int, y: int) -> Terrain {
        self.map@[x]@[y]
    }

    /// What the cell `(x, y)` is made of; `None` for a cell outside the grid.
    pub fn terrain(&self, x: usize, y: usize) -> (terrain: Option<Terrain>)
        ensures
            terrain == (if x < MAP_SIZE && y < MAP_SIZE {
                Some(self.cell(x as int, y as int))
            } else {
                None
            }),
    {
        if x < MAP_SIZE && y < MAP_SIZE {
            Some(self.map[x][y])
        } else {
            None
        }
    }

    /// Makes the cell `(x, y)` be of `terrain` and leaves the others as they
    /// are. Says whether there is such a cell: outside the grid nothing changes.
    pub fn put(&mut self, x: usize, y: usize, terrain: Terrain) -> (inside: bool)
        ensures
            inside == (x < MAP_SIZE && y < MAP_SIZE),
            forall|a: int, b: int|
                0 <= a < MAP_SIZE && 0 <= b < MAP_SIZE ==> #[trigger] final(self).cell(a, b) == (
                if a == x && b == y {
                    terrain
                } else {
                    old(self).cell(a, b)
                }),
    {
        if x < MAP_SIZE && y < MAP_SIZE {
            self.map[x][y] = terrain;
            true
        } else {
            false
        }
    }

    /// Puts a wall on every cell of the rim and leaves the others as they are.
    pub fn wall_in(&mut self)
        ensures
            forall|x: int, y: int|
                0 <= x < MAP_SIZE && 0 <= y < MAP_SIZE ==> #[trigger] final(self).cell(x, y) == (
                if on_rim(x, y) {
                    Terrain::Wall
                } else {
                    old(self).cell(x, y)
                }),
    {
        let mut i: usize = 0;
        while i < MAP_SIZE
            invariant
                i <= MAP_SIZE,
                forall|x: int, y: int|
                    0 <= x < MAP_SIZE && 0 <= y < MAP_SIZE ==> #[trigger] self.cell(x, y) == (
                    if walled_so_far(x, y, i as int) {
                        Terrain::Wall
                    } else {
                        old(self).cell(x, y)
                    }),
            decreases MAP_SIZE - i,
        {
            self.put(i, 0, Terrain::Wall);
            self.put(i, MAP_SIZE - 1, Terrain::Wall);
            self.put(0, i, Terrain::Wall);
            self.put(MAP_SIZE - 1, i, Terrain::Wall);
            i = i + 1;
        }
    }
}

/// A grid of nothing but floor.
pub fn mkstate() -> (state: GameState)
    ensures
        forall|x: int, y: int|
            0 <= x < MAP_SIZE && 0 <= y < MAP_SIZE ==> #[trigger] state.cell(x, y)
                == Terrain::Floor,
{
    GameState { map: [[Terrain::Floor; MAP_SIZE]; MAP_SIZE] }
}

} // verus!
