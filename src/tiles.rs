//! The tile grid: a rectangle of cells whose border is wall and whose
//! interior is floor, stored row by row.

use vstd::prelude::*;

verus! {

/// The kind of a grid cell.
#[derive(Clone, Copy, Debug, PartialEq, Eq, Structural)]
pub enum TileType {
    Floor,
    Wall,
}

/// One cell of the grid: its column and row, and its kind.
#[derive(Clone, Copy, Debug)]
pub struct Tile {
    pub position: (u32, u32),
    pub ty: TileType,
}

/// Why a map could not be built.
#[derive(Clone, Copy, Debug, PartialEq, Eq, Structural)]
pub enum MapError {
    /// The width or the height was zero.
    InvalidDimensions,
}

/// Whether cell `(x, y)` lies on the outer ring of a `width` by `height` grid.
pub open spec fn on_border(width: int, height: int, x: int, y: int) -> bool {
    x == 0 || y == 0 || x == width - 1 || y == height - 1
}

/// The kind of cell `(x, y)`: wall on the border, floor inside.
pub open spec fn cell_type(width: int, height: int, x: int, y: int) -> TileType {
    if on_border(width, height, x, y) {
        TileType::Wall
    } else {
        TileType::Floor
    }
}

/// The cells of a freshly built `width` by `height` map, row by row.
pub open spec fn grid(width: nat, height: nat) -> Seq<TileType> {
    Seq::new(width * height, |i: int| cell_type(width as int, height as int, i % width as int, i / width as int))
}

/// The tile at row-major index `i` of a map of the given width whose cells are `cells`.
pub open spec fn tile_at(width: nat, cells: Seq<TileType>, i: int) -> Tile {
    Tile {
        position: ((i % width as int) as u32, (i / width as int) as u32),
        ty: cells[i],
    }
}

/// The tiles of a map, in row-major order, from index `start` on.
pub open spec fn tiles_from(width: nat, cells: Seq<TileType>, start: int) -> Seq<Tile> {
    Seq::new((cells.len() - start) as nat, |j: int| tile_at(width, cells, start + j))
}

/// Walking a freshly built `width` by `height` map from its first tile yields
/// exactly `width * height` tiles, and a tile is a wall if and only if it lies
/// on the border; every other tile is floor.
pub proof fn lemma_fresh_map_tiles(width: nat, height: nat)
    requires
        width >= 1,
        height >= 1,
    ensures
        tiles_from(width, grid(width, height), 0).len() == width * height,
        forall|i: int|
            0 <= i < width * height ==> {
                let t = #[trigger] tiles_from(width, grid(width, height), 0)[i];
                &&& (t.ty == TileType::Wall <==> on_border(width as int, height as int, i % width as int, i / width as int))
                &&& (t.ty == TileType::Floor <==> !on_border(width as int, height as int, i % width as int, i / width as int))
            },
{
}

/// A rectangular grid of tiles, fixed once built.
pub struct TileMap {
    tiles: Vec<TileType>,
    width: usize,
    height: usize,
}

impl TileMap {
    pub closed spec fn width_spec(&self) -> nat {
        self.width as nat
    }

    pub closed spec fn height_spec(&self) -> nat {
        self.height as nat
    }

    /// The cells, row by row.
    pub closed spec fn cells(&self) -> Seq<TileType> {
        self.tiles@
    }

    /// Both sides are positive and the cells are those that `new` lays out.
    pub open spec fn wf(&self) -> bool {
        &&& self.width_spec() > 0
        &&& self.height_spec() > 0
        &&& self.cells() == grid(self.width_spec(), self.height_spec())
    }

    /// A cursor over the tiles in row-major order, starting at the first.
    pub fn iter(&self) -> (r: TileMapIter<'_>)
        ensures
            r.source() == *self,
            r.index() == 0,
    {
        TileMapIter { current_idx: 0, tile_map: self }
    }

    /// A ten by ten map.
    pub fn default() -> (r: Self)
        ensures
            r.wf(),
            r.width_spec() == 10,
            r.height_spec() == 10,
    {
        let width: usize = 10;
        let height: usize = 10;
        match TileMap::new(width, height) {
            Ok(m) => m,
            Err(_) => {
                proof {
                    assert(false);
                }
                TileMap { tiles: Vec::new(), width, height }
            }
        }
    }

    /// Width and height, in tiles.
    pub fn dimensions(&self) -> (r: (usize, usize))
        ensures
            r.0 as nat == self.width_spec(),
            r.1 as nat == self.height_spec(),
    {
        (self.width, self.height)
    }

    /// A `width` by `height` map with walls on its border and floor inside.
    pub fn new(width: usize, height: usize) -> (r: Result<Self, MapError>)
        requires
            width * height <= usize::MAX,
        ensures
            r is Err <==> (width == 0 || height == 0),
            r is Err ==> r == Err::<Self, MapError>(MapError::InvalidDimensions),
            r matches Ok(m) ==> {
                &&& m.wf()
                &&& m.width_spec() == width
                &&& m.height_spec() == height
            },
    {
        if width == 0 || height == 0 {
            return Err(MapError::InvalidDimensions);
        }
        let n: usize = width * height;
        let mut tiles: Vec<TileType> = Vec::with_capacity(n);
        let mut i: usize = 0;
        while i < n
            invariant
                n == width * height,
                width > 0,
                height > 0,
                i <= n,
                tiles@.len() == i,
                forall|j: int|
                    0 <= j < i ==> #[trigger] tiles@[j] == cell_type(
                        width as int,
                        height as int,
                        j % width as int,
                        j / width as int,
                    ),
            decreases n - i,
        {
            let x: usize = i % width;
            let y: usize = i / width;
            if x == 0 || y == 0 || x == width - 1 || y == height - 1 {
                tiles.push(TileType::Wall);
            } else {
                tiles.push(TileType::Floor);
            }
            i = i + 1;
        }
        let m = TileMap { tiles, width, height };
        assert(m.cells() =~= grid(width as nat, height as nat));
        Ok(m)
    }
}

/// A cursor over a map's tiles in row-major order: the column varies fastest.
pub struct TileMapIter<'a> {
    current_idx: usize,
    tile_map: &'a TileMap,
}

impl<'a> TileMapIter<'a> {
    /// The map walked over.
    pub closed spec fn source(&self) -> TileMap {
        *self.tile_map
    }

    /// The index of the next tile handed out.
    pub closed spec fn index(&self) -> nat {
        self.current_idx as nat
    }

    /// The tiles still to come.
    pub open spec fn remaining(&self) -> Seq<Tile> {
        tiles_from(self.source().width_spec(), self.source().cells(), self.index() as int)
    }

    /// The next tile, or `None` once every tile has been handed out.
    pub fn next(&mut self) -> (r: Option<Tile>)
        requires
            old(self).source().wf(),
        ensures
            final(self).source() == old(self).source(),
            old(self).index() < old(self).source().cells().len() ==> {
                &&& r == Some(
                    tile_at(old(self).source().width_spec(), old(self).source().cells(), old(self).index() as int),
                )
                &&& final(self).index() == old(self).index() + 1
            },
            old(self).index() >= old(self).source().cells().len() ==> {
                &&& r is None
                &&& final(self).index() == old(self).index()
            },
    {
        if self.current_idx >= self.tile_map.tiles.len() {
            return None;
        }
        let ty = self.tile_map.tiles[self.current_idx];
        let x: usize = self.current_idx % self.tile_map.width;
        let y: usize = self.current_idx / self.tile_map.width;
        self.current_idx = self.current_idx + 1;
        Some(Tile { position: (x as u32, y as u32), ty })
    }

    /// Every tile not handed out yet, in order.
    pub fn collect(self) -> (r: Vec<Tile>)
        requires
            self.source().wf(),
            self.index() <= self.source().cells().len(),
        ensures
            r@ == self.remaining(),
    {
        let mut it = self;
        let mut out: Vec<Tile> = Vec::new();
        let ghost start = self.index() as int;
        let ghost w = self.source().width_spec();
        let ghost cells = self.source().cells();
        while it.current_idx < it.tile_map.tiles.len()
            invariant
                it.source() == self.source(),
                it.source().wf(),
                start <= it.index() <= cells.len(),
                w == it.source().width_spec(),
                cells == it.source().cells(),
                out@.len() == it.index() - start,
                forall|j: int| 0 <= j < out@.len() ==> #[trigger] out@[j] == tile_at(w, cells, start + j),
            decreases cells.len() - it.index(),
        {
            let t = it.next();
            match t {
                Some(tile) => out.push(tile),
                None => {},
            }
        }
        assert(out@ =~= tiles_from(w, cells, start));
        out
    }
}

} // verus!
