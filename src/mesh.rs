//! Mesh and instance data for the renderer. Vertex attributes are fixed-point
//! integers: `UNITS` steps make one world unit, one full color channel or one
//! texture span. The renderer scales them when it fills its buffers.

use vstd::prelude::*;
use crate::tiles::{tile_at, Tile, TileMap, TileType};

verus! {

/// Fixed-point steps per unit.
pub const UNITS: i32 = 1000;

/// One corner of a mesh.
#[derive(Clone, Copy, Debug)]
pub struct Vertex {
    pub position: (i32, i32),
    pub color: (i32, i32, i32),
    pub tex_coord: (i32, i32),
}

/// Three corners.
pub type Polygon = [Vertex; 3];

pub open spec fn vertex(position: (i32, i32), color: (i32, i32, i32), tex_coord: (i32, i32)) -> Vertex {
    Vertex { position, color, tex_coord }
}

/// The triangle shown before any inversion.
pub open spec fn triangle_spec() -> Seq<Vertex> {
    seq![
        vertex(((-750) as i32, (-750) as i32), (1000, 0, 0), (0, 1000)),
        vertex((750, (-750) as i32), (0, 1000, 0), (0, 1000)),
        vertex((0, 750), (0, 0, 1000), (0, 1000)),
    ]
}

/// The quad, corners in order top left, bottom left, bottom right, top right;
/// texture corners follow the quad's corners.
pub open spec fn quad_spec() -> Seq<Vertex> {
    seq![
        vertex(((-500) as i32, 500), (1000, 0, 0), (0, 0)),
        vertex(((-500) as i32, (-500) as i32), (0, 0, 1000), (0, 1000)),
        vertex((500, (-500) as i32), (0, 0, 1000), (1000, 1000)),
        vertex((500, 500), (0, 1000, 0), (1000, 0)),
    ]
}

/// The quad's two triangles, as indices into its corners.
pub open spec fn quad_index_spec() -> Seq<u32> {
    seq![0, 1, 2, 3, 2, 0]
}

/// A vertex mirrored across the horizontal axis.
pub open spec fn flip_y(v: Vertex) -> Vertex {
    Vertex { position: (v.position.0, (-v.position.1) as i32), color: v.color, tex_coord: v.tex_coord }
}

/// Whether every corner's Y can be negated within `i32`.
pub open spec fn flippable(m: Seq<Vertex>) -> bool {
    forall|i: int| 0 <= i < m.len() ==> #[trigger] m[i].position.1 > i32::MIN
}

/// A triangle mirrored across the horizontal axis, with its first and last
/// corners exchanged so that its winding, and so the face that culling keeps,
/// stays the same.
pub open spec fn inverted(m: Seq<Vertex>) -> Seq<Vertex> {
    seq![flip_y(m[2]), flip_y(m[1]), flip_y(m[0])]
}

/// The triangle shown before any inversion.
pub fn triangle() -> (r: Polygon)
    ensures
        r@ == triangle_spec(),
{
    let r = [
        Vertex { position: (-750, -750), color: (1000, 0, 0), tex_coord: (0, 1000) },
        Vertex { position: (750, -750), color: (0, 1000, 0), tex_coord: (0, 1000) },
        Vertex { position: (0, 750), color: (0, 0, 1000), tex_coord: (0, 1000) },
    ];
    assert(r@ =~= triangle_spec());
    r
}

/// The quad that every tile is drawn with.
pub fn quad() -> (r: [Vertex; 4])
    ensures
        r@ == quad_spec(),
{
    let r = [
        Vertex { position: (-500, 500), color: (1000, 0, 0), tex_coord: (0, 0) },
        Vertex { position: (-500, -500), color: (0, 0, 1000), tex_coord: (0, 1000) },
        Vertex { position: (500, -500), color: (0, 0, 1000), tex_coord: (1000, 1000) },
        Vertex { position: (500, 500), color: (0, 1000, 0), tex_coord: (1000, 0) },
    ];
    assert(r@ =~= quad_spec());
    r
}

/// The quad's index list: two triangles over its four corners.
pub fn quad_index() -> (r: [u32; 6])
    ensures
        r@ == quad_index_spec(),
{
    let r: [u32; 6] = [0, 1, 2, 3, 2, 0];
    assert(r@ =~= quad_index_spec());
    r
}

/// Mirrors a triangle across the horizontal axis and exchanges its first and
/// last corners.
pub fn invert_triangle(mesh: Polygon) -> (r: Polygon)
    requires
        flippable(mesh@),
    ensures
        r@ == inverted(mesh@),
{
    let mut flipped = mesh;
    let mut i: usize = 0;
    while i < 3
        invariant
            i <= 3,
            flippable(mesh@),
            forall|j: int| 0 <= j < i ==> #[trigger] flipped@[j] == flip_y(mesh@[j]),
            forall|j: int| i <= j < 3 ==> #[trigger] flipped@[j] == mesh@[j],
        decreases 3 - i,
    {
        let v = flipped[i];
        assert(v.position.1 > i32::MIN);
        flipped[i] = Vertex { position: (v.position.0, -v.position.1), color: v.color, tex_coord: v.tex_coord };
        i = i + 1;
    }
    let r = [flipped[2], flipped[1], flipped[0]];
    assert(r@ =~= inverted(mesh@));
    r
}

/// Inverting twice gives back the original triangle, corner order and Y signs alike.
pub proof fn lemma_invert_twice(m: Seq<Vertex>)
    requires
        m.len() == 3,
        flippable(m),
    ensures
        flippable(inverted(m)),
        inverted(inverted(m)) == m,
{
    assert(inverted(inverted(m)) =~= m);
}

/// The triangle mesh and whether it is shown inverted.
pub struct TriangleMesh {
    mesh: Polygon,
    is_inverted: bool,
}

impl TriangleMesh {
    pub closed spec fn vertices_spec(&self) -> Seq<Vertex> {
        self.mesh@
    }

    pub closed spec fn is_inverted_spec(&self) -> bool {
        self.is_inverted
    }

    /// The corners always match the flag.
    pub open spec fn wf(&self) -> bool {
        self.vertices_spec() == if self.is_inverted_spec() {
            inverted(triangle_spec())
        } else {
            triangle_spec()
        }
    }

    /// The triangle, not inverted.
    pub fn new() -> (r: Self)
        ensures
            r.wf(),
            !r.is_inverted_spec(),
            r.vertices_spec() == triangle_spec(),
    {
        TriangleMesh { mesh: triangle(), is_inverted: false }
    }

    pub fn is_inverted(&self) -> (r: bool)
        ensures
            r == self.is_inverted_spec(),
    {
        self.is_inverted
    }

    /// The corners as they are to be uploaded.
    pub fn vertices(&self) -> (r: Polygon)
        ensures
            r@ == self.vertices_spec(),
    {
        self.mesh
    }

    /// Toggles the inversion: the corners are inverted and the flag flips.
    /// The caller rebuilds its vertex buffer from `vertices` before drawing.
    pub fn invert(&mut self)
        requires
            old(self).wf(),
        ensures
            final(self).wf(),
            final(self).is_inverted_spec() == !old(self).is_inverted_spec(),
            final(self).vertices_spec() == inverted(old(self).vertices_spec()),
    {
        proof {
            lemma_invert_twice(triangle_spec());
        }
        self.mesh = invert_triangle(self.mesh);
        self.is_inverted = !self.is_inverted;
    }

    /// Brings the mesh in line with the wanted inversion; returns whether it
    /// changed, in which case the caller rebuilds its vertex buffer.
    pub fn match_inversion(&mut self, inverted: bool) -> (changed: bool)
        requires
            old(self).wf(),
        ensures
            final(self).wf(),
            final(self).is_inverted_spec() == inverted,
            changed == (old(self).is_inverted_spec() != inverted),
            !changed ==> final(self).vertices_spec() == old(self).vertices_spec(),
    {
        if self.is_inverted != inverted {
            self.invert();
            true
        } else {
            false
        }
    }
}

/// Per-tile instance data: the tile's column and row, and which texture it shows.
#[derive(Clone, Copy, Debug)]
pub struct TileInstance {
    pub position: (u32, u32),
    pub texture_index: u32,
}

/// The texture of each kind of tile: floor 0, wall 1.
pub open spec fn texture_of(t: TileType) -> u32 {
    match t {
        TileType::Floor => 0,
        TileType::Wall => 1,
    }
}

pub open spec fn instance_of(t: Tile) -> TileInstance {
    TileInstance { position: t.position, texture_index: texture_of(t.ty) }
}

impl TileInstance {
    /// One instance per tile of the map, in the map's order.
    pub fn from_tile_map(tile_map: &TileMap) -> (r: Vec<TileInstance>)
        requires
            tile_map.wf(),
        ensures
            r@.len() == tile_map.cells().len(),
            forall|i: int|
                0 <= i < r@.len() ==> #[trigger] r@[i] == instance_of(
                    tile_at(tile_map.width_spec(), tile_map.cells(), i),
                ),
    {
        let mut it = tile_map.iter();
        let mut out: Vec<TileInstance> = Vec::new();
        let ghost n = tile_map.cells().len();
        loop
            invariant
                it.source() == *tile_map,
                tile_map.wf(),
                n == tile_map.cells().len(),
                it.index() == out@.len(),
                out@.len() <= n,
                forall|i: int|
                    0 <= i < out@.len() ==> #[trigger] out@[i] == instance_of(
                        tile_at(tile_map.width_spec(), tile_map.cells(), i),
                    ),
            ensures
                out@.len() == n,
                forall|i: int|
                    0 <= i < out@.len() ==> #[trigger] out@[i] == instance_of(
                        tile_at(tile_map.width_spec(), tile_map.cells(), i),
                    ),
            decreases n - out@.len(),
        {
            match it.next() {
                Some(tile) => {
                    let texture_index: u32 = match tile.ty {
                        TileType::Floor => 0,
                        TileType::Wall => 1,
                    };
                    out.push(TileInstance { position: tile.position, texture_index });
                },
                None => {
                    break;
                },
            }
        }
        out
    }
}

} // verus!
