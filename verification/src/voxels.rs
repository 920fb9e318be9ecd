//! The voxel grid and its derived render geometry.

use vstd::prelude::*;

use crate::engine::{Color, Instance, Vertex};

verus! {

/// Side length of the default chunk.
pub const CHUNK_SIZE: usize = 4;

/// The largest side length a chunk may have; keeps every flattened index and
/// cell count comfortably inside `usize` on any platform.
pub const MAX_SIDE: usize = 1024;

/// The closed set of voxel materials.
#[derive(Clone, Copy, Debug, PartialEq, Eq, Structural)]
pub enum BlockType {
    Empty,
    Solid,
    Red,
    Green,
    Blue,
    Yellow,
}

/// The fixed display color of each material.
pub open spec fn color_spec(b: BlockType) -> Color {
    match b {
        BlockType::Red => Color { r: 1, g: 0, b: 0 },
        BlockType::Blue => Color { r: 0, g: 1, b: 0 },
        BlockType::Green => Color { r: 0, g: 0, b: 1 },
        BlockType::Yellow => Color { r: 1, g: 1, b: 0 },
        BlockType::Solid => Color { r: 1, g: 0, b: 1 },
        BlockType::Empty => Color { r: 0, g: 0, b: 0 },
    }
}

/// Decoding of a uniform draw: indices `0` through `5` name the six
/// materials in order; anything larger falls back to `Empty`.
pub open spec fn block_from_index(index: u8) -> BlockType {
    if index == 0 {
        BlockType::Empty
    } else if index == 1 {
        BlockType::Solid
    } else if index == 2 {
        BlockType::Red
    } else if index == 3 {
        BlockType::Green
    } else if index == 4 {
        BlockType::Blue
    } else if index == 5 {
        BlockType::Yellow
    } else {
        BlockType::Empty
    }
}

impl Default for BlockType {
    /// Uninitialized cells hold `Empty`.
    fn default() -> (b: Self)
        ensures
            b == BlockType::Empty,
    {
        BlockType::Empty
    }
}

impl BlockType {
    /// Returns the material's fixed display color.
    pub fn get_color(&self) -> (c: Color)
        ensures
            c == color_spec(*self),
    {
        match self {
            BlockType::Red => Color { r: 1, g: 0, b: 0 },
            BlockType::Blue => Color { r: 0, g: 1, b: 0 },
            BlockType::Green => Color { r: 0, g: 0, b: 1 },
            BlockType::Yellow => Color { r: 1, g: 1, b: 0 },
            BlockType::Solid => Color { r: 1, g: 0, b: 1 },
            BlockType::Empty => Color { r: 0, g: 0, b: 0 },
        }
    }

    /// Decodes a drawn index into a material.
    pub fn from_index(index: u8) -> (b: BlockType)
        ensures
            b == block_from_index(index),
    {
        if index == 0 {
            BlockType::Empty
        } else if index == 1 {
            BlockType::Solid
        } else if index == 2 {
            BlockType::Red
        } else if index == 3 {
            BlockType::Green
        } else if index == 4 {
            BlockType::Blue
        } else if index == 5 {
            BlockType::Yellow
        } else {
            BlockType::Empty
        }
    }
}

} // verus!

verus! {

/// Row-major flattening of grid coordinates, `z` slowest: the cell `(x, y, z)`
/// of a grid of side `n` lives at index `x + n * (y + n * z)`.
pub open spec fn flat_spec(n: int, x: int, y: int, z: int) -> int {
    x + n * (y + n * z)
}

/// Number of cells in a cubic grid of side `n`.
pub open spec fn cells(n: int) -> int {
    n * n * n
}

/// A flattened index is in range exactly when its coordinates are.
pub proof fn lemma_flat_bounds(n: int, x: int, y: int, z: int)
    by (nonlinear_arith)
    requires
        0 <= x < n,
        0 <= y < n,
        0 <= z < n,
    ensures
        0 <= flat_spec(n, x, y, z) < cells(n),
{
}

/// Distinct coordinates flatten to distinct indices.
pub proof fn lemma_flat_ne(n: int, x1: int, y1: int, z1: int, x2: int, y2: int, z2: int)
    by (nonlinear_arith)
    requires
        0 <= x1 < n,
        0 <= y1 < n,
        0 <= z1 < n,
        0 <= x2 < n,
        0 <= y2 < n,
        0 <= z2 < n,
        !(x1 == x2 && y1 == y2 && z1 == z2),
    ensures
        flat_spec(n, x1, y1, z1) != flat_spec(n, x2, y2, z2),
{
}

/// Computes the flattened index of a cell.
pub fn flat_index(side: usize, x: usize, y: usize, z: usize) -> (i: usize)
    requires
        1 <= side <= MAX_SIDE,
        x < side,
        y < side,
        z < side,
    ensures
        i == flat_spec(side as int, x as int, y as int, z as int),
        i < cells(side as int),
{
    proof {
        lemma_flat_bounds(side as int, x as int, y as int, z as int);
        assert(side * z <= 1024 * 1024 && side * (y + side * z) <= 1024 * (1024 + 1024 * 1024))
            by (nonlinear_arith)
            requires 1 <= side <= 1024, z < side, y < side;
    }
    x + side * (y + side * z)
}

/// Computes the cell count of a cubic grid.
pub fn cell_count(side: usize) -> (c: usize)
    requires
        1 <= side <= MAX_SIDE,
    ensures
        c == cells(side as int),
{
    proof {
        assert(side * side <= MAX_SIDE * MAX_SIDE
            && side * side * side <= MAX_SIDE * MAX_SIDE * MAX_SIDE) by (nonlinear_arith)
            requires 1 <= side <= MAX_SIDE;
    }
    side * side * side
}

} // verus!

verus! {

/// The fixed fill color of the shared vertices (per-cell color comes from
/// the instance records).
pub open spec fn vertex_fill_color() -> Color {
    Color { r: 1, g: 0, b: 0 }
}

/// A corner of the shared unit cube.
pub open spec fn corner(x: int, y: int, z: int) -> Vertex {
    Vertex { x: x as i8, y: y as i8, z: z as i8, color: vertex_fill_color() }
}

/// The 24 vertices of the shared unit cube: four per face, six faces, in the
/// order top, bottom, right, left, front, back.
pub open spec fn shared_vertex_table() -> Seq<Vertex> {
    seq![
        corner(-1, -1, 1), corner(1, -1, 1), corner(1, 1, 1), corner(-1, 1, 1),
        corner(-1, 1, -1), corner(1, 1, -1), corner(1, -1, -1), corner(-1, -1, -1),
        corner(1, -1, -1), corner(1, 1, -1), corner(1, 1, 1), corner(1, -1, 1),
        corner(-1, -1, 1), corner(-1, 1, 1), corner(-1, 1, -1), corner(-1, -1, -1),
        corner(1, 1, -1), corner(-1, 1, -1), corner(-1, 1, 1), corner(1, 1, 1),
        corner(1, -1, 1), corner(-1, -1, 1), corner(-1, -1, -1), corner(1, -1, -1),
    ]
}

/// The 36 indices of the shared unit cube: two triangles per face.
pub open spec fn shared_index_table() -> Seq<u16> {
    seq![
        0, 1, 2, 2, 3, 0,
        4, 5, 6, 6, 7, 4,
        8, 9, 10, 10, 11, 8,
        12, 13, 14, 14, 15, 12,
        16, 17, 18, 18, 19, 16,
        20, 21, 22, 22, 23, 20,
    ]
}

/// Builds one shared-cube corner.
fn mk_corner(x: i8, y: i8, z: i8) -> (v: Vertex)
    ensures
        v == corner(x as int, y as int, z as int),
{
    Vertex { x, y, z, color: Color { r: 1, g: 0, b: 0 } }
}

/// Builds the shared vertex array.
fn build_vertex_table() -> (v: Vec<Vertex>)
    ensures
        v@ == shared_vertex_table(),
{
    let mut v: Vec<Vertex> = Vec::new();
    v.push(mk_corner(-1, -1, 1));
    v.push(mk_corner(1, -1, 1));
    v.push(mk_corner(1, 1, 1));
    v.push(mk_corner(-1, 1, 1));
    v.push(mk_corner(-1, 1, -1));
    v.push(mk_corner(1, 1, -1));
    v.push(mk_corner(1, -1, -1));
    v.push(mk_corner(-1, -1, -1));
    v.push(mk_corner(1, -1, -1));
    v.push(mk_corner(1, 1, -1));
    v.push(mk_corner(1, 1, 1));
    v.push(mk_corner(1, -1, 1));
    v.push(mk_corner(-1, -1, 1));
    v.push(mk_corner(-1, 1, 1));
    v.push(mk_corner(-1, 1, -1));
    v.push(mk_corner(-1, -1, -1));
    v.push(mk_corner(1, 1, -1));
    v.push(mk_corner(-1, 1, -1));
    v.push(mk_corner(-1, 1, 1));
    v.push(mk_corner(1, 1, 1));
    v.push(mk_corner(1, -1, 1));
    v.push(mk_corner(-1, -1, 1));
    v.push(mk_corner(-1, -1, -1));
    v.push(mk_corner(1, -1, -1));
    assert(v@ =~= shared_vertex_table());
    v
}

/// Builds the shared index array.
fn build_index_table() -> (v: Vec<u16>)
    ensures
        v@ == shared_index_table(),
{
    let mut v: Vec<u16> = Vec::new();
    v.push(0); v.push(1); v.push(2); v.push(2); v.push(3); v.push(0);
    v.push(4); v.push(5); v.push(6); v.push(6); v.push(7); v.push(4);
    v.push(8); v.push(9); v.push(10); v.push(10); v.push(11); v.push(8);
    v.push(12); v.push(13); v.push(14); v.push(14); v.push(15); v.push(12);
    v.push(16); v.push(17); v.push(18); v.push(18); v.push(19); v.push(16);
    v.push(20); v.push(21); v.push(22); v.push(22); v.push(23); v.push(20);
    assert(v@ =~= shared_index_table());
    v
}

} // verus!

verus! {

/// The render record a rebuild writes for the cell `(x, y, z)` holding `b`.
pub open spec fn instance_record(x: int, y: int, z: int, b: BlockType) -> Instance {
    Instance { x: x as u32, y: y as u32, z: z as u32, color: color_spec(b) }
}

/// A cubic voxel grid with its derived render geometry.
///
/// The grid is the source of truth; `vertices`, `indices` and `instances`
/// are a cache, rebuilt from the grid whenever `changed` is set. `changed`
/// starts set so that the first render always builds the geometry.
pub struct Chunk {
    /// Side length of the cube, in cells.
    pub side: usize,
    /// The cells, flattened: `(x, y, z)` lives at `x + side * (y + side * z)`.
    pub blk: Vec<BlockType>,
    /// Dirty flag: true when the cached geometry is stale.
    pub changed: bool,
    /// Cached shared vertex array (24 entries, grid-independent).
    pub vertices: Vec<Vertex>,
    /// Cached shared index array (36 entries, grid-independent).
    pub indices: Vec<u16>,
    /// Cached per-cell render records, addressed by flattened index.
    pub instances: Vec<Instance>,
}

impl Chunk {
    /// The coordinates lie inside the grid.
    pub open spec fn valid_coord(self, x: int, y: int, z: int) -> bool {
        0 <= x < self.side && 0 <= y < self.side && 0 <= z < self.side
    }

    /// The block occupying the cell `(x, y, z)`.
    pub open spec fn block_at(self, x: int, y: int, z: int) -> BlockType {
        self.blk@[flat_spec(self.side as int, x, y, z)]
    }

    /// The cached render record of the cell `(x, y, z)`.
    pub open spec fn instance_at(self, x: int, y: int, z: int) -> Instance {
        self.instances@[flat_spec(self.side as int, x, y, z)]
    }

    /// The cached record of the cell `(x, y, z)` carries the cell's
    /// coordinates and the color of its block.
    pub open spec fn coherent_at(self, x: int, y: int, z: int) -> bool {
        self.instance_at(x, y, z) == instance_record(x, y, z, self.block_at(x, y, z))
    }

    /// The cached geometry reflects the current grid contents: the shared
    /// tables are in place and every cell's instance record matches its block.
    pub open spec fn cache_coherent(self) -> bool {
        &&& self.vertices@ == shared_vertex_table()
        &&& self.indices@ == shared_index_table()
        &&& forall|x: int, y: int, z: int|
            self.valid_coord(x, y, z) ==> #[trigger] self.coherent_at(x, y, z)
    }

    /// Well-formedness: the arrays have their fixed sizes, and a chunk that
    /// is not marked dirty has a coherent cache.
    pub open spec fn wf(self) -> bool {
        &&& 1 <= self.side <= MAX_SIDE
        &&& self.blk@.len() == cells(self.side as int)
        &&& self.vertices@.len() == 24
        &&& self.indices@.len() == 36
        &&& self.instances@.len() == cells(self.side as int)
        &&& (!self.changed ==> self.cache_coherent())
    }

    /// Creates an all-`Empty` grid of the given side length, marked dirty so
    /// that the first render builds its geometry.
    pub fn with_side(side: usize) -> (c: Chunk)
        requires
            1 <= side <= MAX_SIDE,
        ensures
            c.wf(),
            c.side == side,
            c.changed,
            forall|x: int, y: int, z: int|
                c.valid_coord(x, y, z) ==> #[trigger] c.block_at(x, y, z) == BlockType::Empty,
    {
        let total = cell_count(side);
        let mut blk: Vec<BlockType> = Vec::new();
        let mut i: usize = 0;
        while i < total
            invariant
                i <= total,
                blk@.len() == i,
                forall|j: int| 0 <= j < i ==> #[trigger] blk@[j] == BlockType::Empty,
            decreases total - i,
        {
            blk.push(BlockType::Empty);
            i = i + 1;
        }
        let mut instances: Vec<Instance> = Vec::new();
        let mut k: usize = 0;
        while k < total
            invariant
                k <= total,
                instances@.len() == k,
            decreases total - k,
        {
            instances.push(Instance { x: 0, y: 0, z: 0, color: Color { r: 0, g: 0, b: 0 } });
            k = k + 1;
        }
        let c = Chunk {
            side,
            blk,
            changed: true,
            vertices: build_vertex_table(),
            indices: build_index_table(),
            instances,
        };
        proof {
            assert forall|x: int, y: int, z: int|
                c.valid_coord(x, y, z) implies #[trigger] c.block_at(x, y, z) == BlockType::Empty by {
                lemma_flat_bounds(side as int, x, y, z);
            }
        }
        c
    }

    /// Creates the default chunk: an all-`Empty` grid of side `CHUNK_SIZE`.
    pub fn new() -> (c: Chunk)
        ensures
            c.wf(),
            c.side == CHUNK_SIZE,
            c.changed,
            forall|x: int, y: int, z: int|
                c.valid_coord(x, y, z) ==> #[trigger] c.block_at(x, y, z) == BlockType::Empty,
    {
        Chunk::with_side(CHUNK_SIZE)
    }

    /// Reads the block occupying the cell `(x, y, z)`.
    pub fn get(&self, x: usize, y: usize, z: usize) -> (b: BlockType)
        requires
            self.wf(),
            x < self.side,
            y < self.side,
            z < self.side,
        ensures
            b == self.block_at(x as int, y as int, z as int),
    {
        let i = flat_index(self.side, x, y, z);
        self.blk[i]
    }

    /// Overwrites the cell `(x, y, z)` and marks the grid dirty; every write
    /// counts as a change, even one that stores the value already there.
    pub fn set(&mut self, x: usize, y: usize, z: usize, block_type: BlockType)
        requires
            old(self).wf(),
            x < old(self).side,
            y < old(self).side,
            z < old(self).side,
        ensures
            final(self).wf(),
            final(self).side == old(self).side,
            final(self).changed,
            final(self).block_at(x as int, y as int, z as int) == block_type,
            forall|a: int, b: int, c: int|
                old(self).valid_coord(a, b, c) && !(a == x && b == y && c == z)
                    ==> #[trigger] final(self).block_at(a, b, c) == old(self).block_at(a, b, c),
            final(self).blk@ == old(self).blk@.update(
                flat_spec(old(self).side as int, x as int, y as int, z as int),
                block_type,
            ),
            final(self).vertices@ == old(self).vertices@,
            final(self).indices@ == old(self).indices@,
            final(self).instances@ == old(self).instances@,
    {
        let i = flat_index(self.side, x, y, z);
        self.blk.set(i, block_type);
        self.changed = true;
        proof {
            let n = self.side as int;
            assert forall|a: int, b: int, c: int|
                old(self).valid_coord(a, b, c) && !(a == x && b == y && c == z)
                    implies #[trigger] self.block_at(a, b, c) == old(self).block_at(a, b, c) by {
                lemma_flat_bounds(n, a, b, c);
                lemma_flat_ne(n, a, b, c, x as int, y as int, z as int);
            }
        }
    }

    /// Reads the dirty flag.
    pub fn is_dirty(&self) -> (d: bool)
        ensures
            d == self.changed,
    {
        self.changed
    }
}

} // verus!

verus! {

/// Scan order of the rebuild: `(a, b, c)` was processed before the scan
/// reached `(x, y, z)` (`x` outer, `y` middle, `z` inner).
pub open spec fn scan_before(a: int, b: int, c: int, x: int, y: int, z: int) -> bool {
    a < x || (a == x && b < y) || (a == x && b == y && c < z)
}

impl Chunk {
    /// Rebuilds the cached geometry from the current grid contents and clears
    /// the dirty flag: the shared tables are written anew, and every cell
    /// gets an instance record carrying its coordinates and its block's color.
    pub fn update(&mut self)
        requires
            old(self).wf(),
        ensures
            final(self).wf(),
            final(self).side == old(self).side,
            final(self).blk@ == old(self).blk@,
            !final(self).changed,
            final(self).cache_coherent(),
    {
        self.vertices = build_vertex_table();
        self.indices = build_index_table();
        self.changed = false;
        let n = self.side;
        let mut x: usize = 0;
        while x < n
            invariant
                x <= n,
                n == self.side,
                1 <= n <= MAX_SIDE,
                !self.changed,
                self.blk@ == old(self).blk@,
                self.blk@.len() == cells(n as int),
                self.instances@.len() == cells(n as int),
                self.vertices@ == shared_vertex_table(),
                self.indices@ == shared_index_table(),
                forall|a: int, b: int, c: int|
                    self.valid_coord(a, b, c) && scan_before(a, b, c, x as int, 0, 0)
                        ==> #[trigger] self.coherent_at(a, b, c),
            decreases n - x,
        {
            let mut y: usize = 0;
            while y < n
                invariant
                    x < n,
                    y <= n,
                    n == self.side,
                    1 <= n <= MAX_SIDE,
                    !self.changed,
                    self.blk@ == old(self).blk@,
                    self.blk@.len() == cells(n as int),
                    self.instances@.len() == cells(n as int),
                    self.vertices@ == shared_vertex_table(),
                    self.indices@ == shared_index_table(),
                    forall|a: int, b: int, c: int|
                        self.valid_coord(a, b, c) && scan_before(a, b, c, x as int, y as int, 0)
                            ==> #[trigger] self.coherent_at(a, b, c),
                decreases n - y,
            {
                let mut z: usize = 0;
                while z < n
                    invariant
                        x < n,
                        y < n,
                        z <= n,
                        n == self.side,
                        1 <= n <= MAX_SIDE,
                        !self.changed,
                        self.blk@ == old(self).blk@,
                        self.blk@.len() == cells(n as int),
                        self.instances@.len() == cells(n as int),
                        self.vertices@ == shared_vertex_table(),
                        self.indices@ == shared_index_table(),
                        forall|a: int, b: int, c: int|
                            self.valid_coord(a, b, c) && scan_before(a, b, c, x as int, y as int, z as int)
                                ==> #[trigger] self.coherent_at(a, b, c),
                    decreases n - z,
                {
                    let ghost prev = *self;
                    let i = flat_index(n, x, y, z);
                    let block_type = self.blk[i];
                    let rec = Instance {
                        x: x as u32,
                        y: y as u32,
                        z: z as u32,
                        color: block_type.get_color(),
                    };
                    self.instances.set(i, rec);
                    proof {
                        assert forall|a: int, b: int, c: int|
                            self.valid_coord(a, b, c)
                                && scan_before(a, b, c, x as int, y as int, z as int + 1)
                                implies #[trigger] self.coherent_at(a, b, c) by {
                            lemma_flat_bounds(n as int, a, b, c);
                            if a == x && b == y && c == z {
                                assert(self.instance_at(a, b, c) == rec);
                            } else {
                                lemma_flat_ne(n as int, a, b, c, x as int, y as int, z as int);
                                assert(prev.coherent_at(a, b, c));
                            }
                        }
                    }
                    z = z + 1;
                }
                y = y + 1;
            }
            x = x + 1;
        }
        proof {
            assert(shared_vertex_table().len() == 24);
            assert(shared_index_table().len() == 36);
            assert forall|a: int, b: int, c: int|
                self.valid_coord(a, b, c) implies #[trigger] self.coherent_at(a, b, c) by {
                assert(scan_before(a, b, c, self.side as int, 0, 0));
            }
        }
    }

    /// Renders the chunk: rebuilds the cached geometry if the grid changed
    /// since the last rebuild, otherwise leaves the cache untouched. Returns
    /// whether a rebuild ran, so callers can hand fresh buffers to the GPU
    /// upload collaborator only when there is something new.
    pub fn render(&mut self) -> (rebuilt: bool)
        requires
            old(self).wf(),
        ensures
            final(self).wf(),
            rebuilt == old(self).changed,
            !final(self).changed,
            final(self).side == old(self).side,
            final(self).blk@ == old(self).blk@,
            final(self).cache_coherent(),
            !old(self).changed ==> *final(self) == *old(self),
    {
        if self.changed {
            self.update();
            true
        } else {
            false
        }
    }
}

} // verus!

verus! {

impl BlockType {
    /// Draws one of the six materials from the generator. Every outcome is
    /// the decoding of some in-range draw; which one depends on the
    /// generator's state.
    pub fn random(rng: &mut rand::rngs::StdRng) -> (b: BlockType)
        ensures
            exists|index: u8| index <= 5 && b == block_from_index(index),
    {
        let index = crate::rng::draw_block_index(rng);
        BlockType::from_index(index)
    }
}

impl Chunk {
    /// Overwrites every cell with a material drawn from the generator and
    /// marks the grid dirty. Used to seed demo and test chunks with varied
    /// content; the geometry cache is untouched until the next rebuild.
    pub fn fill_random(&mut self, rng: &mut rand::rngs::StdRng)
        requires
            old(self).wf(),
        ensures
            final(self).wf(),
            final(self).side == old(self).side,
            final(self).changed,
            final(self).vertices@ == old(self).vertices@,
            final(self).indices@ == old(self).indices@,
            final(self).instances@ == old(self).instances@,
    {
        let total = self.blk.len();
        let mut i: usize = 0;
        while i < total
            invariant
                i <= total,
                self.blk@.len() == total,
                self.side == old(self).side,
                self.changed == old(self).changed,
                self.vertices@ == old(self).vertices@,
                self.indices@ == old(self).indices@,
                self.instances@ == old(self).instances@,
                1 <= self.side <= MAX_SIDE,
                total == cells(self.side as int),
            decreases total - i,
        {
            let b = BlockType::random(rng);
            self.blk.set(i, b);
            i = i + 1;
        }
        self.changed = true;
    }
}

} // verus!

verus! {

impl Default for Chunk {
    /// The default chunk: an all-`Empty` grid of side `CHUNK_SIZE`, marked
    /// dirty so that the first render builds its geometry.
    fn default() -> (c: Self)
        ensures
            c.wf(),
            c.side == CHUNK_SIZE,
            c.changed,
            forall|x: int, y: int, z: int|
                c.valid_coord(x, y, z) ==> #[trigger] c.block_at(x, y, z) == BlockType::Empty,
    {
        Chunk::new()
    }
}

/// Law: the shared geometry always has its fixed shape — 24 vertices and 36
/// indices — and there is one instance record per cell, whatever the grid
/// holds and whether or not it is dirty.
pub proof fn lemma_shared_geometry_shape(c: Chunk)
    requires
        c.wf(),
    ensures
        c.vertices@.len() == 24,
        c.indices@.len() == 36,
        c.instances@.len() == cells(c.side as int),
{
}

/// Law: in a chunk whose cache is current (not marked dirty), the instance
/// at flattened index `x + side * (y + side * z)` carries the translation
/// `(x, y, z)` and the color of the block occupying that cell, for every
/// in-range coordinate; and the shared tables are in place.
pub proof fn lemma_clean_cache_contents(c: Chunk)
    requires
        c.wf(),
        !c.changed,
    ensures
        c.vertices@ == shared_vertex_table(),
        c.indices@ == shared_index_table(),
        forall|x: int, y: int, z: int|
            c.valid_coord(x, y, z)
                ==> #[trigger] c.instances@[flat_spec(c.side as int, x, y, z)]
                    == instance_record(x, y, z, c.block_at(x, y, z)),
{
    assert forall|x: int, y: int, z: int|
        c.valid_coord(x, y, z)
            implies #[trigger] c.instances@[flat_spec(c.side as int, x, y, z)]
                == instance_record(x, y, z, c.block_at(x, y, z)) by {
        assert(c.coherent_at(x, y, z));
    }
}

/// Law: writing a block and then reading the same cell yields the written
/// block, and no other cell changes — stated over the flattened grid view
/// that `set` and `get` are specified with.
pub proof fn lemma_write_then_read(grid: Seq<BlockType>, n: int, x: int, y: int, z: int, t: BlockType)
    requires
        1 <= n,
        grid.len() == cells(n),
        0 <= x < n,
        0 <= y < n,
        0 <= z < n,
    ensures
        grid.update(flat_spec(n, x, y, z), t)[flat_spec(n, x, y, z)] == t,
        forall|a: int, b: int, c: int|
            0 <= a < n && 0 <= b < n && 0 <= c < n && !(a == x && b == y && c == z)
                ==> grid.update(flat_spec(n, x, y, z), t)[#[trigger] flat_spec(n, a, b, c)]
                    == grid[flat_spec(n, a, b, c)],
{
    lemma_flat_bounds(n, x, y, z);
    assert forall|a: int, b: int, c: int|
        0 <= a < n && 0 <= b < n && 0 <= c < n && !(a == x && b == y && c == z)
            implies grid.update(flat_spec(n, x, y, z), t)[#[trigger] flat_spec(n, a, b, c)]
                == grid[flat_spec(n, a, b, c)] by {
        lemma_flat_bounds(n, a, b, c);
        lemma_flat_ne(n, a, b, c, x, y, z);
    }
}

} // verus!
