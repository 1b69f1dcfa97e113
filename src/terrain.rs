//! Heightmap meshing: the order of lattice vertices and the triangles that
//! cover the lattice. Heights are sampled per lattice point by the caller.
use vstd::prelude::*;

verus! {

/// Lattice rows of the scene's terrain.
pub const ROWS: usize = 100;

/// Lattice columns of the scene's terrain.
pub const COLS: usize = 100;

/// Largest lattice whose vertex indices all fit in a `u32`.
pub const MAX_VERTICES: u64 = 0x1_0000_0000;

/// Number of cells along a side of `n` lattice points.
pub open spec fn cells(n: int) -> int {
    if n > 0 {
        n - 1
    } else {
        0
    }
}

/// Row-major vertex index of lattice point (`r`, `c`).
pub open spec fn lattice_index(r: int, c: int, cols: int) -> int {
    r * cols + c
}

/// Index `t` (0 to 5) of the two triangles of cell (`i`, `j`): with
/// `v0 = index(i, j)`, `v1 = v0 + 1`, `v2 = index(i + 1, j)`, `v3 = v2 + 1`,
/// the triangles are (v0, v1, v2) and (v2, v1, v3).
pub open spec fn corner(i: int, j: int, t: int, cols: int) -> int {
    let v0 = lattice_index(i, j, cols);
    let v2 = lattice_index(i + 1, j, cols);
    if t == 0 {
        v0
    } else if t == 1 || t == 4 {
        v0 + 1
    } else if t == 2 || t == 3 {
        v2
    } else {
        v2 + 1
    }
}

/// The lattice points of a `rows` by `cols` grid, as (row, column) pairs in
/// row-major order: point `k` is (k / cols, k % cols), so point (r, c) is
/// vertex `r * cols + c`.
pub fn lattice_points(rows: usize, cols: usize) -> (r: Vec<(u32, u32)>)
    requires
        rows * cols <= MAX_VERTICES,
    ensures
        r@.len() == rows * cols,
        forall|k: int|
            0 <= k < r@.len() ==> #[trigger] r@[k] == ((k / cols as int) as u32, (k % cols as int) as u32),
{
    let total: u64 = rows as u64 * cols as u64;
    let mut r: Vec<(u32, u32)> = Vec::new();
    let mut k: u64 = 0;
    while k < total
        invariant
            total == rows * cols,
            total <= MAX_VERTICES,
            k <= total,
            r@.len() == k,
            forall|k2: int|
                0 <= k2 < k ==> #[trigger] r@[k2] == ((k2 / cols as int) as u32, (k2 % cols as int) as u32),
        decreases total - k,
    {
        assert(cols > 0) by (nonlinear_arith)
            requires
                k < total,
                total == rows * cols,
        ;
        let row: u64 = k / cols as u64;
        let col: u64 = k % cols as u64;
        assert(row < 0x1_0000_0000) by (nonlinear_arith)
            requires
                row == k as int / cols as int,
                k < 0x1_0000_0000,
                cols > 0,
        ;
        r.push((row as u32, col as u32));
        k = k + 1;
    }
    r
}

/// Bounds on the corners of a cell inside the lattice.
proof fn lemma_corner_bound(i: int, j: int, t: int, rows: int, cols: int)
    requires
        0 <= i < cells(rows),
        0 <= j < cells(cols),
        0 <= t < 6,
    ensures
        0 <= corner(i, j, t, cols) < rows * cols,
{
    assert((i + 1) * cols + j + 1 <= rows * cols - 1) by (nonlinear_arith)
        requires
            0 <= i <= rows - 2,
            0 <= j <= cols - 2,
    ;
    assert(0 <= i * cols) by (nonlinear_arith)
        requires
            0 <= i,
            0 <= cols,
    ;
    assert((i + 1) * cols == i * cols + cols) by (nonlinear_arith);
}

/// Triangle indices covering a `rows` by `cols` lattice: each cell, in
/// row-major cell order, contributes the six indices `corner(i, j, 0..6)`.
/// Only the `(rows - 1) * (cols - 1)` cells produce triangles; the last row
/// and column of points open no cell.
pub fn terrain_indices(rows: usize, cols: usize) -> (r: Vec<u32>)
    requires
        rows * cols <= MAX_VERTICES,
    ensures
        r@.len() == 6 * cells(rows as int) * cells(cols as int),
        forall|c: int, t: int|
            0 <= c < cells(rows as int) * cells(cols as int) && 0 <= t < 6 ==> #[trigger] r@[6 * c + t]
                == corner(c / cells(cols as int), c % cells(cols as int), t, cols as int),
        forall|k: int| 0 <= k < r@.len() ==> #[trigger] r@[k] < rows * cols,
{
    let cr: u64 = if rows > 0 { rows as u64 - 1 } else { 0 };
    let cc: u64 = if cols > 0 { cols as u64 - 1 } else { 0 };
    assert(cr * cc <= rows * cols) by (nonlinear_arith)
        requires
            0 <= cr <= rows,
            0 <= cc <= cols,
    ;
    let total: u64 = cr * cc;
    let w: u64 = cols as u64;
    let mut r: Vec<u32> = Vec::new();
    let mut c: u64 = 0;
    while c < total
        invariant
            cr == cells(rows as int),
            cc == cells(cols as int),
            w == cols,
            total == cr * cc,
            rows * cols <= MAX_VERTICES,
            c <= total,
            r@.len() == 6 * c,
            forall|c2: int, t: int|
                0 <= c2 < c && 0 <= t < 6 ==> #[trigger] r@[6 * c2 + t] == corner(c2 / cc as int, c2 % cc as int, t, cols as int),
            forall|k: int| 0 <= k < r@.len() ==> #[trigger] r@[k] < rows * cols,
        decreases total - c,
    {
        assert(cc > 0) by (nonlinear_arith)
            requires
                c < total,
                total == cr * cc,
        ;
        let i: u64 = c / cc;
        let j: u64 = c % cc;
        assert(i < cr) by (nonlinear_arith)
            requires
                i == c as int / cc as int,
                c < cr * cc,
                cc > 0,
        ;
        proof {
            lemma_corner_bound(i as int, j as int, 0, rows as int, cols as int);
            lemma_corner_bound(i as int, j as int, 5, rows as int, cols as int);
        }
        assert(i * w + j + w == lattice_index(i + 1, j as int, cols as int)) by (nonlinear_arith)
            requires
                w == cols,
        ;
        let v0: u64 = i * w + j;
        let v1: u64 = v0 + 1;
        let v2: u64 = v0 + w;
        let v3: u64 = v2 + 1;
        let ghost before = r@;
        r.push(v0 as u32);
        r.push(v1 as u32);
        r.push(v2 as u32);
        r.push(v2 as u32);
        r.push(v1 as u32);
        r.push(v3 as u32);
        assert forall|c2: int, t: int|
            0 <= c2 < c + 1 && 0 <= t < 6 implies #[trigger] r@[6 * c2 + t] == corner(
                c2 / cc as int,
                c2 % cc as int,
                t,
                cols as int,
            ) by {
            if c2 < c {
                assert(r@[6 * c2 + t] == before[6 * c2 + t]);
            }
        }
        c = c + 1;
    }
    assert(6 * c == 6 * cr * cc) by (nonlinear_arith)
        requires
            c == cr * cc,
    ;
    r
}

/// A meshed lattice: one vertex per lattice point, as (row, column), in
/// row-major order, and the triangle indices over those vertices.
pub struct TerrainLattice {
    pub points: Vec<(u32, u32)>,
    pub indices: Vec<u32>,
}

impl TerrainLattice {
    /// Meshes a `rows` by `cols` lattice: `rows * cols` vertices and
    /// `6 * (rows - 1) * (cols - 1)` indices, every one naming a vertex.
    pub fn new(rows: usize, cols: usize) -> (r: TerrainLattice)
        requires
            rows * cols <= MAX_VERTICES,
        ensures
            r.points@.len() == rows * cols,
            forall|k: int|
                0 <= k < r.points@.len() ==> #[trigger] r.points@[k] == ((k / cols as int) as u32, (k
                    % cols as int) as u32),
            r.indices@.len() == 6 * cells(rows as int) * cells(cols as int),
            rows >= 1 && cols >= 1 ==> r.indices@.len() == 6 * (rows - 1) * (cols - 1),
            r.indices@.len() % 3 == 0,
            forall|c: int, t: int|
                0 <= c < cells(rows as int) * cells(cols as int) && 0 <= t < 6 ==> #[trigger] r.indices@[6
                    * c + t] == corner(c / cells(cols as int), c % cells(cols as int), t, cols as int),
            forall|k: int| 0 <= k < r.indices@.len() ==> #[trigger] r.indices@[k] < r.points@.len(),
    {
        let points = lattice_points(rows, cols);
        let indices = terrain_indices(rows, cols);
        let ghost n = cells(rows as int) * cells(cols as int);
        assert(6 * cells(rows as int) * cells(cols as int) == 3 * (2 * n)) by (nonlinear_arith)
            requires
                n == cells(rows as int) * cells(cols as int),
        ;
        proof {
            vstd::arithmetic::div_mod::lemma_mod_multiples_basic(2 * n, 3);
        }
        TerrainLattice { points, indices }
    }
}

} // verus!
