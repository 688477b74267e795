//! Index topology of the generated meshes. A grid patch and a lathe
//! (surface of revolution) share their vertex positions between neighboring
//! cells; what is generated here is the triangle index list — two triangles
//! per cell, the lathe's last column wrapping around to the first — with
//! every index proved to address a vertex that exists. Vertex positions are
//! trigonometric and belong to the backend layer.

use vstd::prelude::*;

verus! {

/// Vertices of a grid patch `w` by `h` cells.
pub open spec fn grid_vertex_count(w: int, h: int) -> int {
    (w + 1) * (h + 1)
}

/// Vertices of a lathe `w` columns around with `h` rings of cells.
pub open spec fn lathe_vertex_count(w: int, h: int) -> int {
    w * (h + 1)
}

/// Every value of `s` addresses one of `n` vertices.
pub open spec fn all_in_range(s: Seq<i32>, n: int) -> bool {
    forall|i: int| 0 <= i < s.len() ==> 0 <= (#[trigger] s[i] as int) && (s[i] as int) < n
}

/// The six indices of one grid cell: two triangles over the quad with
/// corners at columns `x`, `x + 1` and rows `y`, `y + 1` of a grid that is
/// `w + 1` vertices wide.
pub open spec fn grid_cell_indices(w: int, x: int, y: int) -> Seq<int> {
    let first = y * (w + 1) + x;
    let second = first + 1;
    let third = first + (w + 1);
    let fourth = second + (w + 1);
    seq![first, second, third, third, fourth, second]
}

/// The first `k` cells' indices, cells taken row by row.
pub open spec fn grid_indices_spec(w: int, k: int) -> Seq<int>
    decreases k,
{
    if k <= 0 {
        Seq::empty()
    } else {
        grid_indices_spec(w, k - 1) + grid_cell_indices(w, (k - 1) % w, (k - 1) / w)
    }
}

/// The six indices of one lathe cell: as a grid cell over a grid `w`
/// vertices around, but the column after the last wraps to the first.
pub open spec fn lathe_cell_indices(w: int, x: int, y: int) -> Seq<int> {
    let x2 = if x + 1 == w {
        0int
    } else {
        x + 1
    };
    seq![y * w + x, y * w + x2, (y + 1) * w + x, (y + 1) * w + x, (y + 1) * w + x2, y * w + x2]
}

/// The first `k` lathe cells' indices, cells taken ring by ring.
pub open spec fn lathe_indices_spec(w: int, k: int) -> Seq<int>
    decreases k,
{
    if k <= 0 {
        Seq::empty()
    } else {
        lathe_indices_spec(w, k - 1) + lathe_cell_indices(w, (k - 1) % w, (k - 1) / w)
    }
}

/// Triangle indices of a grid patch of `width_components` by
/// `height_components` cells over `(w + 1) * (h + 1)` vertices: six indices
/// per cell, each addressing a vertex of the grid.
pub fn gen_grid_indices(width_components: usize, height_components: usize) -> (r: Vec<i32>)
    requires
        1 <= width_components,
        1 <= height_components,
        (width_components + 1) * (height_components + 1) <= i32::MAX,
        6 * width_components * height_components <= usize::MAX,
    ensures
        r@.len() == 6 * width_components * height_components,
        r@.map_values(|v: i32| v as int) == grid_indices_spec(
            width_components as int,
            (width_components * height_components) as int,
        ),
        all_in_range(r@, grid_vertex_count(width_components as int, height_components as int)),
{
    let w = width_components;
    let h = height_components;
    proof {
        assert(w * h <= 6 * w * h && 6 * (w * h) == 6 * w * h) by (nonlinear_arith)
            requires
                1 <= w && 1 <= h,
        ;
    }
    let cells = w * h;
    let mut r: Vec<i32> = Vec::new();
    let mut k: usize = 0;
    while k < cells
        invariant
            1 <= w,
            1 <= h,
            cells == w * h,
            (w + 1) * (h + 1) <= i32::MAX,
            6 * (w * h) <= usize::MAX,
            k <= cells,
            r@.len() == 6 * k,
            r@.map_values(|v: i32| v as int) == grid_indices_spec(w as int, k as int),
            all_in_range(r@, grid_vertex_count(w as int, h as int)),
        decreases cells - k,
    {
        let x = k % w;
        let y = k / w;
        proof {
            assert(y < h && y * (w + 1) + x + (w + 1) + 1 < (w + 1) * (h + 1)) by (nonlinear_arith)
                requires
                    1 <= w && 1 <= h && k < w * h && x == k % w && y == k / w,
            ;
            assert(6 * k + 6 <= 6 * (w * h)) by (nonlinear_arith)
                requires
                    k < w * h,
            ;
        }
        let first = y * (w + 1) + x;
        let second = first + 1;
        let third = first + (w + 1);
        let fourth = second + (w + 1);
        r.push(first as i32);
        r.push(second as i32);
        r.push(third as i32);
        r.push(third as i32);
        r.push(fourth as i32);
        r.push(second as i32);
        proof {
            assert(r@.map_values(|v: i32| v as int) =~= grid_indices_spec(w as int, k + 1));
        }
        k = k + 1;
    }
    r
}

/// Triangle indices of a lathe of `segments` columns around and
/// `height_components` rings of cells over `segments * (height_components
/// + 1)` vertices: six indices per cell, the seam wrapping around, each
/// addressing a vertex of the lathe.
pub fn gen_lathe_indices(segments: usize, height_components: usize) -> (r: Vec<i32>)
    requires
        1 <= segments,
        1 <= height_components,
        segments * (height_components + 1) <= i32::MAX,
        6 * segments * height_components <= usize::MAX,
    ensures
        r@.len() == 6 * segments * height_components,
        r@.map_values(|v: i32| v as int) == lathe_indices_spec(
            segments as int,
            (segments * height_components) as int,
        ),
        all_in_range(r@, lathe_vertex_count(segments as int, height_components as int)),
{
    let w = segments;
    let h = height_components;
    proof {
        assert(w * h <= 6 * w * h && 6 * (w * h) == 6 * w * h) by (nonlinear_arith)
            requires
                1 <= w && 1 <= h,
        ;
    }
    let cells = w * h;
    let mut r: Vec<i32> = Vec::new();
    let mut k: usize = 0;
    while k < cells
        invariant
            1 <= w,
            1 <= h,
            cells == w * h,
            w * (h + 1) <= i32::MAX,
            6 * (w * h) <= usize::MAX,
            k <= cells,
            r@.len() == 6 * k,
            r@.map_values(|v: i32| v as int) == lathe_indices_spec(w as int, k as int),
            all_in_range(r@, lathe_vertex_count(w as int, h as int)),
        decreases cells - k,
    {
        let x = k % w;
        let y = k / w;
        let x2 = if x + 1 == w {
            0
        } else {
            x + 1
        };
        proof {
            assert(y < h && y * w + (w - 1) < w * (h + 1) && (y + 1) * w + (w - 1) < w * (h + 1))
                by (nonlinear_arith)
                requires
                    1 <= w && 1 <= h && k < w * h && x == k % w && y == k / w,
            ;
            assert(6 * k + 6 <= 6 * (w * h)) by (nonlinear_arith)
                requires
                    k < w * h,
            ;
        }
        let i1 = y * w + x;
        let i2 = y * w + x2;
        let i3 = (y + 1) * w + x;
        let i4 = (y + 1) * w + x2;
        r.push(i1 as i32);
        r.push(i2 as i32);
        r.push(i3 as i32);
        r.push(i3 as i32);
        r.push(i4 as i32);
        r.push(i2 as i32);
        proof {
            assert(r@.map_values(|v: i32| v as int) =~= lathe_indices_spec(w as int, k + 1));
        }
        k = k + 1;
    }
    r
}

} // verus!
