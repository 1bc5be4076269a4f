//! Geometry of the cell grid: a square canvas of `pixels × pixels` split into
//! `cells × cells` cells whose edges are the floors of `c * pixels / cells`.
use vstd::prelude::*;
use vstd::arithmetic::div_mod::{lemma_div_is_ordered, lemma_div_by_multiple};
use vstd::arithmetic::mul::lemma_mul_inequality;

verus! {

/// Position of the `c`-th cell edge along one axis: `floor(c * pixels / cells)`.
pub open spec fn cell_edge(c: int, pixels: int, cells: int) -> int {
    (c * pixels) / cells
}

/// Coordinate `x` lies in cell `c` along one axis: `edge(c) <= x < edge(c + 1)`.
pub open spec fn in_cell(x: int, c: int, pixels: int, cells: int) -> bool {
    cell_edge(c, pixels, cells) <= x < cell_edge(c + 1, pixels, cells)
}

/// Edges never decrease: `c1 <= c2` gives `edge(c1) <= edge(c2)`.
pub proof fn lemma_edge_monotone(c1: int, c2: int, pixels: int, cells: int)
    requires
        0 <= c1 <= c2,
        0 <= pixels,
        0 < cells,
    ensures
        cell_edge(c1, pixels, cells) <= cell_edge(c2, pixels, cells),
{
    lemma_mul_inequality(c1, c2, pixels);
    lemma_div_is_ordered(c1 * pixels, c2 * pixels, cells);
}

/// The first edge is at 0 and the last one at `pixels`.
pub proof fn lemma_edge_ends(pixels: int, cells: int)
    requires
        0 <= pixels,
        0 < cells,
    ensures
        cell_edge(0, pixels, cells) == 0,
        cell_edge(cells, pixels, cells) == pixels,
{
    assert(cells * pixels == pixels * cells) by (nonlinear_arith);
    lemma_div_by_multiple(pixels, cells);
}

/// A coordinate in `[edge(c), pixels)` lies in some cell from `c` on.
proof fn lemma_owner_from(x: int, c: int, pixels: int, cells: int) -> (o: int)
    requires
        0 <= c < cells,
        0 <= pixels,
        cell_edge(c, pixels, cells) <= x < pixels,
    ensures
        c <= o < cells,
        in_cell(x, o, pixels, cells),
    decreases cells - c,
{
    lemma_edge_ends(pixels, cells);
    if x < cell_edge(c + 1, pixels, cells) {
        c
    } else {
        lemma_owner_from(x, c + 1, pixels, cells)
    }
}

/// Along one axis no coordinate lies in two cells.
pub proof fn lemma_owner_unique(x: int, c1: int, c2: int, pixels: int, cells: int)
    requires
        0 <= c1 < cells,
        0 <= c2 < cells,
        0 <= pixels,
        in_cell(x, c1, pixels, cells),
        in_cell(x, c2, pixels, cells),
    ensures
        c1 == c2,
{
    if c1 < c2 {
        lemma_edge_monotone(c1 + 1, c2, pixels, cells);
    } else if c2 < c1 {
        lemma_edge_monotone(c2 + 1, c1, pixels, cells);
    }
}

/// The cells partition the canvas: every pixel `(x, y)` of a
/// `pixels × pixels` canvas lies in exactly one cell `(cx, cy)` of the
/// `cells × cells` grid, so the cells cover it with no gap and no overlap.
pub proof fn lemma_grid_partitions_canvas(pixels: int, cells: int, x: int, y: int)
    requires
        0 < cells,
        0 <= x < pixels,
        0 <= y < pixels,
    ensures
        exists|cx: int, cy: int|
            0 <= cx < cells && 0 <= cy < cells && in_cell(x, cx, pixels, cells) && in_cell(
                y,
                cy,
                pixels,
                cells,
            ),
        forall|cx1: int, cy1: int, cx2: int, cy2: int|
            0 <= cx1 < cells && 0 <= cy1 < cells && 0 <= cx2 < cells && 0 <= cy2 < cells
                && #[trigger] in_cell(x, cx1, pixels, cells) && #[trigger] in_cell(
                y,
                cy1,
                pixels,
                cells,
            ) && #[trigger] in_cell(x, cx2, pixels, cells) && #[trigger] in_cell(
                y,
                cy2,
                pixels,
                cells,
            ) ==> cx1 == cx2 && cy1 == cy2,
{
    lemma_edge_ends(pixels, cells);
    let cx = lemma_owner_from(x, 0, pixels, cells);
    let cy = lemma_owner_from(y, 0, pixels, cells);
    assert(in_cell(x, cx, pixels, cells) && in_cell(y, cy, pixels, cells));
    assert forall|cx1: int, cy1: int, cx2: int, cy2: int|
        0 <= cx1 < cells && 0 <= cy1 < cells && 0 <= cx2 < cells && 0 <= cy2 < cells
            && #[trigger] in_cell(x, cx1, pixels, cells) && #[trigger] in_cell(y, cy1, pixels, cells)
            && #[trigger] in_cell(x, cx2, pixels, cells) && #[trigger] in_cell(y, cy2, pixels, cells)
        implies cx1 == cx2 && cy1 == cy2 by {
        lemma_owner_unique(x, cx1, cx2, pixels, cells);
        lemma_owner_unique(y, cy1, cy2, pixels, cells);
    }
}

/// Pixel bounds `[start, end)` of cell `c` along one axis.
pub fn cell_bounds(c: usize, pixels: usize, cells: usize) -> (r: (usize, usize))
    requires
        0 < cells,
        c < cells,
    ensures
        r.0 == cell_edge(c as int, pixels as int, cells as int),
        r.1 == cell_edge(c as int + 1, pixels as int, cells as int),
        r.0 <= r.1 <= pixels,
{
    proof {
        lemma_edge_monotone(c as int, c as int + 1, pixels as int, cells as int);
        lemma_edge_monotone(c as int + 1, cells as int, pixels as int, cells as int);
        lemma_edge_ends(pixels as int, cells as int);
        lemma_mul_inequality(c as int, c as int + 1, pixels as int);
        lemma_mul_inequality(c as int + 1, cells as int, pixels as int);
        assert((cells as int) * (pixels as int) <= u64::MAX as int * u64::MAX as int)
            by (nonlinear_arith)
            requires cells <= u64::MAX, pixels <= u64::MAX;
    }
    let n = cells as u128;
    let p = pixels as u128;
    let start = (c as u128) * p / n;
    let end = (c as u128 + 1) * p / n;
    (start as usize, end as usize)
}

/// For each coordinate `0 <= x < pixels` along one axis, the index of the
/// cell that holds it.
pub fn cell_owners(pixels: usize, cells: usize) -> (owners: Vec<usize>)
    requires
        0 < cells,
    ensures
        owners@.len() == pixels,
        forall|x: int|
            0 <= x < pixels ==> #[trigger] owners@[x] < cells && in_cell(
                x,
                owners@[x] as int,
                pixels as int,
                cells as int,
            ),
{
    let mut owners: Vec<usize> = Vec::new();
    let mut c: usize = 0;
    proof {
        lemma_edge_ends(pixels as int, cells as int);
    }
    while c < cells
        invariant
            c <= cells,
            owners@.len() == cell_edge(c as int, pixels as int, cells as int),
            forall|x: int|
                0 <= x < owners@.len() ==> #[trigger] owners@[x] < c && in_cell(
                    x,
                    owners@[x] as int,
                    pixels as int,
                    cells as int,
                ),
        decreases cells - c,
    {
        let (start, end) = cell_bounds(c, pixels, cells);
        let mut x: usize = start;
        while x < end
            invariant
                start <= x <= end,
                start == cell_edge(c as int, pixels as int, cells as int),
                end == cell_edge(c as int + 1, pixels as int, cells as int),
                c < cells,
                owners@.len() == x,
                forall|i: int|
                    0 <= i < owners@.len() ==> #[trigger] owners@[i] <= c && in_cell(
                        i,
                        owners@[i] as int,
                        pixels as int,
                        cells as int,
                    ),
            decreases end - x,
        {
            owners.push(c);
            x = x + 1;
        }
        c = c + 1;
    }
    owners
}

} // verus!
