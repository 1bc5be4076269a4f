//! The renderer: a square canvas split into a grid of cells, each cell filled
//! with one colour picked from a loaded set.
use vstd::prelude::*;
use crate::grid::{in_cell, cell_owners, lemma_grid_partitions_canvas, lemma_owner_unique};
use crate::raster::{Rgb, Image, black};
use crate::random::draw_index;

verus! {

/// Why a render could not be made.
#[derive(Clone, Copy, Debug, PartialEq, Eq, Structural)]
pub enum RenderError {
    /// The colour set is empty, so no cell can be given a colour.
    NoColors,
}

/// `choices` holds one colour index per cell, `choices[cy][cx]` for the cell
/// in grid row `cy` and column `cx`, each an index into a set of `n_colors`.
pub open spec fn valid_choices(choices: Seq<Vec<usize>>, n_colors: int, cells: int) -> bool {
    &&& choices.len() == cells
    &&& forall|cy: int| 0 <= cy < cells ==> (#[trigger] choices[cy])@.len() == cells
    &&& forall|cy: int, cx: int|
        0 <= cy < cells && 0 <= cx < cells ==> #[trigger] choices[cy]@[cx] < n_colors
}

/// Every pixel of `canvas` inside cell `(cx, cy)` of the grid has the colour
/// chosen for that cell.
pub open spec fn painted(
    canvas: Image,
    colors: Seq<Rgb>,
    choices: Seq<Vec<usize>>,
    pixels: int,
    cells: int,
) -> bool {
    forall|x: int, y: int, cx: int, cy: int|
        0 <= x < pixels && 0 <= y < pixels && 0 <= cx < cells && 0 <= cy < cells
            && #[trigger] in_cell(x, cx, pixels, cells) && #[trigger] in_cell(y, cy, pixels, cells)
            ==> canvas.pixel(x, y) == colors[choices[cy]@[cx] as int]
}

/// Paints a `pixels × pixels` canvas split into `cells × cells` cells, cell
/// `(cx, cy)` filled with `colors[choices[cy][cx]]`.
pub fn paint_grid(pixels: usize, cells: usize, colors: &Vec<Rgb>, choices: &Vec<Vec<usize>>) -> (canvas: Image)
    requires
        0 < cells,
        valid_choices(choices@, colors@.len() as int, cells as int),
    ensures
        canvas.wf(),
        canvas.width == pixels,
        canvas.height == pixels,
        painted(canvas, colors@, choices@, pixels as int, cells as int),
{
    let owners = cell_owners(pixels, cells);
    let mut rows: Vec<Vec<Rgb>> = Vec::new();
    let mut y: usize = 0;
    while y < pixels
        invariant
            y <= pixels,
            owners@.len() == pixels,
            valid_choices(choices@, colors@.len() as int, cells as int),
            forall|i: int| 0 <= i < pixels ==> #[trigger] owners@[i] < cells,
            rows@.len() == y,
            forall|j: int| 0 <= j < y ==> (#[trigger] rows@[j])@.len() == pixels,
            forall|j: int, x: int|
                0 <= j < y && 0 <= x < pixels ==> #[trigger] rows@[j]@[x]
                    == colors@[choices@[owners@[j] as int]@[owners@[x] as int] as int],
        decreases pixels - y,
    {
        let cy = owners[y];
        let mut row: Vec<Rgb> = Vec::new();
        let mut x: usize = 0;
        while x < pixels
            invariant
                x <= pixels,
                y < pixels,
                cy == owners@[y as int],
                cy < cells,
                owners@.len() == pixels,
                valid_choices(choices@, colors@.len() as int, cells as int),
                forall|i: int| 0 <= i < pixels ==> #[trigger] owners@[i] < cells,
                row@.len() == x,
                forall|i: int|
                    0 <= i < x ==> #[trigger] row@[i]
                        == colors@[choices@[cy as int]@[owners@[i] as int] as int],
            decreases pixels - x,
        {
            let cx = owners[x];
            let k = choices[cy][cx];
            row.push(colors[k]);
            x = x + 1;
        }
        rows.push(row);
        y = y + 1;
    }
    let canvas = Image { width: pixels, height: pixels, rows };
    assert forall|x: int, y: int, cx: int, cy: int|
        0 <= x < pixels && 0 <= y < pixels && 0 <= cx < cells && 0 <= cy < cells
            && #[trigger] in_cell(x, cx, pixels as int, cells as int)
            && #[trigger] in_cell(y, cy, pixels as int, cells as int)
        implies canvas.pixel(x, y) == colors@[choices@[cy]@[cx] as int] by {
        lemma_owner_unique(x, cx, owners@[x] as int, pixels as int, cells as int);
        lemma_owner_unique(y, cy, owners@[y] as int, pixels as int, cells as int);
    }
    canvas
}

/// Draws one colour index in `[0, n_colors)` for each cell of a
/// `cells × cells` grid, row by row.
fn draw_choices(cells: usize, n_colors: usize, rng: &mut rand::rngs::StdRng) -> (choices: Vec<Vec<usize>>)
    requires
        0 < n_colors,
    ensures
        valid_choices(choices@, n_colors as int, cells as int),
{
    let mut choices: Vec<Vec<usize>> = Vec::new();
    let mut cy: usize = 0;
    while cy < cells
        invariant
            cy <= cells,
            0 < n_colors,
            choices@.len() == cy,
            forall|j: int| 0 <= j < cy ==> (#[trigger] choices@[j])@.len() == cells,
            forall|j: int, i: int|
                0 <= j < cy && 0 <= i < cells ==> #[trigger] choices@[j]@[i] < n_colors,
        decreases cells - cy,
    {
        let mut row: Vec<usize> = Vec::new();
        let mut cx: usize = 0;
        while cx < cells
            invariant
                cx <= cells,
                0 < n_colors,
                row@.len() == cx,
                forall|i: int| 0 <= i < cx ==> #[trigger] row@[i] < n_colors,
            decreases cells - cx,
        {
            let k = draw_index(rng, n_colors);
            row.push(k);
            cx = cx + 1;
        }
        choices.push(row);
        cy = cy + 1;
    }
    choices
}

/// Renders a `pixels × pixels` canvas as a `cells × cells` grid, each cell
/// filled with a colour drawn from `colors` uniformly at random, with
/// replacement and independently per cell.
///
/// Fails with `NoColors` exactly when `colors` is empty. With `cells == 0`
/// nothing is painted and the canvas stays black.
pub fn render_colors(colors: &Vec<Rgb>, pixels: usize, cells: usize, rng: &mut rand::rngs::StdRng) -> (r: Result<Image, RenderError>)
    ensures
        r is Err <==> colors@.len() == 0,
        r matches Err(e) ==> e == RenderError::NoColors,
        r matches Ok(canvas) ==> {
            &&& canvas.wf()
            &&& canvas.width == pixels
            &&& canvas.height == pixels
            &&& cells == 0 ==> forall|x: int, y: int|
                0 <= x < pixels && 0 <= y < pixels ==> #[trigger] canvas.pixel(x, y) == black()
            &&& cells > 0 ==> exists|choices: Seq<Vec<usize>>|
                valid_choices(choices, colors@.len() as int, cells as int)
                    && painted(canvas, colors@, choices, pixels as int, cells as int)
            &&& cells > 0 ==> forall|x: int, y: int|
                0 <= x < pixels && 0 <= y < pixels ==> colors@.contains(#[trigger] canvas.pixel(x, y))
        },
{
    if colors.len() == 0 {
        return Err(RenderError::NoColors);
    }
    if cells == 0 {
        return Ok(Image::blank(pixels, pixels));
    }
    let choices = draw_choices(cells, colors.len(), rng);
    let canvas = paint_grid(pixels, cells, colors, &choices);
    proof {
        lemma_painted_uses_colors(canvas, colors@, choices@, pixels as int, cells as int);
    }
    Ok(canvas)
}

/// A painted canvas holds only colours of the set: every pixel of it equals
/// one of the loaded colours.
pub proof fn lemma_painted_uses_colors(
    canvas: Image,
    colors: Seq<Rgb>,
    choices: Seq<Vec<usize>>,
    pixels: int,
    cells: int,
)
    requires
        0 < cells,
        valid_choices(choices, colors.len() as int, cells),
        painted(canvas, colors, choices, pixels, cells),
    ensures
        forall|x: int, y: int|
            0 <= x < pixels && 0 <= y < pixels ==> colors.contains(#[trigger] canvas.pixel(x, y)),
{
    assert forall|x: int, y: int| 0 <= x < pixels && 0 <= y < pixels
        implies colors.contains(#[trigger] canvas.pixel(x, y)) by {
        lemma_grid_partitions_canvas(pixels, cells, x, y);
        let (cx, cy) = choose|cx: int, cy: int|
            0 <= cx < cells && 0 <= cy < cells && in_cell(x, cx, pixels, cells) && in_cell(y, cy, pixels, cells);
        let k = choices[cy]@[cx] as int;
        assert(colors[k] == canvas.pixel(x, y));
    }
}

} // verus!
