//! The sampler: colours read at random pixel positions of an image.
use vstd::prelude::*;
use crate::raster::{Rgb, Image};
use crate::random::draw_index;

verus! {

/// Why no sample could be drawn.
#[derive(Clone, Copy, Debug, PartialEq, Eq, Structural)]
pub enum SampleError {
    /// The image has no pixel to draw from.
    EmptyImage,
}

/// Every position of `coords` is `(x, y)` with `x < width` and `y < height`.
pub open spec fn coords_within(coords: Seq<(usize, usize)>, width: int, height: int) -> bool {
    forall|i: int|
        0 <= i < coords.len() ==> (#[trigger] coords[i]).0 < width && coords[i].1 < height
}

/// The colours of `img` at the given positions, in their order.
pub fn pixels_at(img: &Image, coords: &Vec<(usize, usize)>) -> (colors: Vec<Rgb>)
    requires
        img.wf(),
        coords_within(coords@, img.width as int, img.height as int),
    ensures
        colors@.len() == coords@.len(),
        forall|i: int|
            0 <= i < coords@.len() ==> #[trigger] colors@[i] == img.pixel(
                coords@[i].0 as int,
                coords@[i].1 as int,
            ),
{
    let mut colors: Vec<Rgb> = Vec::new();
    let mut i: usize = 0;
    while i < coords.len()
        invariant
            i <= coords@.len(),
            img.wf(),
            coords_within(coords@, img.width as int, img.height as int),
            colors@.len() == i,
            forall|j: int|
                0 <= j < i ==> #[trigger] colors@[j] == img.pixel(
                    coords@[j].0 as int,
                    coords@[j].1 as int,
                ),
        decreases coords@.len() - i,
    {
        let (x, y) = coords[i];
        colors.push(img.get_pixel(x, y));
        i = i + 1;
    }
    colors
}

/// Draws `n_samples` positions of a `width × height` grid, each coordinate
/// uniformly at random.
fn draw_coords(width: usize, height: usize, n_samples: usize, rng: &mut rand::rngs::StdRng) -> (coords: Vec<(usize, usize)>)
    requires
        0 < width,
        0 < height,
    ensures
        coords@.len() == n_samples,
        coords_within(coords@, width as int, height as int),
{
    let mut coords: Vec<(usize, usize)> = Vec::new();
    let mut i: usize = 0;
    while i < n_samples
        invariant
            i <= n_samples,
            0 < width,
            0 < height,
            coords@.len() == i,
            coords_within(coords@, width as int, height as int),
        decreases n_samples - i,
    {
        let x = draw_index(rng, width);
        let y = draw_index(rng, height);
        coords.push((x, y));
        i = i + 1;
    }
    coords
}

/// Reads the colours of `n_samples` pixels of `img`, each at a position drawn
/// uniformly at random, in the order drawn. The image is only read.
///
/// Fails with `EmptyImage` exactly when samples are asked of an image
/// without pixels.
pub fn sample_pixels(img: &Image, n_samples: usize, rng: &mut rand::rngs::StdRng) -> (r: Result<Vec<Rgb>, SampleError>)
    requires
        img.wf(),
    ensures
        r is Err <==> (img.width == 0 || img.height == 0) && n_samples > 0,
        r matches Err(e) ==> e == SampleError::EmptyImage,
        r matches Ok(colors) ==> {
            &&& colors@.len() == n_samples
            &&& forall|i: int|
                0 <= i < n_samples ==> #[trigger] img.has_color(colors@[i])
        },
{
    if n_samples == 0 {
        return Ok(Vec::new());
    }
    if img.width == 0 || img.height == 0 {
        return Err(SampleError::EmptyImage);
    }
    let coords = draw_coords(img.width, img.height, n_samples, rng);
    let colors = pixels_at(img, &coords);
    assert forall|i: int| 0 <= i < n_samples implies #[trigger] img.has_color(colors@[i]) by {
        let (x, y) = (coords@[i].0 as int, coords@[i].1 as int);
        assert(0 <= x < img.width && 0 <= y < img.height && colors@[i] == img.pixel(x, y));
    }
    Ok(colors)
}

} // verus!
