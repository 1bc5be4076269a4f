//! Pixels and in-memory RGB images with 8-bit channels.
use vstd::prelude::*;

verus! {

/// One pixel colour, 8 bits per channel.
#[derive(Clone, Copy, Debug, PartialEq, Eq, Structural)]
pub struct Rgb {
    pub r: u8,
    pub g: u8,
    pub b: u8,
}

/// A `width × height` grid of pixels stored as `height` rows of `width`
/// pixels each; `rows[y][x]` is the pixel at column `x` of row `y`.
#[derive(Clone, Debug)]
pub struct Image {
    pub width: usize,
    pub height: usize,
    pub rows: Vec<Vec<Rgb>>,
}

/// The colour a fresh canvas holds before anything is painted on it.
pub open spec fn black() -> Rgb {
    Rgb { r: 0, g: 0, b: 0 }
}

impl Image {
    /// Every row holds exactly `width` pixels and there are `height` rows.
    pub open spec fn wf(&self) -> bool {
        &&& self.rows@.len() == self.height
        &&& forall|y: int| 0 <= y < self.height ==> (#[trigger] self.rows@[y])@.len() == self.width
    }

    /// The pixel at column `x`, row `y`.
    pub open spec fn pixel(&self, x: int, y: int) -> Rgb {
        self.rows@[y]@[x]
    }

    /// `c` is the colour of some pixel of the image.
    pub open spec fn has_color(&self, c: Rgb) -> bool {
        exists|x: int, y: int|
            0 <= x < self.width && 0 <= y < self.height && #[trigger] self.pixel(x, y) == c
    }

    /// An image of the given size with every pixel black.
    pub fn blank(width: usize, height: usize) -> (img: Image)
        ensures
            img.wf(),
            img.width == width,
            img.height == height,
            forall|x: int, y: int|
                0 <= x < width && 0 <= y < height ==> #[trigger] img.pixel(x, y) == black(),
    {
        let mut rows: Vec<Vec<Rgb>> = Vec::new();
        let mut y: usize = 0;
        while y < height
            invariant
                y <= height,
                rows@.len() == y,
                forall|j: int| 0 <= j < y ==> (#[trigger] rows@[j])@.len() == width,
                forall|j: int, x: int| 0 <= j < y && 0 <= x < width ==> #[trigger] rows@[j]@[x] == black(),
            decreases height - y,
        {
            let mut row: Vec<Rgb> = Vec::new();
            let mut x: usize = 0;
            while x < width
                invariant
                    x <= width,
                    row@.len() == x,
                    forall|i: int| 0 <= i < x ==> #[trigger] row@[i] == black(),
                decreases width - x,
            {
                row.push(Rgb { r: 0, g: 0, b: 0 });
                x = x + 1;
            }
            rows.push(row);
            y = y + 1;
        }
        Image { width, height, rows }
    }

    /// Builds an image from its rows; `None` where some row does not hold
    /// exactly `width` pixels.
    pub fn from_rows(width: usize, rows: Vec<Vec<Rgb>>) -> (r: Option<Image>)
        ensures
            r.is_some() <==> forall|y: int| 0 <= y < rows@.len() ==> (#[trigger] rows@[y])@.len() == width,
            r matches Some(img) ==> img.wf() && img.width == width && img.height == rows@.len()
                && img.rows@ == rows@,
    {
        let mut y: usize = 0;
        while y < rows.len()
            invariant
                y <= rows@.len(),
                forall|j: int| 0 <= j < y ==> (#[trigger] rows@[j])@.len() == width,
            decreases rows@.len() - y,
        {
            if rows[y].len() != width {
                return None;
            }
            y = y + 1;
        }
        let height = rows.len();
        Some(Image { width, height, rows })
    }

    /// The pixel at column `x`, row `y`.
    pub fn get_pixel(&self, x: usize, y: usize) -> (p: Rgb)
        requires
            self.wf(),
            x < self.width,
            y < self.height,
        ensures
            p == self.pixel(x as int, y as int),
    {
        self.rows[y][x]
    }
}

} // verus!
