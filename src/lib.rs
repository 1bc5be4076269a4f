//! Colour mosaics: sample the colours of an image at random pixels, and paint
//! a square canvas as a grid of cells, each filled with one colour drawn at
//! random from a loaded set.
pub mod grid;
pub mod naming;
pub mod raster;
pub mod random;
pub mod render;
pub mod sample;
pub mod table;
