//! Render raster images as terminal character grids.
//!
//! The pipeline is a pure function from an image, a terminal geometry and a
//! render mode to a grid of output cells: the image is fitted to the terminal
//! box while compensating for the aspect ratio of a character cell, its
//! colors are reduced to the fixed palette of the chosen mode, and each pixel
//! becomes a printable glyph or a color cell. Reading image files and writing
//! escape sequences to the terminal are left to the caller.

pub mod color;
pub mod fit;
pub mod mode;
pub mod palette;
pub mod quantize;
pub mod raster;
pub mod render;
