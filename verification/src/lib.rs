//! Shows the image on the clipboard in a small window that stays on top.
//!
//! `clipboard` turns what a clipboard read brought into an RGBA image,
//! `window` turns that image into the frame of a window and decides what the
//! window does on each event, and `raster` holds the image itself.

pub mod clipboard;
pub mod raster;
pub mod window;
