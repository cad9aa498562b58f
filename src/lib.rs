//! Verified core of a raster mosaic pipeline: dataset configuration, the
//! per-mosaic band statistics cache, the pixel compositing rules that turn
//! converted channels into RGBA output, and the integer bookkeeping of the
//! elevation store.

pub mod options;
pub mod pixel;
pub mod cache;
pub mod elevation_store;
pub mod mosaic;
