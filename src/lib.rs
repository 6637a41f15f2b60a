mod grid;
mod layout;
mod raster;
mod volume;

pub use grid::{GridShape, RasterError};
pub use raster::{rasterize, rasterize_checked, validate};
pub use volume::VoxelVolume;
