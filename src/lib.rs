//! Camera-geometry kernel for a structured-light depth sensor: the discrete
//! parts of depth-to-color alignment and point-cloud assembly, with contracts.
pub mod align;
pub mod distortion;
pub mod error;
pub mod frame;
pub mod grid;
pub mod laws;
pub mod point_cloud;
pub mod recorder;
pub mod render;

pub use align::{align_images, Footprint};
pub use distortion::{check_deprojectable, DistortionKind};
pub use error::KernelError;
pub use frame::process_frame;
pub use grid::{default_grid, grid, GridVertex};
pub use point_cloud::{build_point_cloud, pixel_coords, valid_mask, ImagePointCloud};
pub use recorder::{subdivision_resolution, subdivs_to_cover, RecorderConfig};
pub use render::RenderMsg;
