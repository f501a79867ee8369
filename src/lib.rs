pub mod hittable;
pub mod ppm;
pub mod render;
pub mod utils;
pub mod vector;

pub use crate::hittable::HittableList;
pub use crate::ppm::{Pixel, PPM};
pub use crate::render::{PathState, PathStep};
pub use crate::utils::clamp;
pub use crate::vector::{axis_named, Axis, Vector};
