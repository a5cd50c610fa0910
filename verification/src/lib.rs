//! Verified core of a Mandelbrot renderer: palette handling, escape-time
//! colouring with dynamic-range banding, pixel grids, histogram sampling and
//! snapshot framing. Plane coordinates and escape-time iteration are
//! floating-point work and are left to the caller.

pub mod application_error;
pub mod color_bucket;
pub mod colorizer;
pub mod controller;
pub mod entropy;
pub mod error_text;
pub mod explorer_error;
pub mod generator_error;
pub mod mandelbrot;
pub mod mandelbrot_error;
pub mod palettes;
pub mod sampler;
pub mod snapshot;

pub use crate::application_error::ApplicationError;
pub use crate::color_bucket::ColorBucket;
pub use crate::explorer_error::ExplorerError;
pub use crate::generator_error::GeneratorError;
pub use crate::mandelbrot::Mandelbrot;
pub use crate::mandelbrot_error::MandelbrotError;
