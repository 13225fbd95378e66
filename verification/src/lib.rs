//! On-demand image transformation: requests are canonicalised into cache keys,
//! rendered through a decode / resize / crop / encode pipeline, and memoised.

pub mod content;
pub mod decimal;
pub mod error;
pub mod key_laws;
pub mod optimizer;
pub mod pipeline;
pub mod plan;
pub mod raster;
pub mod resize;
pub mod store;

pub use crate::content::{Container, Encoding};
pub use crate::error::{ImageNotFound, TransformError};
pub use crate::optimizer::ImageOptimizer;
pub use crate::plan::{Plan, Rect};
pub use crate::resize::Resize;
pub use crate::store::CacheStore;
