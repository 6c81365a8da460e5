//! Value-mapping building blocks that work on whole numbers.

pub mod mapper;
pub mod pattern;
pub mod quantize;
pub mod threshold;

pub use mapper::{Mapper, MappingPipeline};
pub use pattern::EuclideanPattern;
pub use quantize::Scale;
pub use threshold::ThresholdDirection;
