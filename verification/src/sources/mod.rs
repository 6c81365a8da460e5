//! Plain data handed to the engine by the data sources.

pub mod git;
pub mod price;
pub mod system;
pub mod weather;

pub use git::{GitConfig, GitState};
pub use price::PriceConfig;
pub use system::SystemConfig;
pub use weather::WeatherConfig;
