//! Build-pipeline core for packaging a Java application as a single
//! self-contained executable: stage planning, configuration resolution,
//! the runtime-acquisition cache, launcher-stub generation, and the
//! stub-plus-payload artifact layout.

pub mod cache;
pub mod config;
pub mod launcher;
pub mod num;
pub mod pack;
pub mod progress;
pub mod stages;
pub mod stub;

pub use num::u64_to_string;
pub use stages::calculate_steps;
pub use stub::generate;
