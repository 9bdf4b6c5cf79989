pub mod error;
pub mod options;
pub mod payload;
pub mod resolution;
pub mod workflow;
