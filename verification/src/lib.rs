//! Badge generation service core: classification of raw metric values,
//! badge rendering, and the request decision pipeline.

pub mod api;
pub mod badge;
pub mod errors;
pub mod formatters;
pub mod handler;
pub mod numbers;

pub use errors::MyError;
