//! What is done to every response.
pub mod feature_filter;
pub mod json;

pub use crate::fairing::feature_filter::FeatureFilter;
