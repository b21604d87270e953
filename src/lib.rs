//! Streaming audio analysis: a rolling sample window, logarithmic frequency
//! buckets and the geometry of a bar-chart frame, with verified contracts.
pub mod pow2;
pub mod rolling;
pub mod buckets;
pub mod render;
pub mod analyzer;
pub mod cli;
