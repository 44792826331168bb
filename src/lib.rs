//! Turns raw records into fixed-shape batches: padded token grids with
//! their padding masks, per-channel normalized feature rows, and labels or
//! targets kept in record order.
pub mod dataset;
pub mod error;
pub mod image;
pub mod iris;
pub mod labels;
pub mod normalize;
pub mod padding;
pub mod tabular;
pub mod text;
pub mod tokenizer;
pub mod wine;
