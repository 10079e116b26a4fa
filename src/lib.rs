//! A latest-wins frame slot and a progressive mosaic compositor that patches
//! grid-aligned squares of a persistent canvas from the newest captured frame,
//! together with the stroke table of a small vector font.

pub mod channel;
pub mod region;
mod rng;
pub mod mosaic;
pub mod types;
pub mod letters;
