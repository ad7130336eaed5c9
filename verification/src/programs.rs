//! The drawable variants.

pub mod box_2d;
