//! A small rendering engine for a textured quad: the decisions behind
//! device/surface initialization, texture decoding, pipeline assembly and
//! the per-frame render loop, stated and verified over plain values. The
//! calls into the windowing and GPU layers live outside this crate and
//! carry out the actions these modules decide on.

pub mod driver;
pub mod engine;
pub mod pipeline;
pub mod surface;
pub mod texture;
pub mod vertex;
