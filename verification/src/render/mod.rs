//! Batched drawing and texture packing.
pub mod atlas;
pub mod batch;
pub mod canvas2d;
pub mod object2d;
pub mod shapes;
pub mod webgl2d;
