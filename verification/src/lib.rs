//! A 2D drawing layer for interactive applications, without the machine
//! under it: how draw calls are merged into batches and when a batch must
//! be submitted, how images are packed into one atlas texture, and how key
//! and button events become the state an application asks for.
//!
//! Everything here works on plain values. The host that owns the window,
//! the GPU and the network reports what happens and carries out what these
//! modules decide.
pub mod input;
pub mod net;
pub mod render;
pub mod text;
