//! Network connections.
pub mod web_socket;
