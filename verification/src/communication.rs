//! What the nodes of the system exchange, and how they take it in.

pub mod buffer;
pub mod drain;
