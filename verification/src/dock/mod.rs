//! The dock: panels round the canvas, and moving and sizing them.

pub mod carry;
pub mod drop;
pub mod edit;
pub mod manager;
pub mod overlay;
pub mod request;
pub mod sizing;
