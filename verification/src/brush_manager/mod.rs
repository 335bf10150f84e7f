//! The window that manages brushes.

pub mod editor;
pub mod guard;
pub mod library;
pub mod live;
pub mod preset;
pub mod selection;
