//! The decision logic of a layered drawing application's user interface.

pub mod adjustments;
pub mod brush_manager;
pub mod brush_picker;
pub mod canvas;
pub mod dock;
pub mod export;
pub mod geometry;
pub mod icons;
pub mod ieee;
pub mod keys;
pub mod layout;
pub mod pixels;
pub mod shared;
pub mod text;
pub mod tool;
