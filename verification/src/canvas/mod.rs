//! The canvas: gestures, overlays and the frame clock behind them.

pub mod crop_geom;
pub mod drag;
pub mod fill;
pub mod guide;
pub mod nav;
pub mod paintable;
pub mod pump;
pub mod resample;
pub mod select;
pub mod shape;
pub mod stroke;
pub mod stroke_tip;
pub mod transform_geometry;
