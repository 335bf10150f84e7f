//! The export window.

pub mod labels;
pub mod output;
pub mod preview;
pub mod rounding;
pub mod scale;
pub mod settings;
