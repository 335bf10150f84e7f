//! The tools of the canvas.

use vstd::prelude::*;

verus! {

/// How a selection is drawn.
#[derive(Clone, Copy, Debug, PartialEq, Eq, Structural)]
pub enum SelectionTool {
    Square,
    Circle,
    Free,
}

/// How a region is filled.
#[derive(Clone, Copy, Debug, PartialEq, Eq, Structural)]
pub enum FillTool {
    Bucket,
    Gradient,
}

/// Which shape is drawn. A line has no area of its own; every other shape has.
#[derive(Clone, Copy, Debug, PartialEq, Eq, Structural)]
pub enum ShapeTool {
    Line,
    Area,
}

/// The active tool.
#[derive(Clone, Copy, Debug, PartialEq, Eq, Structural)]
pub enum Tool {
    Cursor,
    Brush,
    Crop,
    Transform,
    Selection(SelectionTool),
    Fill(FillTool),
    Shapes(ShapeTool),
    ColorPicker,
    Text,
    DrawingGuide,
}

/// What the active layer holds.
#[derive(Clone, Copy, Debug, PartialEq, Eq, Structural)]
pub enum LayerContent {
    Raster,
    /// An instance of a component, only editable by opening the component.
    Component,
    /// Text, rendered again from its content.
    Text,
    /// An adjustment with a grayscale mask.
    Adjustment,
}

impl Tool {
    /// Whether the tool paints pixels of the active layer.
    pub open spec fn paints(self) -> bool {
        self is Brush || self is Fill || self is Shapes
    }

    /// Whether the tool paints pixels of the active layer.
    pub fn is_raster(self) -> (r: bool)
        ensures
            r == self.paints(),
    {
        match self {
            Tool::Brush | Tool::Fill(_) | Tool::Shapes(_) => true,
            _ => false,
        }
    }
}

/// The tools that paint are the brush, the fills and the shapes, whatever they are set
/// to, and no other tool paints.
pub proof fn law_which_tools_paint(fill: FillTool, shape: ShapeTool, selection: SelectionTool)
    ensures
        Tool::Brush.paints(),
        Tool::Fill(fill).paints(),
        Tool::Shapes(shape).paints(),
        !Tool::Selection(selection).paints(),
        !Tool::Cursor.paints(),
        !Tool::Crop.paints(),
        !Tool::Transform.paints(),
        !Tool::ColorPicker.paints(),
        !Tool::Text.paints(),
        !Tool::DrawingGuide.paints(),
{
}

} // verus!
