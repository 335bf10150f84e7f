//! The primary-button drag: which tool a press, a move and a release go to.

use vstd::prelude::*;

use crate::tool::{FillTool, LayerContent, SelectionTool, ShapeTool, Tool};

verus! {

/// Why a press is turned down.
#[derive(Clone, Copy, Debug, PartialEq, Eq, Structural)]
pub enum Refusal {
    /// The active layer is a component instance.
    ComponentLayer,
    /// The active layer is a text layer.
    TextLayer,
}

/// Which tool's gesture a press begins.
#[derive(Clone, Copy, Debug, PartialEq, Eq, Structural)]
pub enum DragBegin {
    /// Say why and let the sequence go.
    Refuse(Refusal),
    Brush,
    Crop,
    Transform,
    Selection(SelectionTool),
    Fill,
    Gradient,
    Shape(ShapeTool),
    PickColor,
    Text,
    Guide,
    /// Turn the transform tool on and let the sequence go.
    ActivateTransform,
}

/// Which tool's gesture a move goes to.
#[derive(Clone, Copy, Debug, PartialEq, Eq, Structural)]
pub enum DragUpdate {
    Brush,
    Crop,
    Transform,
    Selection(SelectionTool),
    Shape(ShapeTool),
    Fill,
    Gradient,
    PickColor,
    Text,
    Guide,
    Ignore,
}

/// Which tool's gesture a release ends.
#[derive(Clone, Copy, Debug, PartialEq, Eq, Structural)]
pub enum DragEnd {
    Brush,
    Crop,
    Selection,
    Shape(ShapeTool),
    Fill,
    Gradient,
    Text,
    Guide,
    Ignore,
}

impl Refusal {
    /// What the user is told.
    pub fn message(self) -> (m: &'static str)
        ensures
            m@ == (match self {
                Refusal::ComponentLayer =>
                    "Can't edit a component layer. Double-click it to open the component."@,
                Refusal::TextLayer => "Can't paint on a text layer. Rasterize it first."@,
            }),
    {
        match self {
            Refusal::ComponentLayer =>
                "Can't edit a component layer. Double-click it to open the component.",
            Refusal::TextLayer => "Can't paint on a text layer. Rasterize it first.",
        }
    }
}

/// Why a tool may not work on a layer: painting tools turn down component
/// instances and text, every other tool takes any layer.
pub open spec fn refusal(tool: Tool, layer: Option<LayerContent>) -> Option<Refusal> {
    if !tool.paints() {
        None
    } else if layer == Some(LayerContent::Component) {
        Some(Refusal::ComponentLayer)
    } else if layer == Some(LayerContent::Text) {
        Some(Refusal::TextLayer)
    } else {
        None
    }
}

/// The gesture of a tool that is not turned down.
pub open spec fn gesture(tool: Tool) -> DragBegin {
    match tool {
        Tool::Brush => DragBegin::Brush,
        Tool::Crop => DragBegin::Crop,
        Tool::Transform => DragBegin::Transform,
        Tool::Selection(s) => DragBegin::Selection(s),
        Tool::Fill(FillTool::Bucket) => DragBegin::Fill,
        Tool::Fill(FillTool::Gradient) => DragBegin::Gradient,
        Tool::Shapes(kind) => DragBegin::Shape(kind),
        Tool::ColorPicker => DragBegin::PickColor,
        Tool::Text => DragBegin::Text,
        Tool::DrawingGuide => DragBegin::Guide,
        Tool::Cursor => DragBegin::ActivateTransform,
    }
}

/// The press: a fill gesture that is still open has been closed before.
pub fn on_begin(tool: Tool, layer: Option<LayerContent>) -> (r: DragBegin)
    ensures
        r == (match refusal(tool, layer) {
            Some(why) => DragBegin::Refuse(why),
            None => gesture(tool),
        }),
{
    if tool.is_raster() {
        match layer {
            Some(LayerContent::Component) => {
                return DragBegin::Refuse(Refusal::ComponentLayer);
            },
            Some(LayerContent::Text) => {
                return DragBegin::Refuse(Refusal::TextLayer);
            },
            _ => {},
        }
    }
    match tool {
        Tool::Brush => DragBegin::Brush,
        Tool::Crop => DragBegin::Crop,
        Tool::Transform => DragBegin::Transform,
        Tool::Selection(s) => DragBegin::Selection(s),
        Tool::Fill(FillTool::Bucket) => DragBegin::Fill,
        Tool::Fill(FillTool::Gradient) => DragBegin::Gradient,
        Tool::Shapes(kind) => DragBegin::Shape(kind),
        Tool::ColorPicker => DragBegin::PickColor,
        Tool::Text => DragBegin::Text,
        Tool::DrawingGuide => DragBegin::Guide,
        Tool::Cursor => DragBegin::ActivateTransform,
    }
}

/// The move.
pub fn on_update(tool: Tool) -> (r: DragUpdate)
    ensures
        r == (match gesture(tool) {
            DragBegin::Brush => DragUpdate::Brush,
            DragBegin::Crop => DragUpdate::Crop,
            DragBegin::Transform => DragUpdate::Transform,
            DragBegin::Selection(s) => DragUpdate::Selection(s),
            DragBegin::Shape(kind) => DragUpdate::Shape(kind),
            DragBegin::Fill => DragUpdate::Fill,
            DragBegin::Gradient => DragUpdate::Gradient,
            DragBegin::PickColor => DragUpdate::PickColor,
            DragBegin::Text => DragUpdate::Text,
            DragBegin::Guide => DragUpdate::Guide,
            _ => DragUpdate::Ignore,
        }),
{
    match tool {
        Tool::Brush => DragUpdate::Brush,
        Tool::Crop => DragUpdate::Crop,
        Tool::Transform => DragUpdate::Transform,
        Tool::Selection(s) => DragUpdate::Selection(s),
        Tool::Shapes(kind) => DragUpdate::Shape(kind),
        Tool::Fill(FillTool::Bucket) => DragUpdate::Fill,
        Tool::Fill(FillTool::Gradient) => DragUpdate::Gradient,
        Tool::ColorPicker => DragUpdate::PickColor,
        Tool::Text => DragUpdate::Text,
        Tool::DrawingGuide => DragUpdate::Guide,
        Tool::Cursor => DragUpdate::Ignore,
    }
}

/// The release. A tablet ends the drag with the pen still down, so a fill only
/// ends here once the button is up; a transform and a picked color need no end.
pub fn on_end(tool: Tool, held: bool) -> (r: DragEnd)
    ensures
        r == (match gesture(tool) {
            DragBegin::Brush => DragEnd::Brush,
            DragBegin::Crop => DragEnd::Crop,
            DragBegin::Selection(_) => DragEnd::Selection,
            DragBegin::Shape(kind) => DragEnd::Shape(kind),
            DragBegin::Fill => if held {
                DragEnd::Ignore
            } else {
                DragEnd::Fill
            },
            DragBegin::Gradient => DragEnd::Gradient,
            DragBegin::Text => DragEnd::Text,
            DragBegin::Guide => DragEnd::Guide,
            _ => DragEnd::Ignore,
        }),
{
    match tool {
        Tool::Brush => DragEnd::Brush,
        Tool::Crop => DragEnd::Crop,
        Tool::Selection(_) => DragEnd::Selection,
        Tool::Shapes(kind) => DragEnd::Shape(kind),
        Tool::Fill(FillTool::Bucket) => if held {
            DragEnd::Ignore
        } else {
            DragEnd::Fill
        },
        Tool::Fill(FillTool::Gradient) => DragEnd::Gradient,
        Tool::Text => DragEnd::Text,
        Tool::DrawingGuide => DragEnd::Guide,
        _ => DragEnd::Ignore,
    }
}

/// A press is turned down exactly when a painting tool meets a component
/// instance or a text layer; the layer never changes which gesture begins.
pub proof fn law_only_painting_is_refused(tool: Tool, layer: Option<LayerContent>)
    ensures
        refusal(tool, layer) is Some <==> tool.paints() && (layer == Some(LayerContent::Component)
            || layer == Some(LayerContent::Text)),
{
}

/// A press begins the gesture of the very tool in hand, with the selection or the shape
/// that the tool is set to, or is refused for the layer's own reason.
pub proof fn law_a_press_begins_its_own_tools_gesture(
    tool: Tool,
    layer: Option<LayerContent>,
    r: DragBegin,
)
    requires
        call_ensures(on_begin, (tool, layer), r),
    ensures
        r is Brush ==> tool is Brush,
        r is Crop <==> tool is Crop,
        r is Transform <==> tool is Transform,
        r matches DragBegin::Selection(s) ==> tool == Tool::Selection(s),
        tool is Selection ==> r is Selection,
        r is Fill ==> tool == Tool::Fill(FillTool::Bucket),
        r is Gradient ==> tool == Tool::Fill(FillTool::Gradient),
        r matches DragBegin::Shape(kind) ==> tool == Tool::Shapes(kind),
        r is PickColor <==> tool is ColorPicker,
        r is Text <==> tool is Text,
        r is Guide <==> tool is DrawingGuide,
        r is ActivateTransform <==> tool is Cursor,
        r is Refuse <==> (tool is Brush || tool is Fill || tool is Shapes) && (layer == Some(
            LayerContent::Component,
        ) || layer == Some(LayerContent::Text)),
        r == DragBegin::Refuse(Refusal::ComponentLayer) ==> layer == Some(LayerContent::Component),
        r == DragBegin::Refuse(Refusal::TextLayer) ==> layer == Some(LayerContent::Text),
{
}

/// A move and a release go to the tool whose press began the gesture. A transform, a
/// picked color and the cursor need no release, and a fill is left open while the button
/// is held.
pub proof fn law_moves_and_releases_go_to_the_tool_of_the_press(
    tool: Tool,
    held: bool,
    update: DragUpdate,
    end: DragEnd,
)
    requires
        call_ensures(on_update, (tool,), update),
        call_ensures(on_end, (tool, held), end),
    ensures
        update is Brush <==> tool is Brush,
        update is Crop <==> tool is Crop,
        update is Transform <==> tool is Transform,
        update is Selection <==> tool is Selection,
        update matches DragUpdate::Selection(s) ==> tool == Tool::Selection(s),
        update is Shape <==> tool is Shapes,
        update matches DragUpdate::Shape(kind) ==> tool == Tool::Shapes(kind),
        update is Fill <==> tool == Tool::Fill(FillTool::Bucket),
        update is Gradient <==> tool == Tool::Fill(FillTool::Gradient),
        update is PickColor <==> tool is ColorPicker,
        update is Text <==> tool is Text,
        update is Guide <==> tool is DrawingGuide,
        update is Ignore <==> tool is Cursor,
        end is Brush <==> tool is Brush,
        end is Crop <==> tool is Crop,
        end is Selection <==> tool is Selection,
        end is Shape <==> tool is Shapes,
        end matches DragEnd::Shape(kind) ==> tool == Tool::Shapes(kind),
        end is Fill <==> tool == Tool::Fill(FillTool::Bucket) && !held,
        end is Gradient <==> tool == Tool::Fill(FillTool::Gradient),
        end is Text <==> tool is Text,
        end is Guide <==> tool is DrawingGuide,
{
}

/// What the user is told names the kind of layer that is in the way.
pub proof fn law_a_refusal_names_the_layer(why: Refusal, m: &'static str)
    requires
        call_ensures(Refusal::message, (why,), m),
    ensures
        why is ComponentLayer ==> m@
            == "Can't edit a component layer. Double-click it to open the component."@,
        why is TextLayer ==> m@ == "Can't paint on a text layer. Rasterize it first."@,
{
}

} // verus!
