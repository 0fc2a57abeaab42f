//! The rendering rules of the source generator: for each composite value the
//! Rust expression that constructs it.

use vstd::prelude::*;
use vstd::string::*;
use crate::model::{
    Color, Rounding, RoundingView, Scalar, Stroke, StrokeView, Vector2, Vector2View,
    WidgetVisuals, WidgetVisualsView,
};
use crate::text::{channel_text, decimal};

verus! {

/// The expression for a switch.
pub open spec fn bool_literal(value: bool) -> Seq<char> {
    if value {
        "true"@
    } else {
        "false"@
    }
}

/// The expression for a colour: a call of the constructor that takes the four
/// channels as they are, red, green, blue and alpha.
pub open spec fn color32_literal(color: Color) -> Seq<char> {
    "Color32::from_rgba_premultiplied("@ + decimal(color.r) + ", "@ + decimal(color.g) + ", "@
        + decimal(color.b) + ", "@ + decimal(color.a) + ")"@
}

/// The expression for a colour that may be left out.
pub open spec fn optional_color_literal(color: Option<Color>) -> Seq<char> {
    match color {
        Some(c) => "Some("@ + color32_literal(c) + ")"@,
        None => "None"@,
    }
}

/// The expression for the wrapping of text: none where it is unset, so that
/// the toolkit's own choice stands.
pub open spec fn wrap_mode_literal(wrap: Option<bool>) -> Seq<char> {
    match wrap {
        Some(true) => "Some(egui::TextWrapMode::Wrap)"@,
        Some(false) => "Some(egui::TextWrapMode::Truncate)"@,
        None => Seq::empty(),
    }
}

/// The expression for a vector.
pub open spec fn vec2_literal(value: Vector2View) -> Seq<char> {
    "Vec2 { x: "@ + value.x + ", y: "@ + value.y + "}"@
}

/// What the expression for a rounding holds before the last corner: the three
/// other corners.
pub open spec fn rounding_literal_head(value: RoundingView) -> Seq<char> {
    "Rounding { nw: "@ + value.nw + ", ne: "@ + value.ne + ", sw: "@ + value.sw + ", se: "@
}

/// The expression for a rounding: each corner is written out, also where all
/// four are equal.
pub open spec fn rounding_literal(value: RoundingView) -> Seq<char> {
    rounding_literal_head(value) + value.se + " }"@
}

/// The expression for a stroke. The width is the literal of the model, digit
/// for digit.
pub open spec fn stroke_literal(value: StrokeView) -> Seq<char> {
    "Stroke {
            width: "@ + value.width + ",
            color: "@ + color32_literal(value.color) + ",
        }"@
}

/// The expression for the look of a widget.
pub open spec fn widget_visuals_literal(value: WidgetVisualsView) -> Seq<char> {
    "WidgetVisuals {
        bg_fill: "@ + color32_literal(value.bg_fill) + ",
        weak_bg_fill: "@ + color32_literal(value.weak_bg_fill) + ",
        bg_stroke: "@ + stroke_literal(value.bg_stroke) + ",
        rounding: "@ + rounding_literal(value.rounding) + ",
        fg_stroke: "@ + stroke_literal(value.fg_stroke) + ",
        expansion: "@ + value.expansion + ",
    }"@
}

/// Renders a switch.
pub fn gen_bool(value: bool) -> (r: String)
    ensures
        r@ == bool_literal(value),
{
    if value {
        String::from_str("true")
    } else {
        String::from_str("false")
    }
}

/// Renders a measure: the literal of the model, as it is.
pub fn gen_scalar(value: &Scalar) -> (r: String)
    ensures
        r@ == value@,
{
    value.to_text()
}

/// Renders a colour.
pub fn gen_color32(color: Color) -> (r: String)
    ensures
        r@ == color32_literal(color),
{
    let mut out = String::from_str("Color32::from_rgba_premultiplied(");
    out.append(channel_text(color.r).as_str());
    out.append(", ");
    out.append(channel_text(color.g).as_str());
    out.append(", ");
    out.append(channel_text(color.b).as_str());
    out.append(", ");
    out.append(channel_text(color.a).as_str());
    out.append(")");
    out
}

/// Renders a colour that may be left out.
pub fn gen_optional_color(color: Option<Color>) -> (r: String)
    ensures
        r@ == optional_color_literal(color),
{
    match color {
        Some(c) => {
            let mut out = String::from_str("Some(");
            out.append(gen_color32(c).as_str());
            out.append(")");
            out
        },
        None => String::from_str("None"),
    }
}

/// Renders the wrapping of text.
pub fn gen_wrap_mode(wrap: Option<bool>) -> (r: String)
    ensures
        r@ == wrap_mode_literal(wrap),
{
    match wrap {
        Some(true) => String::from_str("Some(egui::TextWrapMode::Wrap)"),
        Some(false) => String::from_str("Some(egui::TextWrapMode::Truncate)"),
        None => String::new(),
    }
}

/// Renders a vector.
pub fn gen_vec2(value: &Vector2) -> (r: String)
    ensures
        r@ == vec2_literal(value@),
{
    let mut out = String::from_str("Vec2 { x: ");
    out.append(value.x.as_str());
    out.append(", y: ");
    out.append(value.y.as_str());
    out.append("}");
    out
}

/// Renders a rounding.
pub fn gen_rounding(value: &Rounding) -> (r: String)
    ensures
        r@ == rounding_literal(value@),
{
    let mut out = String::from_str("Rounding { nw: ");
    out.append(value.nw.as_str());
    out.append(", ne: ");
    out.append(value.ne.as_str());
    out.append(", sw: ");
    out.append(value.sw.as_str());
    out.append(", se: ");
    out.append(value.se.as_str());
    out.append(" }");
    out
}

/// Renders a stroke.
pub fn gen_stroke(value: &Stroke) -> (r: String)
    ensures
        r@ == stroke_literal(value@),
{
    let mut out = String::from_str("Stroke {
            width: ");
    out.append(value.width.as_str());
    out.append(",
            color: ");
    out.append(gen_color32(value.color).as_str());
    out.append(",
        }");
    out
}

/// Renders the look of a widget.
pub fn gen_widget_visuals(value: &WidgetVisuals) -> (r: String)
    ensures
        r@ == widget_visuals_literal(value@),
{
    let mut out = String::from_str("WidgetVisuals {
        bg_fill: ");
    out.append(gen_color32(value.bg_fill).as_str());
    out.append(",
        weak_bg_fill: ");
    out.append(gen_color32(value.weak_bg_fill).as_str());
    out.append(",
        bg_stroke: ");
    out.append(gen_stroke(&value.bg_stroke).as_str());
    out.append(",
        rounding: ");
    out.append(gen_rounding(&value.rounding).as_str());
    out.append(",
        fg_stroke: ");
    out.append(gen_stroke(&value.fg_stroke).as_str());
    out.append(",
        expansion: ");
    out.append(value.expansion.as_str());
    out.append(",
    }");
    out
}

/// The corners of a rounding are rendered each on its own: two roundings that
/// differ in the south-east corner alone are rendered alike up to that corner
/// and after it.
pub proof fn lemma_corner_independence_in_source(a: RoundingView, b: RoundingView)
    requires
        a.nw == b.nw,
        a.ne == b.ne,
        a.sw == b.sw,
    ensures
        rounding_literal(a) == rounding_literal_head(a) + a.se + " }"@,
        rounding_literal(b) == rounding_literal_head(a) + b.se + " }"@,
{
}

} // verus!
