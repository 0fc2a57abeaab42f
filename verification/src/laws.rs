//! What holds of the codec: reading what was written gives it back, and what
//! is read is valid.

use vstd::prelude::*;
use crate::fault::DecodeFault;
use crate::json::{find_from, JsonTree, mark};
use crate::leaves::{
    bool_tree, color_tree, lemma_color_round_trip, lemma_wrap_mode_round_trip,
    optional_color_of, optional_color_tree, scalar_of, scalar_tree, wrap_mode_tree,
};
use crate::model::{
    Color, InteractionView, MarginView, number_as_float, RoundingView, ScrollStyleView,
    SelectionView, ShadowView, SpacingView, StrokeView, StyleModelView, TextCursorView,
    Vector2View, VisualsView, WidgetsView, WidgetVisualsView,
};
use crate::records::{
    interaction_of, interaction_tree, margin_of, margin_tree, rounding_of, rounding_tree,
    scroll_style_of, scroll_style_tree, selection_of, selection_tree, shadow_of, shadow_tree,
    spacing_of, spacing_tree, stroke_of, stroke_tree, style_of, style_tree, text_cursor_of,
    text_cursor_tree, vector2_of, vector2_tree, visuals_of, visuals_tree, widget_visuals_of,
    widget_visuals_tree, widgets_of, widgets_tree,
};
use crate::text::{is_float_literal, is_number, lemma_integer_with_fraction};

verus! {

/// Reading the tree of a colour that may be left out gives it back.
pub proof fn lemma_optional_color_round_trip(color: Option<Color>)
    ensures
        optional_color_of(optional_color_tree(color)) == Ok::<Option<Color>, DecodeFault>(color),
{
    if let Some(c) = color {
        lemma_color_round_trip(c);
    }
}

/// A measure that is read from a tree is a floating-point literal.
pub proof fn lemma_scalar_read_valid(tree: JsonTree)
    ensures
        scalar_of(tree) matches Ok(value) ==> is_float_literal(value),
{
    if let JsonTree::Number(n) = tree {
        if is_number(n) && number_as_float(n) != n {
            lemma_integer_with_fraction(n);
        }
    }
}

/// The members of the tree of a vector are found under their names.
proof fn lemma_vector2_members(value: Vector2View)
    ensures
        vector2_tree(value).member("x"@) == Some(scalar_tree(value.x)),
        vector2_tree(value).member("y"@) == Some(scalar_tree(value.y)),
{
    reveal(vector2_tree);
    reveal_strlit("x");
    reveal_strlit("y");
    assert(mark("x"@, 0) == (1nat, 'x'));
    assert(mark("y"@, 0) == (1nat, 'y'));
    reveal_with_fuel(find_from, 3);
}

/// Reading the tree of a vector gives it back.
pub proof fn lemma_vector2_round_trip(value: Vector2View)
    requires
        value.valid(),
    ensures
        vector2_of(vector2_tree(value)) == Ok::<Vector2View, DecodeFault>(value),
{
    reveal(vector2_of);
    lemma_vector2_members(value);
}

/// A vector that is read from a tree is valid: every measure in it is a
/// floating-point literal.
pub proof fn lemma_vector2_read_valid(tree: JsonTree)
    ensures
        vector2_of(tree) matches Ok(value) ==> value.valid(),
{
    reveal(vector2_of);
    lemma_scalar_read_valid(tree.member("x"@)->Some_0);
    lemma_scalar_read_valid(tree.member("y"@)->Some_0);
}

/// The members of the tree of a margin are found under their names.
proof fn lemma_margin_members(value: MarginView)
    ensures
        margin_tree(value).member("left"@) == Some(scalar_tree(value.left)),
        margin_tree(value).member("right"@) == Some(scalar_tree(value.right)),
        margin_tree(value).member("top"@) == Some(scalar_tree(value.top)),
        margin_tree(value).member("bottom"@) == Some(scalar_tree(value.bottom)),
{
    reveal(margin_tree);
    reveal_strlit("left");
    reveal_strlit("right");
    reveal_strlit("top");
    reveal_strlit("bottom");
    assert(mark("left"@, 0) == (4nat, 'l'));
    assert(mark("right"@, 0) == (5nat, 'r'));
    assert(mark("top"@, 0) == (3nat, 't'));
    assert(mark("bottom"@, 0) == (6nat, 'b'));
    reveal_with_fuel(find_from, 5);
}

/// Reading the tree of a margin gives it back.
pub proof fn lemma_margin_round_trip(value: MarginView)
    requires
        value.valid(),
    ensures
        margin_of(margin_tree(value)) == Ok::<MarginView, DecodeFault>(value),
{
    reveal(margin_of);
    lemma_margin_members(value);
}

/// A margin that is read from a tree is valid: every measure in it is a
/// floating-point literal.
pub proof fn lemma_margin_read_valid(tree: JsonTree)
    ensures
        margin_of(tree) matches Ok(value) ==> value.valid(),
{
    reveal(margin_of);
    lemma_scalar_read_valid(tree.member("left"@)->Some_0);
    lemma_scalar_read_valid(tree.member("right"@)->Some_0);
    lemma_scalar_read_valid(tree.member("top"@)->Some_0);
    lemma_scalar_read_valid(tree.member("bottom"@)->Some_0);
}

/// The members of the tree of a rounding are found under their names.
proof fn lemma_rounding_members(value: RoundingView)
    ensures
        rounding_tree(value).member("nw"@) == Some(scalar_tree(value.nw)),
        rounding_tree(value).member("ne"@) == Some(scalar_tree(value.ne)),
        rounding_tree(value).member("sw"@) == Some(scalar_tree(value.sw)),
        rounding_tree(value).member("se"@) == Some(scalar_tree(value.se)),
{
    reveal(rounding_tree);
    reveal_strlit("nw");
    reveal_strlit("ne");
    reveal_strlit("sw");
    reveal_strlit("se");
    assert(mark("nw"@, 0) == (2nat, 'n'));
    assert(mark("ne"@, 0) == (2nat, 'n'));
    assert(mark("sw"@, 0) == (2nat, 's'));
    assert(mark("se"@, 0) == (2nat, 's'));
    assert(mark("nw"@, 1) == (2nat, 'w'));
    assert(mark("ne"@, 1) == (2nat, 'e'));
    assert(mark("sw"@, 1) == (2nat, 'w'));
    assert(mark("se"@, 1) == (2nat, 'e'));
    reveal_with_fuel(find_from, 5);
}

/// Reading the tree of a rounding gives it back.
pub proof fn lemma_rounding_round_trip(value: RoundingView)
    requires
        value.valid(),
    ensures
        rounding_of(rounding_tree(value)) == Ok::<RoundingView, DecodeFault>(value),
{
    reveal(rounding_of);
    lemma_rounding_members(value);
}

/// A rounding that is read from a tree is valid: every measure in it is a
/// floating-point literal.
pub proof fn lemma_rounding_read_valid(tree: JsonTree)
    ensures
        rounding_of(tree) matches Ok(value) ==> value.valid(),
{
    reveal(rounding_of);
    lemma_scalar_read_valid(tree.member("nw"@)->Some_0);
    lemma_scalar_read_valid(tree.member("ne"@)->Some_0);
    lemma_scalar_read_valid(tree.member("sw"@)->Some_0);
    lemma_scalar_read_valid(tree.member("se"@)->Some_0);
}

/// The members of the tree of a stroke are found under their names.
proof fn lemma_stroke_members(value: StrokeView)
    ensures
        stroke_tree(value).member("width"@) == Some(scalar_tree(value.width)),
        stroke_tree(value).member("color"@) == Some(color_tree(value.color)),
{
    reveal(stroke_tree);
    reveal_strlit("width");
    reveal_strlit("color");
    assert(mark("width"@, 0) == (5nat, 'w'));
    assert(mark("color"@, 0) == (5nat, 'c'));
    reveal_with_fuel(find_from, 3);
}

/// Reading the tree of a stroke gives it back.
pub proof fn lemma_stroke_round_trip(value: StrokeView)
    requires
        value.valid(),
    ensures
        stroke_of(stroke_tree(value)) == Ok::<StrokeView, DecodeFault>(value),
{
    reveal(stroke_of);
    lemma_stroke_members(value);
    lemma_color_round_trip(value.color);
}

/// A stroke that is read from a tree is valid: every measure in it is a
/// floating-point literal.
pub proof fn lemma_stroke_read_valid(tree: JsonTree)
    ensures
        stroke_of(tree) matches Ok(value) ==> value.valid(),
{
    reveal(stroke_of);
    lemma_scalar_read_valid(tree.member("width"@)->Some_0);
}

/// The members of the tree of a shadow are found under their names.
proof fn lemma_shadow_members(value: ShadowView)
    ensures
        shadow_tree(value).member("offset"@) == Some(vector2_tree(value.offset)),
        shadow_tree(value).member("blur"@) == Some(scalar_tree(value.blur)),
        shadow_tree(value).member("spread"@) == Some(scalar_tree(value.spread)),
        shadow_tree(value).member("color"@) == Some(color_tree(value.color)),
{
    reveal(shadow_tree);
    reveal_strlit("offset");
    reveal_strlit("blur");
    reveal_strlit("spread");
    reveal_strlit("color");
    assert(mark("offset"@, 0) == (6nat, 'o'));
    assert(mark("blur"@, 0) == (4nat, 'b'));
    assert(mark("spread"@, 0) == (6nat, 's'));
    assert(mark("color"@, 0) == (5nat, 'c'));
    reveal_with_fuel(find_from, 5);
}

/// Reading the tree of a shadow gives it back.
pub proof fn lemma_shadow_round_trip(value: ShadowView)
    requires
        value.valid(),
    ensures
        shadow_of(shadow_tree(value)) == Ok::<ShadowView, DecodeFault>(value),
{
    reveal(shadow_of);
    lemma_shadow_members(value);
    lemma_vector2_round_trip(value.offset);
    lemma_color_round_trip(value.color);
}

/// A shadow that is read from a tree is valid: every measure in it is a
/// floating-point literal.
pub proof fn lemma_shadow_read_valid(tree: JsonTree)
    ensures
        shadow_of(tree) matches Ok(value) ==> value.valid(),
{
    reveal(shadow_of);
    lemma_vector2_read_valid(tree.member("offset"@)->Some_0);
    lemma_scalar_read_valid(tree.member("blur"@)->Some_0);
    lemma_scalar_read_valid(tree.member("spread"@)->Some_0);
}

/// The members of the tree of the look of a widget are found under their names.
proof fn lemma_widget_visuals_members(value: WidgetVisualsView)
    ensures
        widget_visuals_tree(value).member("bg_fill"@) == Some(color_tree(value.bg_fill)),
        widget_visuals_tree(value).member("weak_bg_fill"@) == Some(color_tree(value.weak_bg_fill)),
        widget_visuals_tree(value).member("bg_stroke"@) == Some(stroke_tree(value.bg_stroke)),
        widget_visuals_tree(value).member("rounding"@) == Some(rounding_tree(value.rounding)),
        widget_visuals_tree(value).member("fg_stroke"@) == Some(stroke_tree(value.fg_stroke)),
        widget_visuals_tree(value).member("expansion"@) == Some(scalar_tree(value.expansion)),
{
    reveal(widget_visuals_tree);
    reveal_strlit("bg_fill");
    reveal_strlit("weak_bg_fill");
    reveal_strlit("bg_stroke");
    reveal_strlit("rounding");
    reveal_strlit("fg_stroke");
    reveal_strlit("expansion");
    assert(mark("bg_fill"@, 0) == (7nat, 'b'));
    assert(mark("weak_bg_fill"@, 0) == (12nat, 'w'));
    assert(mark("bg_stroke"@, 0) == (9nat, 'b'));
    assert(mark("rounding"@, 0) == (8nat, 'r'));
    assert(mark("fg_stroke"@, 0) == (9nat, 'f'));
    assert(mark("expansion"@, 0) == (9nat, 'e'));
    reveal_with_fuel(find_from, 7);
}

/// Reading the tree of the look of a widget gives it back.
pub proof fn lemma_widget_visuals_round_trip(value: WidgetVisualsView)
    requires
        value.valid(),
    ensures
        widget_visuals_of(widget_visuals_tree(value)) == Ok::<WidgetVisualsView, DecodeFault>(
            value,
        ),
{
    reveal(widget_visuals_of);
    lemma_widget_visuals_members(value);
    lemma_color_round_trip(value.bg_fill);
    lemma_color_round_trip(value.weak_bg_fill);
    lemma_stroke_round_trip(value.bg_stroke);
    lemma_rounding_round_trip(value.rounding);
    lemma_stroke_round_trip(value.fg_stroke);
}

/// The look of a widget that is read from a tree is valid: every measure in it
/// is a floating-point literal.
pub proof fn lemma_widget_visuals_read_valid(tree: JsonTree)
    ensures
        widget_visuals_of(tree) matches Ok(value) ==> value.valid(),
{
    reveal(widget_visuals_of);
    lemma_stroke_read_valid(tree.member("bg_stroke"@)->Some_0);
    lemma_rounding_read_valid(tree.member("rounding"@)->Some_0);
    lemma_stroke_read_valid(tree.member("fg_stroke"@)->Some_0);
    lemma_scalar_read_valid(tree.member("expansion"@)->Some_0);
}

/// The members of the tree of the looks of the widget states are found under their names.
proof fn lemma_widgets_members(value: WidgetsView)
    ensures
        widgets_tree(value).member("noninteractive"@) == Some(
            widget_visuals_tree(value.noninteractive),
        ),
        widgets_tree(value).member("inactive"@) == Some(widget_visuals_tree(value.inactive)),
        widgets_tree(value).member("hovered"@) == Some(widget_visuals_tree(value.hovered)),
        widgets_tree(value).member("active"@) == Some(widget_visuals_tree(value.active)),
        widgets_tree(value).member("open"@) == Some(widget_visuals_tree(value.open)),
{
    reveal(widgets_tree);
    reveal_strlit("noninteractive");
    reveal_strlit("inactive");
    reveal_strlit("hovered");
    reveal_strlit("active");
    reveal_strlit("open");
    assert(mark("noninteractive"@, 0) == (14nat, 'n'));
    assert(mark("inactive"@, 0) == (8nat, 'i'));
    assert(mark("hovered"@, 0) == (7nat, 'h'));
    assert(mark("active"@, 0) == (6nat, 'a'));
    assert(mark("open"@, 0) == (4nat, 'o'));
    reveal_with_fuel(find_from, 6);
}

/// Reading the tree of the looks of the widget states gives it back.
pub proof fn lemma_widgets_round_trip(value: WidgetsView)
    requires
        value.valid(),
    ensures
        widgets_of(widgets_tree(value)) == Ok::<WidgetsView, DecodeFault>(value),
{
    reveal(widgets_of);
    lemma_widgets_members(value);
    lemma_widget_visuals_round_trip(value.noninteractive);
    lemma_widget_visuals_round_trip(value.inactive);
    lemma_widget_visuals_round_trip(value.hovered);
    lemma_widget_visuals_round_trip(value.active);
    lemma_widget_visuals_round_trip(value.open);
}

/// The looks of the widget states that is read from a tree is valid: every
/// measure in it is a floating-point literal.
pub proof fn lemma_widgets_read_valid(tree: JsonTree)
    ensures
        widgets_of(tree) matches Ok(value) ==> value.valid(),
{
    reveal(widgets_of);
    lemma_widget_visuals_read_valid(tree.member("noninteractive"@)->Some_0);
    lemma_widget_visuals_read_valid(tree.member("inactive"@)->Some_0);
    lemma_widget_visuals_read_valid(tree.member("hovered"@)->Some_0);
    lemma_widget_visuals_read_valid(tree.member("active"@)->Some_0);
    lemma_widget_visuals_read_valid(tree.member("open"@)->Some_0);
}

/// The members of the tree of the look of a selection are found under their names.
proof fn lemma_selection_members(value: SelectionView)
    ensures
        selection_tree(value).member("bg_fill"@) == Some(color_tree(value.bg_fill)),
        selection_tree(value).member("stroke"@) == Some(stroke_tree(value.stroke)),
{
    reveal(selection_tree);
    reveal_strlit("bg_fill");
    reveal_strlit("stroke");
    assert(mark("bg_fill"@, 0) == (7nat, 'b'));
    assert(mark("stroke"@, 0) == (6nat, 's'));
    reveal_with_fuel(find_from, 3);
}

/// Reading the tree of the look of a selection gives it back.
pub proof fn lemma_selection_round_trip(value: SelectionView)
    requires
        value.valid(),
    ensures
        selection_of(selection_tree(value)) == Ok::<SelectionView, DecodeFault>(value),
{
    reveal(selection_of);
    lemma_selection_members(value);
    lemma_color_round_trip(value.bg_fill);
    lemma_stroke_round_trip(value.stroke);
}

/// The look of a selection that is read from a tree is valid: every measure in
/// it is a floating-point literal.
pub proof fn lemma_selection_read_valid(tree: JsonTree)
    ensures
        selection_of(tree) matches Ok(value) ==> value.valid(),
{
    reveal(selection_of);
    lemma_stroke_read_valid(tree.member("stroke"@)->Some_0);
}

/// The members of the tree of the look of the text cursor are found under their names.
proof fn lemma_text_cursor_members(value: TextCursorView)
    ensures
        text_cursor_tree(value).member("stroke"@) == Some(stroke_tree(value.stroke)),
        text_cursor_tree(value).member("preview"@) == Some(bool_tree(value.preview)),
{
    reveal(text_cursor_tree);
    reveal_strlit("stroke");
    reveal_strlit("preview");
    assert(mark("stroke"@, 0) == (6nat, 's'));
    assert(mark("preview"@, 0) == (7nat, 'p'));
    reveal_with_fuel(find_from, 3);
}

/// Reading the tree of the look of the text cursor gives it back.
pub proof fn lemma_text_cursor_round_trip(value: TextCursorView)
    requires
        value.valid(),
    ensures
        text_cursor_of(text_cursor_tree(value)) == Ok::<TextCursorView, DecodeFault>(value),
{
    reveal(text_cursor_of);
    lemma_text_cursor_members(value);
    lemma_stroke_round_trip(value.stroke);
}

/// The look of the text cursor that is read from a tree is valid: every measure
/// in it is a floating-point literal.
pub proof fn lemma_text_cursor_read_valid(tree: JsonTree)
    ensures
        text_cursor_of(tree) matches Ok(value) ==> value.valid(),
{
    reveal(text_cursor_of);
    lemma_stroke_read_valid(tree.member("stroke"@)->Some_0);
}

/// The members of the tree of the measures of scroll bars are found under their names.
proof fn lemma_scroll_style_members(value: ScrollStyleView)
    ensures
        scroll_style_tree(value).member("bar_width"@) == Some(scalar_tree(value.bar_width)),
        scroll_style_tree(value).member("handle_min_length"@) == Some(
            scalar_tree(value.handle_min_length),
        ),
        scroll_style_tree(value).member("bar_inner_margin"@) == Some(
            scalar_tree(value.bar_inner_margin),
        ),
        scroll_style_tree(value).member("bar_outer_margin"@) == Some(
            scalar_tree(value.bar_outer_margin),
        ),
{
    reveal(scroll_style_tree);
    reveal_strlit("bar_width");
    reveal_strlit("handle_min_length");
    reveal_strlit("bar_inner_margin");
    reveal_strlit("bar_outer_margin");
    assert(mark("bar_width"@, 0) == (9nat, 'b'));
    assert(mark("handle_min_length"@, 0) == (17nat, 'h'));
    assert(mark("bar_inner_margin"@, 0) == (16nat, 'b'));
    assert(mark("bar_outer_margin"@, 0) == (16nat, 'b'));
    assert(mark("bar_width"@, 4) == (9nat, 'w'));
    assert(mark("handle_min_length"@, 4) == (17nat, 'l'));
    assert(mark("bar_inner_margin"@, 4) == (16nat, 'i'));
    assert(mark("bar_outer_margin"@, 4) == (16nat, 'o'));
    reveal_with_fuel(find_from, 5);
}

/// Reading the tree of the measures of scroll bars gives it back.
pub proof fn lemma_scroll_style_round_trip(value: ScrollStyleView)
    requires
        value.valid(),
    ensures
        scroll_style_of(scroll_style_tree(value)) == Ok::<ScrollStyleView, DecodeFault>(value),
{
    reveal(scroll_style_of);
    lemma_scroll_style_members(value);
}

/// The measures of scroll bars that is read from a tree is valid: every measure
/// in it is a floating-point literal.
pub proof fn lemma_scroll_style_read_valid(tree: JsonTree)
    ensures
        scroll_style_of(tree) matches Ok(value) ==> value.valid(),
{
    reveal(scroll_style_of);
    lemma_scalar_read_valid(tree.member("bar_width"@)->Some_0);
    lemma_scalar_read_valid(tree.member("handle_min_length"@)->Some_0);
    lemma_scalar_read_valid(tree.member("bar_inner_margin"@)->Some_0);
    lemma_scalar_read_valid(tree.member("bar_outer_margin"@)->Some_0);
}

/// The members of the tree of the spacing are found under their names.
proof fn lemma_spacing_members(value: SpacingView)
    ensures
        spacing_tree(value).member("item_spacing"@) == Some(vector2_tree(value.item_spacing)),
        spacing_tree(value).member("window_margin"@) == Some(margin_tree(value.window_margin)),
        spacing_tree(value).member("button_padding"@) == Some(vector2_tree(value.button_padding)),
        spacing_tree(value).member("menu_margin"@) == Some(margin_tree(value.menu_margin)),
        spacing_tree(value).member("indent"@) == Some(scalar_tree(value.indent)),
        spacing_tree(value).member("interact_size"@) == Some(vector2_tree(value.interact_size)),
        spacing_tree(value).member("slider_width"@) == Some(scalar_tree(value.slider_width)),
        spacing_tree(value).member("combo_width"@) == Some(scalar_tree(value.combo_width)),
        spacing_tree(value).member("text_edit_width"@) == Some(scalar_tree(value.text_edit_width)),
        spacing_tree(value).member("icon_width"@) == Some(scalar_tree(value.icon_width)),
        spacing_tree(value).member("icon_width_inner"@) == Some(
            scalar_tree(value.icon_width_inner),
        ),
        spacing_tree(value).member("icon_spacing"@) == Some(scalar_tree(value.icon_spacing)),
        spacing_tree(value).member("tooltip_width"@) == Some(scalar_tree(value.tooltip_width)),
        spacing_tree(value).member("indent_ends_with_horizontal_line"@) == Some(
            bool_tree(value.indent_ends_with_horizontal_line),
        ),
        spacing_tree(value).member("combo_height"@) == Some(scalar_tree(value.combo_height)),
        spacing_tree(value).member("scroll"@) == Some(scroll_style_tree(value.scroll)),
{
    reveal(spacing_tree);
    reveal_strlit("item_spacing");
    reveal_strlit("window_margin");
    reveal_strlit("button_padding");
    reveal_strlit("menu_margin");
    reveal_strlit("indent");
    reveal_strlit("interact_size");
    reveal_strlit("slider_width");
    reveal_strlit("combo_width");
    reveal_strlit("text_edit_width");
    reveal_strlit("icon_width");
    reveal_strlit("icon_width_inner");
    reveal_strlit("icon_spacing");
    reveal_strlit("tooltip_width");
    reveal_strlit("indent_ends_with_horizontal_line");
    reveal_strlit("combo_height");
    reveal_strlit("scroll");
    assert(mark("item_spacing"@, 0) == (12nat, 'i'));
    assert(mark("window_margin"@, 0) == (13nat, 'w'));
    assert(mark("button_padding"@, 0) == (14nat, 'b'));
    assert(mark("menu_margin"@, 0) == (11nat, 'm'));
    assert(mark("indent"@, 0) == (6nat, 'i'));
    assert(mark("interact_size"@, 0) == (13nat, 'i'));
    assert(mark("slider_width"@, 0) == (12nat, 's'));
    assert(mark("combo_width"@, 0) == (11nat, 'c'));
    assert(mark("text_edit_width"@, 0) == (15nat, 't'));
    assert(mark("icon_width"@, 0) == (10nat, 'i'));
    assert(mark("icon_width_inner"@, 0) == (16nat, 'i'));
    assert(mark("icon_spacing"@, 0) == (12nat, 'i'));
    assert(mark("tooltip_width"@, 0) == (13nat, 't'));
    assert(mark("indent_ends_with_horizontal_line"@, 0) == (32nat, 'i'));
    assert(mark("combo_height"@, 0) == (12nat, 'c'));
    assert(mark("scroll"@, 0) == (6nat, 's'));
    assert(mark("item_spacing"@, 1) == (12nat, 't'));
    assert(mark("window_margin"@, 1) == (13nat, 'i'));
    assert(mark("button_padding"@, 1) == (14nat, 'u'));
    assert(mark("menu_margin"@, 1) == (11nat, 'e'));
    assert(mark("indent"@, 1) == (6nat, 'n'));
    assert(mark("interact_size"@, 1) == (13nat, 'n'));
    assert(mark("slider_width"@, 1) == (12nat, 'l'));
    assert(mark("combo_width"@, 1) == (11nat, 'o'));
    assert(mark("text_edit_width"@, 1) == (15nat, 'e'));
    assert(mark("icon_width"@, 1) == (10nat, 'c'));
    assert(mark("icon_width_inner"@, 1) == (16nat, 'c'));
    assert(mark("icon_spacing"@, 1) == (12nat, 'c'));
    assert(mark("tooltip_width"@, 1) == (13nat, 'o'));
    assert(mark("indent_ends_with_horizontal_line"@, 1) == (32nat, 'n'));
    assert(mark("combo_height"@, 1) == (12nat, 'o'));
    assert(mark("scroll"@, 1) == (6nat, 'c'));
    reveal_with_fuel(find_from, 17);
}

/// Reading the tree of the spacing gives it back.
pub proof fn lemma_spacing_round_trip(value: SpacingView)
    requires
        value.valid(),
    ensures
        spacing_of(spacing_tree(value)) == Ok::<SpacingView, DecodeFault>(value),
{
    reveal(spacing_of);
    lemma_spacing_members(value);
    lemma_vector2_round_trip(value.item_spacing);
    lemma_margin_round_trip(value.window_margin);
    lemma_vector2_round_trip(value.button_padding);
    lemma_margin_round_trip(value.menu_margin);
    lemma_vector2_round_trip(value.interact_size);
    lemma_scroll_style_round_trip(value.scroll);
}

/// The spacing that is read from a tree is valid: every measure in it is a
/// floating-point literal.
pub proof fn lemma_spacing_read_valid(tree: JsonTree)
    ensures
        spacing_of(tree) matches Ok(value) ==> value.valid(),
{
    reveal(spacing_of);
    lemma_vector2_read_valid(tree.member("item_spacing"@)->Some_0);
    lemma_margin_read_valid(tree.member("window_margin"@)->Some_0);
    lemma_vector2_read_valid(tree.member("button_padding"@)->Some_0);
    lemma_margin_read_valid(tree.member("menu_margin"@)->Some_0);
    lemma_scalar_read_valid(tree.member("indent"@)->Some_0);
    lemma_vector2_read_valid(tree.member("interact_size"@)->Some_0);
    lemma_scalar_read_valid(tree.member("slider_width"@)->Some_0);
    lemma_scalar_read_valid(tree.member("combo_width"@)->Some_0);
    lemma_scalar_read_valid(tree.member("text_edit_width"@)->Some_0);
    lemma_scalar_read_valid(tree.member("icon_width"@)->Some_0);
    lemma_scalar_read_valid(tree.member("icon_width_inner"@)->Some_0);
    lemma_scalar_read_valid(tree.member("icon_spacing"@)->Some_0);
    lemma_scalar_read_valid(tree.member("tooltip_width"@)->Some_0);
    lemma_scalar_read_valid(tree.member("combo_height"@)->Some_0);
    lemma_scroll_style_read_valid(tree.member("scroll"@)->Some_0);
}

/// The members of the tree of the interaction settings are found under their names.
proof fn lemma_interaction_members(value: InteractionView)
    ensures
        interaction_tree(value).member("resize_grab_radius_side"@) == Some(
            scalar_tree(value.resize_grab_radius_side),
        ),
        interaction_tree(value).member("resize_grab_radius_corner"@) == Some(
            scalar_tree(value.resize_grab_radius_corner),
        ),
        interaction_tree(value).member("show_tooltips_only_when_still"@) == Some(
            bool_tree(value.show_tooltips_only_when_still),
        ),
{
    reveal(interaction_tree);
    reveal_strlit("resize_grab_radius_side");
    reveal_strlit("resize_grab_radius_corner");
    reveal_strlit("show_tooltips_only_when_still");
    assert(mark("resize_grab_radius_side"@, 0) == (23nat, 'r'));
    assert(mark("resize_grab_radius_corner"@, 0) == (25nat, 'r'));
    assert(mark("show_tooltips_only_when_still"@, 0) == (29nat, 's'));
    reveal_with_fuel(find_from, 4);
}

/// Reading the tree of the interaction settings gives it back.
pub proof fn lemma_interaction_round_trip(value: InteractionView)
    requires
        value.valid(),
    ensures
        interaction_of(interaction_tree(value)) == Ok::<InteractionView, DecodeFault>(value),
{
    reveal(interaction_of);
    lemma_interaction_members(value);
}

/// The interaction settings that is read from a tree is valid: every measure in
/// it is a floating-point literal.
pub proof fn lemma_interaction_read_valid(tree: JsonTree)
    ensures
        interaction_of(tree) matches Ok(value) ==> value.valid(),
{
    reveal(interaction_of);
    lemma_scalar_read_valid(tree.member("resize_grab_radius_side"@)->Some_0);
    lemma_scalar_read_valid(tree.member("resize_grab_radius_corner"@)->Some_0);
}

/// The members of the tree of the visuals are found under their names.
proof fn lemma_visuals_members(value: VisualsView)
    ensures
        visuals_tree(value).member("dark_mode"@) == Some(bool_tree(value.dark_mode)),
        visuals_tree(value).member("override_text_color"@) == Some(
            optional_color_tree(value.override_text_color),
        ),
        visuals_tree(value).member("widgets"@) == Some(widgets_tree(value.widgets)),
        visuals_tree(value).member("selection"@) == Some(selection_tree(value.selection)),
        visuals_tree(value).member("hyperlink_color"@) == Some(color_tree(value.hyperlink_color)),
        visuals_tree(value).member("faint_bg_color"@) == Some(color_tree(value.faint_bg_color)),
        visuals_tree(value).member("extreme_bg_color"@) == Some(color_tree(value.extreme_bg_color)),
        visuals_tree(value).member("code_bg_color"@) == Some(color_tree(value.code_bg_color)),
        visuals_tree(value).member("warn_fg_color"@) == Some(color_tree(value.warn_fg_color)),
        visuals_tree(value).member("error_fg_color"@) == Some(color_tree(value.error_fg_color)),
        visuals_tree(value).member("window_rounding"@) == Some(
            rounding_tree(value.window_rounding),
        ),
        visuals_tree(value).member("window_shadow"@) == Some(shadow_tree(value.window_shadow)),
        visuals_tree(value).member("window_fill"@) == Some(color_tree(value.window_fill)),
        visuals_tree(value).member("window_stroke"@) == Some(stroke_tree(value.window_stroke)),
        visuals_tree(value).member("menu_rounding"@) == Some(rounding_tree(value.menu_rounding)),
        visuals_tree(value).member("panel_fill"@) == Some(color_tree(value.panel_fill)),
        visuals_tree(value).member("popup_shadow"@) == Some(shadow_tree(value.popup_shadow)),
        visuals_tree(value).member("resize_corner_size"@) == Some(
            scalar_tree(value.resize_corner_size),
        ),
        visuals_tree(value).member("text_cursor"@) == Some(text_cursor_tree(value.text_cursor)),
        visuals_tree(value).member("clip_rect_margin"@) == Some(
            scalar_tree(value.clip_rect_margin),
        ),
        visuals_tree(value).member("button_frame"@) == Some(bool_tree(value.button_frame)),
        visuals_tree(value).member("collapsing_header_frame"@) == Some(
            bool_tree(value.collapsing_header_frame),
        ),
        visuals_tree(value).member("indent_has_left_vline"@) == Some(
            bool_tree(value.indent_has_left_vline),
        ),
        visuals_tree(value).member("striped"@) == Some(bool_tree(value.striped)),
        visuals_tree(value).member("slider_trailing_fill"@) == Some(
            bool_tree(value.slider_trailing_fill),
        ),
{
    reveal(visuals_tree);
    reveal_strlit("dark_mode");
    reveal_strlit("override_text_color");
    reveal_strlit("widgets");
    reveal_strlit("selection");
    reveal_strlit("hyperlink_color");
    reveal_strlit("faint_bg_color");
    reveal_strlit("extreme_bg_color");
    reveal_strlit("code_bg_color");
    reveal_strlit("warn_fg_color");
    reveal_strlit("error_fg_color");
    reveal_strlit("window_rounding");
    reveal_strlit("window_shadow");
    reveal_strlit("window_fill");
    reveal_strlit("window_stroke");
    reveal_strlit("menu_rounding");
    reveal_strlit("panel_fill");
    reveal_strlit("popup_shadow");
    reveal_strlit("resize_corner_size");
    reveal_strlit("text_cursor");
    reveal_strlit("clip_rect_margin");
    reveal_strlit("button_frame");
    reveal_strlit("collapsing_header_frame");
    reveal_strlit("indent_has_left_vline");
    reveal_strlit("striped");
    reveal_strlit("slider_trailing_fill");
    assert(mark("dark_mode"@, 0) == (9nat, 'd'));
    assert(mark("override_text_color"@, 0) == (19nat, 'o'));
    assert(mark("widgets"@, 0) == (7nat, 'w'));
    assert(mark("selection"@, 0) == (9nat, 's'));
    assert(mark("hyperlink_color"@, 0) == (15nat, 'h'));
    assert(mark("faint_bg_color"@, 0) == (14nat, 'f'));
    assert(mark("extreme_bg_color"@, 0) == (16nat, 'e'));
    assert(mark("code_bg_color"@, 0) == (13nat, 'c'));
    assert(mark("warn_fg_color"@, 0) == (13nat, 'w'));
    assert(mark("error_fg_color"@, 0) == (14nat, 'e'));
    assert(mark("window_rounding"@, 0) == (15nat, 'w'));
    assert(mark("window_shadow"@, 0) == (13nat, 'w'));
    assert(mark("window_fill"@, 0) == (11nat, 'w'));
    assert(mark("window_stroke"@, 0) == (13nat, 'w'));
    assert(mark("menu_rounding"@, 0) == (13nat, 'm'));
    assert(mark("panel_fill"@, 0) == (10nat, 'p'));
    assert(mark("popup_shadow"@, 0) == (12nat, 'p'));
    assert(mark("resize_corner_size"@, 0) == (18nat, 'r'));
    assert(mark("text_cursor"@, 0) == (11nat, 't'));
    assert(mark("clip_rect_margin"@, 0) == (16nat, 'c'));
    assert(mark("button_frame"@, 0) == (12nat, 'b'));
    assert(mark("collapsing_header_frame"@, 0) == (23nat, 'c'));
    assert(mark("indent_has_left_vline"@, 0) == (21nat, 'i'));
    assert(mark("striped"@, 0) == (7nat, 's'));
    assert(mark("slider_trailing_fill"@, 0) == (20nat, 's'));
    assert(mark("dark_mode"@, 8) == (9nat, 'e'));
    assert(mark("override_text_color"@, 8) == (19nat, '_'));
    assert(mark("widgets"@, 8) == (7nat, ' '));
    assert(mark("selection"@, 8) == (9nat, 'n'));
    assert(mark("hyperlink_color"@, 8) == (15nat, 'k'));
    assert(mark("faint_bg_color"@, 8) == (14nat, '_'));
    assert(mark("extreme_bg_color"@, 8) == (16nat, 'b'));
    assert(mark("code_bg_color"@, 8) == (13nat, 'c'));
    assert(mark("warn_fg_color"@, 8) == (13nat, 'c'));
    assert(mark("error_fg_color"@, 8) == (14nat, '_'));
    assert(mark("window_rounding"@, 8) == (15nat, 'o'));
    assert(mark("window_shadow"@, 8) == (13nat, 'h'));
    assert(mark("window_fill"@, 8) == (11nat, 'i'));
    assert(mark("window_stroke"@, 8) == (13nat, 't'));
    assert(mark("menu_rounding"@, 8) == (13nat, 'n'));
    assert(mark("panel_fill"@, 8) == (10nat, 'l'));
    assert(mark("popup_shadow"@, 8) == (12nat, 'a'));
    assert(mark("resize_corner_size"@, 8) == (18nat, 'o'));
    assert(mark("text_cursor"@, 8) == (11nat, 's'));
    assert(mark("clip_rect_margin"@, 8) == (16nat, 't'));
    assert(mark("button_frame"@, 8) == (12nat, 'r'));
    assert(mark("collapsing_header_frame"@, 8) == (23nat, 'n'));
    assert(mark("indent_has_left_vline"@, 8) == (21nat, 'a'));
    assert(mark("striped"@, 8) == (7nat, ' '));
    assert(mark("slider_trailing_fill"@, 8) == (20nat, 'r'));
    reveal_with_fuel(find_from, 26);
}

/// Reading the tree of the visuals gives it back.
pub proof fn lemma_visuals_round_trip(value: VisualsView)
    requires
        value.valid(),
    ensures
        visuals_of(visuals_tree(value)) == Ok::<VisualsView, DecodeFault>(value),
{
    reveal(visuals_of);
    lemma_visuals_members(value);
    lemma_optional_color_round_trip(value.override_text_color);
    lemma_widgets_round_trip(value.widgets);
    lemma_selection_round_trip(value.selection);
    lemma_color_round_trip(value.hyperlink_color);
    lemma_color_round_trip(value.faint_bg_color);
    lemma_color_round_trip(value.extreme_bg_color);
    lemma_color_round_trip(value.code_bg_color);
    lemma_color_round_trip(value.warn_fg_color);
    lemma_color_round_trip(value.error_fg_color);
    lemma_rounding_round_trip(value.window_rounding);
    lemma_shadow_round_trip(value.window_shadow);
    lemma_color_round_trip(value.window_fill);
    lemma_stroke_round_trip(value.window_stroke);
    lemma_rounding_round_trip(value.menu_rounding);
    lemma_color_round_trip(value.panel_fill);
    lemma_shadow_round_trip(value.popup_shadow);
    lemma_text_cursor_round_trip(value.text_cursor);
}

/// The visuals that is read from a tree is valid: every measure in it is a
/// floating-point literal.
pub proof fn lemma_visuals_read_valid(tree: JsonTree)
    ensures
        visuals_of(tree) matches Ok(value) ==> value.valid(),
{
    reveal(visuals_of);
    lemma_widgets_read_valid(tree.member("widgets"@)->Some_0);
    lemma_selection_read_valid(tree.member("selection"@)->Some_0);
    lemma_rounding_read_valid(tree.member("window_rounding"@)->Some_0);
    lemma_shadow_read_valid(tree.member("window_shadow"@)->Some_0);
    lemma_stroke_read_valid(tree.member("window_stroke"@)->Some_0);
    lemma_rounding_read_valid(tree.member("menu_rounding"@)->Some_0);
    lemma_shadow_read_valid(tree.member("popup_shadow"@)->Some_0);
    lemma_scalar_read_valid(tree.member("resize_corner_size"@)->Some_0);
    lemma_text_cursor_read_valid(tree.member("text_cursor"@)->Some_0);
    lemma_scalar_read_valid(tree.member("clip_rect_margin"@)->Some_0);
}

/// The members of the tree of a style are found under their names.
proof fn lemma_style_members(value: StyleModelView)
    ensures
        style_tree(value).member("wrap_mode"@) == Some(wrap_mode_tree(value.wrap_mode)),
        style_tree(value).member("spacing"@) == Some(spacing_tree(value.spacing)),
        style_tree(value).member("interaction"@) == Some(interaction_tree(value.interaction)),
        style_tree(value).member("visuals"@) == Some(visuals_tree(value.visuals)),
        style_tree(value).member("animation_time"@) == Some(scalar_tree(value.animation_time)),
        style_tree(value).member("explanation_tooltips"@) == Some(
            bool_tree(value.explanation_tooltips),
        ),
{
    reveal(style_tree);
    reveal_strlit("wrap_mode");
    reveal_strlit("spacing");
    reveal_strlit("interaction");
    reveal_strlit("visuals");
    reveal_strlit("animation_time");
    reveal_strlit("explanation_tooltips");
    assert(mark("wrap_mode"@, 0) == (9nat, 'w'));
    assert(mark("spacing"@, 0) == (7nat, 's'));
    assert(mark("interaction"@, 0) == (11nat, 'i'));
    assert(mark("visuals"@, 0) == (7nat, 'v'));
    assert(mark("animation_time"@, 0) == (14nat, 'a'));
    assert(mark("explanation_tooltips"@, 0) == (20nat, 'e'));
    reveal_with_fuel(find_from, 7);
}

/// Reading the tree of a style gives it back.
pub proof fn lemma_style_round_trip(value: StyleModelView)
    requires
        value.valid(),
    ensures
        style_of(style_tree(value)) == Ok::<StyleModelView, DecodeFault>(value),
{
    reveal(style_of);
    lemma_style_members(value);
    lemma_wrap_mode_round_trip(value.wrap_mode);
    lemma_spacing_round_trip(value.spacing);
    lemma_interaction_round_trip(value.interaction);
    lemma_visuals_round_trip(value.visuals);
}

/// A style that is read from a tree is valid: every measure in it is a
/// floating-point literal.
pub proof fn lemma_style_read_valid(tree: JsonTree)
    ensures
        style_of(tree) matches Ok(value) ==> value.valid(),
{
    reveal(style_of);
    lemma_spacing_read_valid(tree.member("spacing"@)->Some_0);
    lemma_interaction_read_valid(tree.member("interaction"@)->Some_0);
    lemma_visuals_read_valid(tree.member("visuals"@)->Some_0);
    lemma_scalar_read_valid(tree.member("animation_time"@)->Some_0);
}

/// The corners of a rounding are written each on its own: the trees of two
/// roundings that differ in the south-east corner alone differ in the member
/// `se` alone.
pub proof fn lemma_corner_independence_in_data(a: RoundingView, b: RoundingView)
    requires
        a.nw == b.nw,
        a.ne == b.ne,
        a.sw == b.sw,
    ensures
        rounding_tree(a) is Object,
        rounding_tree(b) == JsonTree::Object(
            rounding_tree(a)->Object_0.update(3, ("se"@, scalar_tree(b.se))),
        ),
        rounding_tree(a).member("nw"@) == rounding_tree(b).member("nw"@),
        rounding_tree(a).member("ne"@) == rounding_tree(b).member("ne"@),
        rounding_tree(a).member("sw"@) == rounding_tree(b).member("sw"@),
{
    reveal(rounding_tree);
    lemma_rounding_members(a);
    lemma_rounding_members(b);
    assert(rounding_tree(b)->Object_0 =~= rounding_tree(a)->Object_0.update(
        3,
        ("se"@, scalar_tree(b.se)),
    ));
}

} // verus!
