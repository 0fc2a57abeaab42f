//! What the template of the source generator is given: a tree that holds, for
//! each place of the template, the text that goes there.

use vstd::prelude::*;
use vstd::string::*;
use crate::json::{Json, JsonTree, lemma_member_views};
use crate::literal::{
    bool_literal, color32_literal, gen_bool, gen_color32, gen_optional_color, gen_rounding,
    gen_scalar, gen_stroke, gen_vec2, gen_widget_visuals, gen_wrap_mode, optional_color_literal,
    rounding_literal, stroke_literal, vec2_literal, widget_visuals_literal, wrap_mode_literal,
};
use crate::model::{
    Interaction, InteractionView, Margin, MarginView, ScrollStyle, ScrollStyleView, Selection,
    SelectionView, Shadow, ShadowView, Spacing, SpacingView, StyleModel, StyleModelView,
    TextCursor, TextCursorView, Visuals, VisualsView, Widgets, WidgetsView,
};

verus! {

/// What the template is given for a margin: for each field the text that is put
/// in its place, or the like for the fields of a record that the template
/// spells out.
#[verifier::opaque]
pub open spec fn margin_bindings(value: MarginView) -> JsonTree {
    JsonTree::Object(
        seq![
            ("left"@, JsonTree::Text(value.left)),
            ("right"@, JsonTree::Text(value.right)),
            ("top"@, JsonTree::Text(value.top)),
            ("bottom"@, JsonTree::Text(value.bottom)),
        ],
    )
}

/// Renders the fields of a margin for the template.
pub fn bind_margin(value: &Margin) -> (json: Json)
    ensures
        json@ == margin_bindings(value@),
{
    let members = vec![
        (String::from_str("left"), Json::Text(gen_scalar(&value.left))),
        (String::from_str("right"), Json::Text(gen_scalar(&value.right))),
        (String::from_str("top"), Json::Text(gen_scalar(&value.top))),
        (String::from_str("bottom"), Json::Text(gen_scalar(&value.bottom))),
    ];
    proof {
        reveal(margin_bindings);
        lemma_member_views(members@);
    }
    let json = Json::Object(members);
    assert(json@->Object_0 =~= margin_bindings(value@)->Object_0);
    json
}

/// What the template is given for a shadow: for each field the text that is put
/// in its place, or the like for the fields of a record that the template
/// spells out.
#[verifier::opaque]
pub open spec fn shadow_bindings(value: ShadowView) -> JsonTree {
    JsonTree::Object(
        seq![
            ("offset"@, JsonTree::Text(vec2_literal(value.offset))),
            ("blur"@, JsonTree::Text(value.blur)),
            ("spread"@, JsonTree::Text(value.spread)),
            ("color"@, JsonTree::Text(color32_literal(value.color))),
        ],
    )
}

/// Renders the fields of a shadow for the template.
pub fn bind_shadow(value: &Shadow) -> (json: Json)
    ensures
        json@ == shadow_bindings(value@),
{
    let members = vec![
        (String::from_str("offset"), Json::Text(gen_vec2(&value.offset))),
        (String::from_str("blur"), Json::Text(gen_scalar(&value.blur))),
        (String::from_str("spread"), Json::Text(gen_scalar(&value.spread))),
        (String::from_str("color"), Json::Text(gen_color32(value.color))),
    ];
    proof {
        reveal(shadow_bindings);
        lemma_member_views(members@);
    }
    let json = Json::Object(members);
    assert(json@->Object_0 =~= shadow_bindings(value@)->Object_0);
    json
}

/// What the template is given for the looks of the widget states: for each
/// field the text that is put in its place, or the like for the fields of a
/// record that the template spells out.
#[verifier::opaque]
pub open spec fn widgets_bindings(value: WidgetsView) -> JsonTree {
    JsonTree::Object(
        seq![
            ("noninteractive"@, JsonTree::Text(widget_visuals_literal(value.noninteractive))),
            ("inactive"@, JsonTree::Text(widget_visuals_literal(value.inactive))),
            ("hovered"@, JsonTree::Text(widget_visuals_literal(value.hovered))),
            ("active"@, JsonTree::Text(widget_visuals_literal(value.active))),
            ("open"@, JsonTree::Text(widget_visuals_literal(value.open))),
        ],
    )
}

/// Renders the fields of the looks of the widget states for the template.
pub fn bind_widgets(value: &Widgets) -> (json: Json)
    ensures
        json@ == widgets_bindings(value@),
{
    let members = vec![
        (String::from_str("noninteractive"), Json::Text(gen_widget_visuals(&value.noninteractive))),
        (String::from_str("inactive"), Json::Text(gen_widget_visuals(&value.inactive))),
        (String::from_str("hovered"), Json::Text(gen_widget_visuals(&value.hovered))),
        (String::from_str("active"), Json::Text(gen_widget_visuals(&value.active))),
        (String::from_str("open"), Json::Text(gen_widget_visuals(&value.open))),
    ];
    proof {
        reveal(widgets_bindings);
        lemma_member_views(members@);
    }
    let json = Json::Object(members);
    assert(json@->Object_0 =~= widgets_bindings(value@)->Object_0);
    json
}

/// What the template is given for the look of a selection: for each field the
/// text that is put in its place, or the like for the fields of a record that
/// the template spells out.
#[verifier::opaque]
pub open spec fn selection_bindings(value: SelectionView) -> JsonTree {
    JsonTree::Object(
        seq![
            ("bg_fill"@, JsonTree::Text(color32_literal(value.bg_fill))),
            ("stroke"@, JsonTree::Text(stroke_literal(value.stroke))),
        ],
    )
}

/// Renders the fields of the look of a selection for the template.
pub fn bind_selection(value: &Selection) -> (json: Json)
    ensures
        json@ == selection_bindings(value@),
{
    let members = vec![
        (String::from_str("bg_fill"), Json::Text(gen_color32(value.bg_fill))),
        (String::from_str("stroke"), Json::Text(gen_stroke(&value.stroke))),
    ];
    proof {
        reveal(selection_bindings);
        lemma_member_views(members@);
    }
    let json = Json::Object(members);
    assert(json@->Object_0 =~= selection_bindings(value@)->Object_0);
    json
}

/// What the template is given for the look of the text cursor: for each field
/// the text that is put in its place, or the like for the fields of a record
/// that the template spells out.
#[verifier::opaque]
pub open spec fn text_cursor_bindings(value: TextCursorView) -> JsonTree {
    JsonTree::Object(
        seq![
            ("stroke"@, JsonTree::Text(stroke_literal(value.stroke))),
            ("preview"@, JsonTree::Text(bool_literal(value.preview))),
        ],
    )
}

/// Renders the fields of the look of the text cursor for the template.
pub fn bind_text_cursor(value: &TextCursor) -> (json: Json)
    ensures
        json@ == text_cursor_bindings(value@),
{
    let members = vec![
        (String::from_str("stroke"), Json::Text(gen_stroke(&value.stroke))),
        (String::from_str("preview"), Json::Text(gen_bool(value.preview))),
    ];
    proof {
        reveal(text_cursor_bindings);
        lemma_member_views(members@);
    }
    let json = Json::Object(members);
    assert(json@->Object_0 =~= text_cursor_bindings(value@)->Object_0);
    json
}

/// What the template is given for the measures of scroll bars: for each field
/// the text that is put in its place, or the like for the fields of a record
/// that the template spells out.
#[verifier::opaque]
pub open spec fn scroll_style_bindings(value: ScrollStyleView) -> JsonTree {
    JsonTree::Object(
        seq![
            ("bar_width"@, JsonTree::Text(value.bar_width)),
            ("handle_min_length"@, JsonTree::Text(value.handle_min_length)),
            ("bar_inner_margin"@, JsonTree::Text(value.bar_inner_margin)),
            ("bar_outer_margin"@, JsonTree::Text(value.bar_outer_margin)),
        ],
    )
}

/// Renders the fields of the measures of scroll bars for the template.
pub fn bind_scroll_style(value: &ScrollStyle) -> (json: Json)
    ensures
        json@ == scroll_style_bindings(value@),
{
    let members = vec![
        (String::from_str("bar_width"), Json::Text(gen_scalar(&value.bar_width))),
        (String::from_str("handle_min_length"), Json::Text(gen_scalar(&value.handle_min_length))),
        (String::from_str("bar_inner_margin"), Json::Text(gen_scalar(&value.bar_inner_margin))),
        (String::from_str("bar_outer_margin"), Json::Text(gen_scalar(&value.bar_outer_margin))),
    ];
    proof {
        reveal(scroll_style_bindings);
        lemma_member_views(members@);
    }
    let json = Json::Object(members);
    assert(json@->Object_0 =~= scroll_style_bindings(value@)->Object_0);
    json
}

/// What the template is given for the spacing: for each field the text that is
/// put in its place, or the like for the fields of a record that the template
/// spells out.
#[verifier::opaque]
pub open spec fn spacing_bindings(value: SpacingView) -> JsonTree {
    JsonTree::Object(
        seq![
            ("item_spacing"@, JsonTree::Text(vec2_literal(value.item_spacing))),
            ("window_margin"@, margin_bindings(value.window_margin)),
            ("button_padding"@, JsonTree::Text(vec2_literal(value.button_padding))),
            ("menu_margin"@, margin_bindings(value.menu_margin)),
            ("indent"@, JsonTree::Text(value.indent)),
            ("interact_size"@, JsonTree::Text(vec2_literal(value.interact_size))),
            ("slider_width"@, JsonTree::Text(value.slider_width)),
            ("combo_width"@, JsonTree::Text(value.combo_width)),
            ("text_edit_width"@, JsonTree::Text(value.text_edit_width)),
            ("icon_width"@, JsonTree::Text(value.icon_width)),
            ("icon_width_inner"@, JsonTree::Text(value.icon_width_inner)),
            ("icon_spacing"@, JsonTree::Text(value.icon_spacing)),
            ("tooltip_width"@, JsonTree::Text(value.tooltip_width)),
            (
                "indent_ends_with_horizontal_line"@,
                JsonTree::Text(bool_literal(value.indent_ends_with_horizontal_line)),
            ),
            ("combo_height"@, JsonTree::Text(value.combo_height)),
            ("scroll"@, scroll_style_bindings(value.scroll)),
        ],
    )
}

/// Renders the fields of the spacing for the template.
pub fn bind_spacing(value: &Spacing) -> (json: Json)
    ensures
        json@ == spacing_bindings(value@),
{
    let members = vec![
        (String::from_str("item_spacing"), Json::Text(gen_vec2(&value.item_spacing))),
        (String::from_str("window_margin"), bind_margin(&value.window_margin)),
        (String::from_str("button_padding"), Json::Text(gen_vec2(&value.button_padding))),
        (String::from_str("menu_margin"), bind_margin(&value.menu_margin)),
        (String::from_str("indent"), Json::Text(gen_scalar(&value.indent))),
        (String::from_str("interact_size"), Json::Text(gen_vec2(&value.interact_size))),
        (String::from_str("slider_width"), Json::Text(gen_scalar(&value.slider_width))),
        (String::from_str("combo_width"), Json::Text(gen_scalar(&value.combo_width))),
        (String::from_str("text_edit_width"), Json::Text(gen_scalar(&value.text_edit_width))),
        (String::from_str("icon_width"), Json::Text(gen_scalar(&value.icon_width))),
        (String::from_str("icon_width_inner"), Json::Text(gen_scalar(&value.icon_width_inner))),
        (String::from_str("icon_spacing"), Json::Text(gen_scalar(&value.icon_spacing))),
        (String::from_str("tooltip_width"), Json::Text(gen_scalar(&value.tooltip_width))),
        (
            String::from_str("indent_ends_with_horizontal_line"),
            Json::Text(gen_bool(value.indent_ends_with_horizontal_line)),
        ),
        (String::from_str("combo_height"), Json::Text(gen_scalar(&value.combo_height))),
        (String::from_str("scroll"), bind_scroll_style(&value.scroll)),
    ];
    proof {
        reveal(spacing_bindings);
        lemma_member_views(members@);
    }
    let json = Json::Object(members);
    assert(json@->Object_0 =~= spacing_bindings(value@)->Object_0);
    json
}

/// What the template is given for the interaction settings: for each field the
/// text that is put in its place, or the like for the fields of a record that
/// the template spells out.
#[verifier::opaque]
pub open spec fn interaction_bindings(value: InteractionView) -> JsonTree {
    JsonTree::Object(
        seq![
            ("resize_grab_radius_side"@, JsonTree::Text(value.resize_grab_radius_side)),
            ("resize_grab_radius_corner"@, JsonTree::Text(value.resize_grab_radius_corner)),
            (
                "show_tooltips_only_when_still"@,
                JsonTree::Text(bool_literal(value.show_tooltips_only_when_still)),
            ),
        ],
    )
}

/// Renders the fields of the interaction settings for the template.
pub fn bind_interaction(value: &Interaction) -> (json: Json)
    ensures
        json@ == interaction_bindings(value@),
{
    let members = vec![
        (
            String::from_str("resize_grab_radius_side"),
            Json::Text(gen_scalar(&value.resize_grab_radius_side)),
        ),
        (
            String::from_str("resize_grab_radius_corner"),
            Json::Text(gen_scalar(&value.resize_grab_radius_corner)),
        ),
        (
            String::from_str("show_tooltips_only_when_still"),
            Json::Text(gen_bool(value.show_tooltips_only_when_still)),
        ),
    ];
    proof {
        reveal(interaction_bindings);
        lemma_member_views(members@);
    }
    let json = Json::Object(members);
    assert(json@->Object_0 =~= interaction_bindings(value@)->Object_0);
    json
}

/// What the template is given for the visuals: for each field the text that is
/// put in its place, or the like for the fields of a record that the template
/// spells out.
#[verifier::opaque]
pub open spec fn visuals_bindings(value: VisualsView) -> JsonTree {
    JsonTree::Object(
        seq![
            ("dark_mode"@, JsonTree::Text(bool_literal(value.dark_mode))),
            (
                "override_text_color"@,
                JsonTree::Text(optional_color_literal(value.override_text_color)),
            ),
            ("widgets"@, widgets_bindings(value.widgets)),
            ("selection"@, selection_bindings(value.selection)),
            ("hyperlink_color"@, JsonTree::Text(color32_literal(value.hyperlink_color))),
            ("faint_bg_color"@, JsonTree::Text(color32_literal(value.faint_bg_color))),
            ("extreme_bg_color"@, JsonTree::Text(color32_literal(value.extreme_bg_color))),
            ("code_bg_color"@, JsonTree::Text(color32_literal(value.code_bg_color))),
            ("warn_fg_color"@, JsonTree::Text(color32_literal(value.warn_fg_color))),
            ("error_fg_color"@, JsonTree::Text(color32_literal(value.error_fg_color))),
            ("window_rounding"@, JsonTree::Text(rounding_literal(value.window_rounding))),
            ("window_shadow"@, shadow_bindings(value.window_shadow)),
            ("window_fill"@, JsonTree::Text(color32_literal(value.window_fill))),
            ("window_stroke"@, JsonTree::Text(stroke_literal(value.window_stroke))),
            ("menu_rounding"@, JsonTree::Text(rounding_literal(value.menu_rounding))),
            ("panel_fill"@, JsonTree::Text(color32_literal(value.panel_fill))),
            ("popup_shadow"@, shadow_bindings(value.popup_shadow)),
            ("resize_corner_size"@, JsonTree::Text(value.resize_corner_size)),
            ("text_cursor"@, text_cursor_bindings(value.text_cursor)),
            ("clip_rect_margin"@, JsonTree::Text(value.clip_rect_margin)),
            ("button_frame"@, JsonTree::Text(bool_literal(value.button_frame))),
            (
                "collapsing_header_frame"@,
                JsonTree::Text(bool_literal(value.collapsing_header_frame)),
            ),
            ("indent_has_left_vline"@, JsonTree::Text(bool_literal(value.indent_has_left_vline))),
            ("striped"@, JsonTree::Text(bool_literal(value.striped))),
            ("slider_trailing_fill"@, JsonTree::Text(bool_literal(value.slider_trailing_fill))),
        ],
    )
}

/// Renders the fields of the visuals for the template.
pub fn bind_visuals(value: &Visuals) -> (json: Json)
    ensures
        json@ == visuals_bindings(value@),
{
    let members = vec![
        (String::from_str("dark_mode"), Json::Text(gen_bool(value.dark_mode))),
        (
            String::from_str("override_text_color"),
            Json::Text(gen_optional_color(value.override_text_color)),
        ),
        (String::from_str("widgets"), bind_widgets(&value.widgets)),
        (String::from_str("selection"), bind_selection(&value.selection)),
        (String::from_str("hyperlink_color"), Json::Text(gen_color32(value.hyperlink_color))),
        (String::from_str("faint_bg_color"), Json::Text(gen_color32(value.faint_bg_color))),
        (String::from_str("extreme_bg_color"), Json::Text(gen_color32(value.extreme_bg_color))),
        (String::from_str("code_bg_color"), Json::Text(gen_color32(value.code_bg_color))),
        (String::from_str("warn_fg_color"), Json::Text(gen_color32(value.warn_fg_color))),
        (String::from_str("error_fg_color"), Json::Text(gen_color32(value.error_fg_color))),
        (String::from_str("window_rounding"), Json::Text(gen_rounding(&value.window_rounding))),
        (String::from_str("window_shadow"), bind_shadow(&value.window_shadow)),
        (String::from_str("window_fill"), Json::Text(gen_color32(value.window_fill))),
        (String::from_str("window_stroke"), Json::Text(gen_stroke(&value.window_stroke))),
        (String::from_str("menu_rounding"), Json::Text(gen_rounding(&value.menu_rounding))),
        (String::from_str("panel_fill"), Json::Text(gen_color32(value.panel_fill))),
        (String::from_str("popup_shadow"), bind_shadow(&value.popup_shadow)),
        (String::from_str("resize_corner_size"), Json::Text(gen_scalar(&value.resize_corner_size))),
        (String::from_str("text_cursor"), bind_text_cursor(&value.text_cursor)),
        (String::from_str("clip_rect_margin"), Json::Text(gen_scalar(&value.clip_rect_margin))),
        (String::from_str("button_frame"), Json::Text(gen_bool(value.button_frame))),
        (
            String::from_str("collapsing_header_frame"),
            Json::Text(gen_bool(value.collapsing_header_frame)),
        ),
        (
            String::from_str("indent_has_left_vline"),
            Json::Text(gen_bool(value.indent_has_left_vline)),
        ),
        (String::from_str("striped"), Json::Text(gen_bool(value.striped))),
        (
            String::from_str("slider_trailing_fill"),
            Json::Text(gen_bool(value.slider_trailing_fill)),
        ),
    ];
    proof {
        reveal(visuals_bindings);
        lemma_member_views(members@);
    }
    let json = Json::Object(members);
    assert(json@->Object_0 =~= visuals_bindings(value@)->Object_0);
    json
}

/// What the template is given for a style: for each field the text that is put
/// in its place, or the like for the fields of a record that the template
/// spells out.
#[verifier::opaque]
pub open spec fn style_bindings(value: StyleModelView) -> JsonTree {
    JsonTree::Object(
        seq![
            ("wrap_mode"@, JsonTree::Text(wrap_mode_literal(value.wrap_mode))),
            ("spacing"@, spacing_bindings(value.spacing)),
            ("interaction"@, interaction_bindings(value.interaction)),
            ("visuals"@, visuals_bindings(value.visuals)),
            ("animation_time"@, JsonTree::Text(value.animation_time)),
            ("explanation_tooltips"@, JsonTree::Text(bool_literal(value.explanation_tooltips))),
        ],
    )
}

/// Renders the fields of a style for the template.
pub fn bind_style(value: &StyleModel) -> (json: Json)
    ensures
        json@ == style_bindings(value@),
{
    let members = vec![
        (String::from_str("wrap_mode"), Json::Text(gen_wrap_mode(value.wrap_mode))),
        (String::from_str("spacing"), bind_spacing(&value.spacing)),
        (String::from_str("interaction"), bind_interaction(&value.interaction)),
        (String::from_str("visuals"), bind_visuals(&value.visuals)),
        (String::from_str("animation_time"), Json::Text(gen_scalar(&value.animation_time))),
        (
            String::from_str("explanation_tooltips"),
            Json::Text(gen_bool(value.explanation_tooltips)),
        ),
    ];
    proof {
        reveal(style_bindings);
        lemma_member_views(members@);
    }
    let json = Json::Object(members);
    assert(json@->Object_0 =~= style_bindings(value@)->Object_0);
    json
}

/// What the template is given: the style, and whether the source is to bring
/// in `egui` through `eframe`.
pub open spec fn bindings_tree(style: StyleModelView, eframe: bool) -> JsonTree {
    JsonTree::Object(seq![("eframe"@, JsonTree::Bool(eframe)), ("style"@, style_bindings(style))])
}

/// Renders a style for the template.
pub fn bindings(style: &StyleModel, eframe: bool) -> (json: Json)
    ensures
        json@ == bindings_tree(style@, eframe),
{
    let members = vec![
        (String::from_str("eframe"), Json::Bool(eframe)),
        (String::from_str("style"), bind_style(style)),
    ];
    proof {
        lemma_member_views(members@);
    }
    let json = Json::Object(members);
    assert(json@->Object_0 =~= bindings_tree(style@, eframe)->Object_0);
    json
}

} // verus!
