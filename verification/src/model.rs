//! The style model: a fully valued record of colours, measures and switches.

use vstd::prelude::*;
use vstd::string::*;
use crate::text::{
    is_float_literal, is_integer_literal, is_number, lemma_integer_with_fraction, number_form,
    NumberForm,
};

verus! {

/// A finite measure, kept as the decimal literal that writes it: `6.0`,
/// `0.0833333358168602`, `-1.5e-7`. The literal always has a fraction or an
/// exponent, so it reads as a floating-point number in JSON and in Rust alike;
/// an exponent is written with a lower-case `e` and its sign, as the JSON
/// reader hands numbers on.
#[derive(Debug, PartialEq, Eq)]
pub struct Scalar {
    text: String,
}

impl View for Scalar {
    type V = Seq<char>;

    closed spec fn view(&self) -> Seq<char> {
        self.text@
    }
}

impl Clone for Scalar {
    fn clone(&self) -> (r: Scalar)
        ensures
            r@ == self@,
    {
        proof {
            use_type_invariant(self);
        }
        Scalar { text: self.text.clone() }
    }
}

impl Scalar {
    #[verifier::type_invariant]
    spec fn well_formed(self) -> bool {
        is_float_literal(self.text@)
    }

    /// Takes a literal as it is written. Whole numbers are refused here, with
    /// `None`: see [`Scalar::from_number`].
    pub fn new(text: &str) -> (r: Option<Scalar>)
        ensures
            r matches Some(s) ==> s@ == text@,
            r is Some <==> is_float_literal(text@),
    {
        match number_form(text) {
            NumberForm::Float => Some(Scalar { text: String::from_str(text) }),
            _ => None,
        }
    }

    /// Takes any number literal in the form in which the JSON reader hands
    /// numbers on: `1e+5`, not `1e5` or `1E+5`. A whole number gets the
    /// fraction `.0`. Anything else is refused with `None`.
    pub fn from_number(text: &str) -> (r: Option<Scalar>)
        ensures
            r matches Some(s) ==> s@ == number_as_float(text@),
            r is Some <==> is_number(text@),
    {
        match number_form(text) {
            NumberForm::Float => Some(Scalar { text: String::from_str(text) }),
            NumberForm::Integer => {
                let mut owned = String::from_str(text);
                owned.append(".0");
                proof {
                    reveal_strlit(".0");
                    assert(".0"@ =~= seq!['.', '0']);
                    lemma_integer_with_fraction(text@);
                }
                Some(Scalar { text: owned })
            },
            NumberForm::Invalid => None,
        }
    }

    /// The literal.
    pub fn as_str(&self) -> (r: &str)
        ensures
            r@ == self@,
            is_float_literal(r@),
    {
        proof {
            use_type_invariant(self);
        }
        self.text.as_str()
    }

    /// A copy of the literal.
    pub fn to_text(&self) -> (r: String)
        ensures
            r@ == self@,
            is_float_literal(r@),
    {
        proof {
            use_type_invariant(self);
        }
        self.text.clone()
    }
}

/// The literal that stands for a number in a scalar: the number itself, with
/// `.0` behind it where it is written as a whole number.
pub open spec fn number_as_float(s: Seq<char>) -> Seq<char> {
    if is_integer_literal(s) {
        s + seq!['.', '0']
    } else {
        s
    }
}

/// A colour: four channels with premultiplied alpha, kept as they are.
#[derive(Clone, Copy, Debug, PartialEq, Eq, Structural)]
pub struct Color {
    pub r: u8,
    pub g: u8,
    pub b: u8,
    pub a: u8,
}

impl View for Color {
    type V = Color;

    open spec fn view(&self) -> Color {
        *self
    }
}

/// A vector in the plane.
#[derive(Clone, Debug, PartialEq, Eq)]
pub struct Vector2 {
    pub x: Scalar,
    pub y: Scalar,
}

/// The mathematical value of a [`Vector2`].
pub ghost struct Vector2View {
    pub x: Seq<char>,
    pub y: Seq<char>,
}

impl View for Vector2 {
    type V = Vector2View;

    open spec fn view(&self) -> Vector2View {
        Vector2View {
            x: self.x@,
            y: self.y@,
        }
    }
}

impl Vector2View {
    /// Every measure is a floating-point literal, as it is in every value of
    /// the model.
    pub open spec fn valid(self) -> bool {
        &&& is_float_literal(self.x)
        &&& is_float_literal(self.y)
    }
}

/// The insets of the four sides of a rectangle, each on its own.
#[derive(Clone, Debug, PartialEq, Eq)]
pub struct Margin {
    pub left: Scalar,
    pub right: Scalar,
    pub top: Scalar,
    pub bottom: Scalar,
}

/// The mathematical value of a [`Margin`].
pub ghost struct MarginView {
    pub left: Seq<char>,
    pub right: Seq<char>,
    pub top: Seq<char>,
    pub bottom: Seq<char>,
}

impl View for Margin {
    type V = MarginView;

    open spec fn view(&self) -> MarginView {
        MarginView {
            left: self.left@,
            right: self.right@,
            top: self.top@,
            bottom: self.bottom@,
        }
    }
}

impl MarginView {
    /// Every measure is a floating-point literal, as it is in every value of
    /// the model.
    pub open spec fn valid(self) -> bool {
        &&& is_float_literal(self.left)
        &&& is_float_literal(self.right)
        &&& is_float_literal(self.top)
        &&& is_float_literal(self.bottom)
    }
}

/// The radii of the four corners of a rectangle, each on its own.
#[derive(Clone, Debug, PartialEq, Eq)]
pub struct Rounding {
    pub nw: Scalar,
    pub ne: Scalar,
    pub sw: Scalar,
    pub se: Scalar,
}

/// The mathematical value of a [`Rounding`].
pub ghost struct RoundingView {
    pub nw: Seq<char>,
    pub ne: Seq<char>,
    pub sw: Seq<char>,
    pub se: Seq<char>,
}

impl View for Rounding {
    type V = RoundingView;

    open spec fn view(&self) -> RoundingView {
        RoundingView {
            nw: self.nw@,
            ne: self.ne@,
            sw: self.sw@,
            se: self.se@,
        }
    }
}

impl RoundingView {
    /// Every measure is a floating-point literal, as it is in every value of
    /// the model.
    pub open spec fn valid(self) -> bool {
        &&& is_float_literal(self.nw)
        &&& is_float_literal(self.ne)
        &&& is_float_literal(self.sw)
        &&& is_float_literal(self.se)
    }
}

/// A line: its width and its colour.
#[derive(Clone, Debug, PartialEq, Eq)]
pub struct Stroke {
    pub width: Scalar,
    pub color: Color,
}

/// The mathematical value of a [`Stroke`].
pub ghost struct StrokeView {
    pub width: Seq<char>,
    pub color: Color,
}

impl View for Stroke {
    type V = StrokeView;

    open spec fn view(&self) -> StrokeView {
        StrokeView {
            width: self.width@,
            color: self.color,
        }
    }
}

impl StrokeView {
    /// Every measure is a floating-point literal, as it is in every value of
    /// the model.
    pub open spec fn valid(self) -> bool {
        &&& is_float_literal(self.width)
    }
}

/// The shadow that a surface casts.
#[derive(Clone, Debug, PartialEq, Eq)]
pub struct Shadow {
    /// How far the shadow is moved away from the surface.
    pub offset: Vector2,
    /// How far the shadow fades out.
    pub blur: Scalar,
    /// How far the shadow reaches beyond the surface.
    pub spread: Scalar,
    pub color: Color,
}

/// The mathematical value of a [`Shadow`].
pub ghost struct ShadowView {
    pub offset: Vector2View,
    pub blur: Seq<char>,
    pub spread: Seq<char>,
    pub color: Color,
}

impl View for Shadow {
    type V = ShadowView;

    open spec fn view(&self) -> ShadowView {
        ShadowView {
            offset: self.offset@,
            blur: self.blur@,
            spread: self.spread@,
            color: self.color,
        }
    }
}

impl ShadowView {
    /// Every measure is a floating-point literal, as it is in every value of
    /// the model.
    pub open spec fn valid(self) -> bool {
        &&& self.offset.valid()
        &&& is_float_literal(self.blur)
        &&& is_float_literal(self.spread)
    }
}

/// The look of a widget in one of its states.
#[derive(Clone, Debug, PartialEq, Eq)]
pub struct WidgetVisuals {
    /// The fill of the background.
    pub bg_fill: Color,
    /// The fill of a background that should stand out less.
    pub weak_bg_fill: Color,
    /// The line around the background.
    pub bg_stroke: Stroke,
    pub rounding: Rounding,
    /// The line and text colour of what is drawn on the widget.
    pub fg_stroke: Stroke,
    /// How much bigger the widget is drawn.
    pub expansion: Scalar,
}

/// The mathematical value of a [`WidgetVisuals`].
pub ghost struct WidgetVisualsView {
    pub bg_fill: Color,
    pub weak_bg_fill: Color,
    pub bg_stroke: StrokeView,
    pub rounding: RoundingView,
    pub fg_stroke: StrokeView,
    pub expansion: Seq<char>,
}

impl View for WidgetVisuals {
    type V = WidgetVisualsView;

    open spec fn view(&self) -> WidgetVisualsView {
        WidgetVisualsView {
            bg_fill: self.bg_fill,
            weak_bg_fill: self.weak_bg_fill,
            bg_stroke: self.bg_stroke@,
            rounding: self.rounding@,
            fg_stroke: self.fg_stroke@,
            expansion: self.expansion@,
        }
    }
}

impl WidgetVisualsView {
    /// Every measure is a floating-point literal, as it is in every value of
    /// the model.
    pub open spec fn valid(self) -> bool {
        &&& self.bg_stroke.valid()
        &&& self.rounding.valid()
        &&& self.fg_stroke.valid()
        &&& is_float_literal(self.expansion)
    }
}

/// The look of a widget in each of its five states.
#[derive(Clone, Debug, PartialEq, Eq)]
pub struct Widgets {
    /// A widget that cannot be interacted with.
    pub noninteractive: WidgetVisuals,
    /// A widget that can be interacted with and is at rest.
    pub inactive: WidgetVisuals,
    /// A widget under the pointer.
    pub hovered: WidgetVisuals,
    /// A widget that is being clicked or dragged.
    pub active: WidgetVisuals,
    /// A widget whose menu is open.
    pub open: WidgetVisuals,
}

/// The mathematical value of a [`Widgets`].
pub ghost struct WidgetsView {
    pub noninteractive: WidgetVisualsView,
    pub inactive: WidgetVisualsView,
    pub hovered: WidgetVisualsView,
    pub active: WidgetVisualsView,
    pub open: WidgetVisualsView,
}

impl View for Widgets {
    type V = WidgetsView;

    open spec fn view(&self) -> WidgetsView {
        WidgetsView {
            noninteractive: self.noninteractive@,
            inactive: self.inactive@,
            hovered: self.hovered@,
            active: self.active@,
            open: self.open@,
        }
    }
}

impl WidgetsView {
    /// Every measure is a floating-point literal, as it is in every value of
    /// the model.
    pub open spec fn valid(self) -> bool {
        &&& self.noninteractive.valid()
        &&& self.inactive.valid()
        &&& self.hovered.valid()
        &&& self.active.valid()
        &&& self.open.valid()
    }
}

/// The look of selected text and selected items.
#[derive(Clone, Debug, PartialEq, Eq)]
pub struct Selection {
    pub bg_fill: Color,
    pub stroke: Stroke,
}

/// The mathematical value of a [`Selection`].
pub ghost struct SelectionView {
    pub bg_fill: Color,
    pub stroke: StrokeView,
}

impl View for Selection {
    type V = SelectionView;

    open spec fn view(&self) -> SelectionView {
        SelectionView {
            bg_fill: self.bg_fill,
            stroke: self.stroke@,
        }
    }
}

impl SelectionView {
    /// Every measure is a floating-point literal, as it is in every value of
    /// the model.
    pub open spec fn valid(self) -> bool {
        &&& self.stroke.valid()
    }
}

/// The look of the text cursor.
#[derive(Clone, Debug, PartialEq, Eq)]
pub struct TextCursor {
    pub stroke: Stroke,
    /// Whether the cursor is shown ahead of a click.
    pub preview: bool,
}

/// The mathematical value of a [`TextCursor`].
pub ghost struct TextCursorView {
    pub stroke: StrokeView,
    pub preview: bool,
}

impl View for TextCursor {
    type V = TextCursorView;

    open spec fn view(&self) -> TextCursorView {
        TextCursorView {
            stroke: self.stroke@,
            preview: self.preview,
        }
    }
}

impl TextCursorView {
    /// Every measure is a floating-point literal, as it is in every value of
    /// the model.
    pub open spec fn valid(self) -> bool {
        &&& self.stroke.valid()
    }
}

/// The measures of scroll bars.
#[derive(Clone, Debug, PartialEq, Eq)]
pub struct ScrollStyle {
    pub bar_width: Scalar,
    pub handle_min_length: Scalar,
    pub bar_inner_margin: Scalar,
    pub bar_outer_margin: Scalar,
}

/// The mathematical value of a [`ScrollStyle`].
pub ghost struct ScrollStyleView {
    pub bar_width: Seq<char>,
    pub handle_min_length: Seq<char>,
    pub bar_inner_margin: Seq<char>,
    pub bar_outer_margin: Seq<char>,
}

impl View for ScrollStyle {
    type V = ScrollStyleView;

    open spec fn view(&self) -> ScrollStyleView {
        ScrollStyleView {
            bar_width: self.bar_width@,
            handle_min_length: self.handle_min_length@,
            bar_inner_margin: self.bar_inner_margin@,
            bar_outer_margin: self.bar_outer_margin@,
        }
    }
}

impl ScrollStyleView {
    /// Every measure is a floating-point literal, as it is in every value of
    /// the model.
    pub open spec fn valid(self) -> bool {
        &&& is_float_literal(self.bar_width)
        &&& is_float_literal(self.handle_min_length)
        &&& is_float_literal(self.bar_inner_margin)
        &&& is_float_literal(self.bar_outer_margin)
    }
}

/// Paddings, margins and widths.
#[derive(Clone, Debug, PartialEq, Eq)]
pub struct Spacing {
    pub item_spacing: Vector2,
    pub window_margin: Margin,
    pub button_padding: Vector2,
    pub menu_margin: Margin,
    pub indent: Scalar,
    pub interact_size: Vector2,
    pub slider_width: Scalar,
    pub combo_width: Scalar,
    pub text_edit_width: Scalar,
    pub icon_width: Scalar,
    pub icon_width_inner: Scalar,
    pub icon_spacing: Scalar,
    pub tooltip_width: Scalar,
    pub indent_ends_with_horizontal_line: bool,
    pub combo_height: Scalar,
    pub scroll: ScrollStyle,
}

/// The mathematical value of a [`Spacing`].
pub ghost struct SpacingView {
    pub item_spacing: Vector2View,
    pub window_margin: MarginView,
    pub button_padding: Vector2View,
    pub menu_margin: MarginView,
    pub indent: Seq<char>,
    pub interact_size: Vector2View,
    pub slider_width: Seq<char>,
    pub combo_width: Seq<char>,
    pub text_edit_width: Seq<char>,
    pub icon_width: Seq<char>,
    pub icon_width_inner: Seq<char>,
    pub icon_spacing: Seq<char>,
    pub tooltip_width: Seq<char>,
    pub indent_ends_with_horizontal_line: bool,
    pub combo_height: Seq<char>,
    pub scroll: ScrollStyleView,
}

impl View for Spacing {
    type V = SpacingView;

    open spec fn view(&self) -> SpacingView {
        SpacingView {
            item_spacing: self.item_spacing@,
            window_margin: self.window_margin@,
            button_padding: self.button_padding@,
            menu_margin: self.menu_margin@,
            indent: self.indent@,
            interact_size: self.interact_size@,
            slider_width: self.slider_width@,
            combo_width: self.combo_width@,
            text_edit_width: self.text_edit_width@,
            icon_width: self.icon_width@,
            icon_width_inner: self.icon_width_inner@,
            icon_spacing: self.icon_spacing@,
            tooltip_width: self.tooltip_width@,
            indent_ends_with_horizontal_line: self.indent_ends_with_horizontal_line,
            combo_height: self.combo_height@,
            scroll: self.scroll@,
        }
    }
}

impl SpacingView {
    /// Every measure is a floating-point literal, as it is in every value of
    /// the model.
    pub open spec fn valid(self) -> bool {
        &&& self.item_spacing.valid()
        &&& self.window_margin.valid()
        &&& self.button_padding.valid()
        &&& self.menu_margin.valid()
        &&& is_float_literal(self.indent)
        &&& self.interact_size.valid()
        &&& is_float_literal(self.slider_width)
        &&& is_float_literal(self.combo_width)
        &&& is_float_literal(self.text_edit_width)
        &&& is_float_literal(self.icon_width)
        &&& is_float_literal(self.icon_width_inner)
        &&& is_float_literal(self.icon_spacing)
        &&& is_float_literal(self.tooltip_width)
        &&& is_float_literal(self.combo_height)
        &&& self.scroll.valid()
    }
}

/// Thresholds and switches of interaction.
#[derive(Clone, Debug, PartialEq, Eq)]
pub struct Interaction {
    pub resize_grab_radius_side: Scalar,
    pub resize_grab_radius_corner: Scalar,
    pub show_tooltips_only_when_still: bool,
}

/// The mathematical value of a [`Interaction`].
pub ghost struct InteractionView {
    pub resize_grab_radius_side: Seq<char>,
    pub resize_grab_radius_corner: Seq<char>,
    pub show_tooltips_only_when_still: bool,
}

impl View for Interaction {
    type V = InteractionView;

    open spec fn view(&self) -> InteractionView {
        InteractionView {
            resize_grab_radius_side: self.resize_grab_radius_side@,
            resize_grab_radius_corner: self.resize_grab_radius_corner@,
            show_tooltips_only_when_still: self.show_tooltips_only_when_still,
        }
    }
}

impl InteractionView {
    /// Every measure is a floating-point literal, as it is in every value of
    /// the model.
    pub open spec fn valid(self) -> bool {
        &&& is_float_literal(self.resize_grab_radius_side)
        &&& is_float_literal(self.resize_grab_radius_corner)
    }
}

/// Colours, lines, roundings and shadows.
#[derive(Clone, Debug, PartialEq, Eq)]
pub struct Visuals {
    pub dark_mode: bool,
    /// The colour of all text, where it overrides the widgets' own.
    pub override_text_color: Option<Color>,
    pub widgets: Widgets,
    pub selection: Selection,
    pub hyperlink_color: Color,
    pub faint_bg_color: Color,
    pub extreme_bg_color: Color,
    pub code_bg_color: Color,
    pub warn_fg_color: Color,
    pub error_fg_color: Color,
    pub window_rounding: Rounding,
    pub window_shadow: Shadow,
    pub window_fill: Color,
    pub window_stroke: Stroke,
    pub menu_rounding: Rounding,
    pub panel_fill: Color,
    pub popup_shadow: Shadow,
    pub resize_corner_size: Scalar,
    pub text_cursor: TextCursor,
    pub clip_rect_margin: Scalar,
    pub button_frame: bool,
    pub collapsing_header_frame: bool,
    pub indent_has_left_vline: bool,
    pub striped: bool,
    pub slider_trailing_fill: bool,
}

/// The mathematical value of a [`Visuals`].
pub ghost struct VisualsView {
    pub dark_mode: bool,
    pub override_text_color: Option<Color>,
    pub widgets: WidgetsView,
    pub selection: SelectionView,
    pub hyperlink_color: Color,
    pub faint_bg_color: Color,
    pub extreme_bg_color: Color,
    pub code_bg_color: Color,
    pub warn_fg_color: Color,
    pub error_fg_color: Color,
    pub window_rounding: RoundingView,
    pub window_shadow: ShadowView,
    pub window_fill: Color,
    pub window_stroke: StrokeView,
    pub menu_rounding: RoundingView,
    pub panel_fill: Color,
    pub popup_shadow: ShadowView,
    pub resize_corner_size: Seq<char>,
    pub text_cursor: TextCursorView,
    pub clip_rect_margin: Seq<char>,
    pub button_frame: bool,
    pub collapsing_header_frame: bool,
    pub indent_has_left_vline: bool,
    pub striped: bool,
    pub slider_trailing_fill: bool,
}

impl View for Visuals {
    type V = VisualsView;

    open spec fn view(&self) -> VisualsView {
        VisualsView {
            dark_mode: self.dark_mode,
            override_text_color: self.override_text_color,
            widgets: self.widgets@,
            selection: self.selection@,
            hyperlink_color: self.hyperlink_color,
            faint_bg_color: self.faint_bg_color,
            extreme_bg_color: self.extreme_bg_color,
            code_bg_color: self.code_bg_color,
            warn_fg_color: self.warn_fg_color,
            error_fg_color: self.error_fg_color,
            window_rounding: self.window_rounding@,
            window_shadow: self.window_shadow@,
            window_fill: self.window_fill,
            window_stroke: self.window_stroke@,
            menu_rounding: self.menu_rounding@,
            panel_fill: self.panel_fill,
            popup_shadow: self.popup_shadow@,
            resize_corner_size: self.resize_corner_size@,
            text_cursor: self.text_cursor@,
            clip_rect_margin: self.clip_rect_margin@,
            button_frame: self.button_frame,
            collapsing_header_frame: self.collapsing_header_frame,
            indent_has_left_vline: self.indent_has_left_vline,
            striped: self.striped,
            slider_trailing_fill: self.slider_trailing_fill,
        }
    }
}

impl VisualsView {
    /// Every measure is a floating-point literal, as it is in every value of
    /// the model.
    pub open spec fn valid(self) -> bool {
        &&& self.widgets.valid()
        &&& self.selection.valid()
        &&& self.window_rounding.valid()
        &&& self.window_shadow.valid()
        &&& self.window_stroke.valid()
        &&& self.menu_rounding.valid()
        &&& self.popup_shadow.valid()
        &&& is_float_literal(self.resize_corner_size)
        &&& self.text_cursor.valid()
        &&& is_float_literal(self.clip_rect_margin)
    }
}

/// A style: every colour, measure and switch that the editor edits, fully
/// valued. What else the toolkit keeps in a style is not held and stays as the
/// toolkit sets it.
#[derive(Clone, Debug, PartialEq, Eq)]
pub struct StyleModel {
    /// Whether text wraps: unset, on or off.
    pub wrap_mode: Option<bool>,
    pub spacing: Spacing,
    pub interaction: Interaction,
    pub visuals: Visuals,
    /// How long animations take, in seconds.
    pub animation_time: Scalar,
    pub explanation_tooltips: bool,
}

/// The mathematical value of a [`StyleModel`].
pub ghost struct StyleModelView {
    pub wrap_mode: Option<bool>,
    pub spacing: SpacingView,
    pub interaction: InteractionView,
    pub visuals: VisualsView,
    pub animation_time: Seq<char>,
    pub explanation_tooltips: bool,
}

impl View for StyleModel {
    type V = StyleModelView;

    open spec fn view(&self) -> StyleModelView {
        StyleModelView {
            wrap_mode: self.wrap_mode,
            spacing: self.spacing@,
            interaction: self.interaction@,
            visuals: self.visuals@,
            animation_time: self.animation_time@,
            explanation_tooltips: self.explanation_tooltips,
        }
    }
}

impl StyleModelView {
    /// Every measure is a floating-point literal, as it is in every value of
    /// the model.
    pub open spec fn valid(self) -> bool {
        &&& self.spacing.valid()
        &&& self.interaction.valid()
        &&& self.visuals.valid()
        &&& is_float_literal(self.animation_time)
    }
}

} // verus!
