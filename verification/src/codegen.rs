//! The source generator: a style as Rust source that builds it.

use vstd::prelude::*;
use crate::bindings::{bindings, bindings_tree};
use crate::json::{to_value, written_view, Json, JsonTree};
use crate::model::{StyleModel, StyleModelView};

verus! {

/// The template of the generated source. Each place in triple braces takes the
/// text that the bindings hold under that path.
pub const TEMPLATE: &'static str = "// Generated by egui-themer (https://github.com/grantshandy/egui-themer).

{{#if eframe}}
use eframe::egui;

{{/if}}
use egui::{
    epaint::Shadow,
    style::{
        Interaction, ScrollStyle, Selection, Spacing, TextCursorStyle, WidgetVisuals, Widgets,
    },
    Color32, Margin, Rounding, Stroke, Style, Vec2, Visuals,
};

pub fn style() -> Style {
    Style {
        // override the text styles here:
        // override_text_style: Option<TextStyle>

        // override the font id here:
        // override_font_id: Option<FontId>

        // set your text styles here:
        // text_styles: BTreeMap<TextStyle, FontId>,

        // set your drag value text style:
        // drag_value_text_style: TextStyle,
        {{#if style.wrap_mode}}
        wrap_mode: {{{style.wrap_mode}}},
        {{/if}}
        spacing: Spacing {
            item_spacing: {{{style.spacing.item_spacing}}},
            window_margin: Margin {
                left: {{{style.spacing.window_margin.left}}},
                right: {{{style.spacing.window_margin.right}}},
                top: {{{style.spacing.window_margin.top}}},
                bottom: {{{style.spacing.window_margin.bottom}}},
            },
            button_padding: {{{style.spacing.button_padding}}},
            menu_margin: Margin {
                left: {{{style.spacing.menu_margin.left}}},
                right: {{{style.spacing.menu_margin.right}}},
                top: {{{style.spacing.menu_margin.top}}},
                bottom: {{{style.spacing.menu_margin.bottom}}},
            },
            indent: {{{style.spacing.indent}}},
            interact_size: {{{style.spacing.interact_size}}},
            slider_width: {{{style.spacing.slider_width}}},
            combo_width: {{{style.spacing.combo_width}}},
            text_edit_width: {{{style.spacing.text_edit_width}}},
            icon_width: {{{style.spacing.icon_width}}},
            icon_width_inner: {{{style.spacing.icon_width_inner}}},
            icon_spacing: {{{style.spacing.icon_spacing}}},
            tooltip_width: {{{style.spacing.tooltip_width}}},
            indent_ends_with_horizontal_line: {{{style.spacing.indent_ends_with_horizontal_line}}},
            combo_height: {{{style.spacing.combo_height}}},
            scroll: ScrollStyle {
                bar_width: {{{style.spacing.scroll.bar_width}}},
                handle_min_length: {{{style.spacing.scroll.handle_min_length}}},
                bar_inner_margin: {{{style.spacing.scroll.bar_inner_margin}}},
                bar_outer_margin: {{{style.spacing.scroll.bar_outer_margin}}},
                ..Default::default()
            },
            ..Default::default()
        },
        interaction: Interaction {
            resize_grab_radius_side: {{{style.interaction.resize_grab_radius_side}}},
            resize_grab_radius_corner: {{{style.interaction.resize_grab_radius_corner}}},
            show_tooltips_only_when_still: {{{style.interaction.show_tooltips_only_when_still}}},
            ..Default::default()
        },
        visuals: Visuals {
            dark_mode: {{{style.visuals.dark_mode}}},
            override_text_color: {{{style.visuals.override_text_color}}},
            widgets: Widgets {
                noninteractive: {{{style.visuals.widgets.noninteractive}}},
                inactive: {{{style.visuals.widgets.inactive}}},
                hovered: {{{style.visuals.widgets.hovered}}},
                active: {{{style.visuals.widgets.active}}},
                open: {{{style.visuals.widgets.open}}},
            },
            selection: Selection {
                bg_fill: {{{style.visuals.selection.bg_fill}}},
                stroke: {{{style.visuals.selection.stroke}}},
            },
            hyperlink_color: {{{style.visuals.hyperlink_color}}},
            faint_bg_color: {{{style.visuals.faint_bg_color}}},
            extreme_bg_color: {{{style.visuals.extreme_bg_color}}},
            code_bg_color: {{{style.visuals.code_bg_color}}},
            warn_fg_color: {{{style.visuals.warn_fg_color}}},
            error_fg_color: {{{style.visuals.error_fg_color}}},
            window_rounding: {{{style.visuals.window_rounding}}},
            window_shadow: Shadow {
                spread: {{{style.visuals.window_shadow.spread}}},
                color: {{{style.visuals.window_shadow.color}}},
                blur: {{{style.visuals.window_shadow.blur}}},
                offset: {{{style.visuals.window_shadow.offset}}},
            },
            window_fill: {{{style.visuals.window_fill}}},
            window_stroke: {{{style.visuals.window_stroke}}},
            menu_rounding: {{{style.visuals.menu_rounding}}},
            panel_fill: {{{style.visuals.panel_fill}}},
            popup_shadow: Shadow {
                spread: {{{style.visuals.popup_shadow.spread}}},
                color: {{{style.visuals.popup_shadow.color}}},
                blur: {{{style.visuals.popup_shadow.blur}}},
                offset: {{{style.visuals.popup_shadow.offset}}},
            },
            resize_corner_size: {{{style.visuals.resize_corner_size}}},
            text_cursor: TextCursorStyle {
                stroke: {{{style.visuals.text_cursor.stroke}}},
                preview: {{{style.visuals.text_cursor.preview}}},
                ..Default::default()
            },
            clip_rect_margin: {{{style.visuals.clip_rect_margin}}},
            button_frame: {{{style.visuals.button_frame}}},
            collapsing_header_frame: {{{style.visuals.collapsing_header_frame}}},
            indent_has_left_vline: {{{style.visuals.indent_has_left_vline}}},
            striped: {{{style.visuals.striped}}},
            slider_trailing_fill: {{{style.visuals.slider_trailing_fill}}},
            ..Default::default()
        },
        animation_time: {{{style.animation_time}}},
        explanation_tooltips: {{{style.explanation_tooltips}}},
        ..Default::default()
    }
}
";

/// Why no source was generated.
#[derive(Clone, Debug, PartialEq, Eq)]
pub enum GenError {
    /// The template could not be filled in: it is malformed, or one of its
    /// places has no binding. Holds the template engine's message. With the
    /// template and the bindings of this library it does not come about.
    Template(String),
    /// The formatter failed or refused the source. Holds its message, as it
    /// is.
    Format(String),
}

/// The mathematical value of a [`GenError`].
pub ghost enum GenFault {
    Template(Seq<char>),
    Format(Seq<char>),
}

impl View for GenError {
    type V = GenFault;

    open spec fn view(&self) -> GenFault {
        match self {
            GenError::Template(message) => GenFault::Template(message@),
            GenError::Format(message) => GenFault::Format(message@),
        }
    }
}

impl GenFault {
    /// The message that the fault holds.
    pub open spec fn message(self) -> Seq<char> {
        match self {
            GenFault::Template(message) => message,
            GenFault::Format(message) => message,
        }
    }
}

impl GenError {
    /// The message, for display.
    pub fn message(&self) -> (r: String)
        ensures
            r@ == self@.message(),
    {
        match self {
            GenError::Template(message) => message.clone(),
            GenError::Format(message) => message.clone(),
        }
    }
}

/// What a generating function returned, as a mathematical value.
pub open spec fn gen_view(r: Result<String, GenError>) -> Result<Seq<char>, GenFault> {
    match r {
        Ok(text) => Ok(text@),
        Err(error) => Err(error@),
    }
}

/// What `handlebars` makes in strict mode of the template of this library and
/// its data: the text, or the message of its error. The name is given for
/// [`TEMPLATE`] alone: a template that calls partials with arguments may be
/// rendered differently from call to call.
pub uninterp spec fn expanded(template: Seq<char>, data: JsonTree) -> Result<Seq<char>, Seq<char>>;

/// `Handlebars::render_template` on a registry that `Handlebars::new` made and
/// `set_strict_mode` has set to strict: compiles the template and renders it
/// with the data; a place without data is an error. An error, of the
/// rendering or of the copy of the data before it, comes back as the message
/// that its `Display` writes. For [`TEMPLATE`] the contract gives the outcome
/// its name; of another template it says nothing.
#[verifier::external_body]
fn expand(template: &str, data: &Json) -> (r: Result<String, String>)
    ensures
        template@ == TEMPLATE@ ==> written_view(r) == expanded(template@, data@),
{
    let value = match to_value(data) {
        Ok(value) => value,
        Err(error) => return Err(error.to_string()),
    };
    let mut registry = handlebars::Handlebars::new();
    registry.set_strict_mode(true);
    registry.render_template(template, &value).map_err(|error| error.to_string())
}

/// `Formatter::format_str` of `rust_format::RustFmt` in its default
/// configuration: runs the `rustfmt` program on the source. An error comes
/// back as the message that its `Display` writes. What comes back depends on
/// the program that is installed, so the contract says nothing of it.
#[verifier::external_body]
fn run_formatter(source: &str) -> Result<String, String> {
    rust_format::Formatter::format_str(&rust_format::RustFmt::default(), source).map_err(
        |error| error.to_string(),
    )
}

/// What rendering a style comes to: the text that the template gives, before
/// it is formatted, or the template engine's message.
pub open spec fn rendered(style: StyleModelView, eframe: bool) -> Result<Seq<char>, GenFault> {
    match expanded(TEMPLATE@, bindings_tree(style, eframe)) {
        Ok(text) => Ok(text),
        Err(message) => Err(GenFault::Template(message)),
    }
}

/// Fills a template in with a style. In the template, `eframe` is the switch
/// and `style` the style, with the fields of [`bindings_tree`]. With the
/// template of this library the outcome is that of [`render_source`]; of
/// another template only the kind of the error is known.
pub fn render_with(template: &str, style: &StyleModel, eframe: bool) -> (r: Result<
    String,
    GenError,
>)
    ensures
        template@ == TEMPLATE@ ==> gen_view(r) == rendered(style@, eframe),
        r matches Err(error) ==> error is Template,
{
    let data = bindings(style, eframe);
    match expand(template, &data) {
        Ok(text) => Ok(text),
        Err(message) => Err(GenError::Template(message)),
    }
}

/// Fills the template in with a style. The text is not formatted yet.
pub fn render_source(style: &StyleModel, eframe: bool) -> (r: Result<String, GenError>)
    ensures
        gen_view(r) == rendered(style@, eframe),
{
    render_with(TEMPLATE, style, eframe)
}

/// Rendering is a function of the style and the switch: two calls on the same
/// style either fail with the same message or give the same text, character
/// for character.
pub proof fn lemma_rendering_is_determined(
    style: StyleModelView,
    eframe: bool,
    first: Result<String, GenError>,
    second: Result<String, GenError>,
)
    requires
        gen_view(first) == rendered(style, eframe),
        gen_view(second) == rendered(style, eframe),
    ensures
        gen_view(first) == gen_view(second),
{
}

/// What is returned for an outcome of the formatter: the formatted source, or
/// the error with the formatter's message as it is. Source that was not
/// formatted is never returned.
pub fn formatted(outcome: Result<String, String>) -> (r: Result<String, GenError>)
    ensures
        outcome matches Ok(text) ==> r == Ok::<String, GenError>(text),
        outcome matches Err(message) ==> r == Err::<String, GenError>(GenError::Format(message)),
{
    match outcome {
        Ok(text) => Ok(text),
        Err(message) => Err(GenError::Format(message)),
    }
}

/// Generates the Rust source of a style: fills the template in and formats the
/// result. With `eframe` the source brings `egui` in through `eframe`. A
/// failure of the template is returned as it is; after that the formatter
/// decides, and [`formatted`] says what is returned for its outcome.
pub fn generate_source(style: &StyleModel, eframe: bool) -> (r: Result<String, GenError>)
    ensures
        rendered(style@, eframe) is Err ==> gen_view(r) == rendered(style@, eframe),
        rendered(style@, eframe) is Ok ==> r is Ok || r matches Err(GenError::Format(_)),
{
    match render_source(style, eframe) {
        Ok(raw) => formatted(run_formatter(raw.as_str())),
        Err(error) => Err(error),
    }
}

} // verus!
