use egui_themer::codec::{decode, encode};
use egui_themer::codegen::{
    formatted, generate_source, render_source, render_with, GenError, TEMPLATE,
};
use egui_themer::export::{flattened, ExportFormat, ExportMenu, ImportMenu};
use egui_themer::fault::DecodeError;
use egui_themer::literal::{gen_rounding, gen_wrap_mode};
use egui_themer::model::{
    Color, Interaction, Margin, Rounding, Scalar, ScrollStyle, Selection, Shadow, Spacing,
    Stroke, StyleModel, TextCursor, Vector2, Visuals, WidgetVisuals, Widgets,
};

/// The source of the light style, formatted.
const LIGHT_SOURCE: &str = "// Generated by egui-themer (https://github.com/grantshandy/egui-themer).

use eframe::egui;

use egui::{
    epaint::Shadow,
    style::{
        Interaction, ScrollStyle, Selection, Spacing, TextCursorStyle, WidgetVisuals, Widgets,
    },
    Color32, Margin, Rounding, Stroke, Style, Vec2, Visuals,
};

pub fn style() -> Style {
    Style {
        // override the text styles here:
        // override_text_style: Option<TextStyle>

        // override the font id here:
        // override_font_id: Option<FontId>

        // set your text styles here:
        // text_styles: BTreeMap<TextStyle, FontId>,

        // set your drag value text style:
        // drag_value_text_style: TextStyle,
        spacing: Spacing {
            item_spacing: Vec2 { x: 8.0, y: 3.0 },
            window_margin: Margin {
                left: 6.0,
                right: 6.0,
                top: 6.0,
                bottom: 6.0,
            },
            button_padding: Vec2 { x: 4.0, y: 1.0 },
            menu_margin: Margin {
                left: 6.0,
                right: 6.0,
                top: 6.0,
                bottom: 6.0,
            },
            indent: 18.0,
            interact_size: Vec2 { x: 40.0, y: 18.0 },
            slider_width: 100.0,
            combo_width: 100.0,
            text_edit_width: 280.0,
            icon_width: 14.0,
            icon_width_inner: 8.0,
            icon_spacing: 4.0,
            tooltip_width: 500.0,
            indent_ends_with_horizontal_line: false,
            combo_height: 200.0,
            scroll: ScrollStyle {
                bar_width: 10.0,
                handle_min_length: 12.0,
                bar_inner_margin: 4.0,
                bar_outer_margin: 0.0,
                ..Default::default()
            },
            ..Default::default()
        },
        interaction: Interaction {
            resize_grab_radius_side: 5.0,
            resize_grab_radius_corner: 10.0,
            show_tooltips_only_when_still: true,
            ..Default::default()
        },
        visuals: Visuals {
            dark_mode: false,
            override_text_color: None,
            widgets: Widgets {
                noninteractive: WidgetVisuals {
                    bg_fill: Color32::from_rgba_premultiplied(248, 248, 248, 255),
                    weak_bg_fill: Color32::from_rgba_premultiplied(248, 248, 248, 255),
                    bg_stroke: Stroke {
                        width: 1.0,
                        color: Color32::from_rgba_premultiplied(190, 190, 190, 255),
                    },
                    rounding: Rounding {
                        nw: 2.0,
                        ne: 2.0,
                        sw: 2.0,
                        se: 2.0,
                    },
                    fg_stroke: Stroke {
                        width: 1.0,
                        color: Color32::from_rgba_premultiplied(80, 80, 80, 255),
                    },
                    expansion: 0.0,
                },
                inactive: WidgetVisuals {
                    bg_fill: Color32::from_rgba_premultiplied(230, 230, 230, 255),
                    weak_bg_fill: Color32::from_rgba_premultiplied(230, 230, 230, 255),
                    bg_stroke: Stroke {
                        width: 0.0,
                        color: Color32::from_rgba_premultiplied(0, 0, 0, 0),
                    },
                    rounding: Rounding {
                        nw: 2.0,
                        ne: 2.0,
                        sw: 2.0,
                        se: 2.0,
                    },
                    fg_stroke: Stroke {
                        width: 1.0,
                        color: Color32::from_rgba_premultiplied(60, 60, 60, 255),
                    },
                    expansion: 0.0,
                },
                hovered: WidgetVisuals {
                    bg_fill: Color32::from_rgba_premultiplied(220, 220, 220, 255),
                    weak_bg_fill: Color32::from_rgba_premultiplied(220, 220, 220, 255),
                    bg_stroke: Stroke {
                        width: 1.0,
                        color: Color32::from_rgba_premultiplied(105, 105, 105, 255),
                    },
                    rounding: Rounding {
                        nw: 3.0,
                        ne: 3.0,
                        sw: 3.0,
                        se: 3.0,
                    },
                    fg_stroke: Stroke {
                        width: 1.5,
                        color: Color32::from_rgba_premultiplied(0, 0, 0, 255),
                    },
                    expansion: 1.0,
                },
                active: WidgetVisuals {
                    bg_fill: Color32::from_rgba_premultiplied(165, 165, 165, 255),
                    weak_bg_fill: Color32::from_rgba_premultiplied(165, 165, 165, 255),
                    bg_stroke: Stroke {
                        width: 1.0,
                        color: Color32::from_rgba_premultiplied(0, 0, 0, 255),
                    },
                    rounding: Rounding {
                        nw: 2.0,
                        ne: 2.0,
                        sw: 2.0,
                        se: 2.0,
                    },
                    fg_stroke: Stroke {
                        width: 2.0,
                        color: Color32::from_rgba_premultiplied(0, 0, 0, 255),
                    },
                    expansion: 1.0,
                },
                open: WidgetVisuals {
                    bg_fill: Color32::from_rgba_premultiplied(220, 220, 220, 255),
                    weak_bg_fill: Color32::from_rgba_premultiplied(220, 220, 220, 255),
                    bg_stroke: Stroke {
                        width: 1.0,
                        color: Color32::from_rgba_premultiplied(160, 160, 160, 255),
                    },
                    rounding: Rounding {
                        nw: 2.0,
                        ne: 2.0,
                        sw: 2.0,
                        se: 2.0,
                    },
                    fg_stroke: Stroke {
                        width: 1.0,
                        color: Color32::from_rgba_premultiplied(0, 0, 0, 255),
                    },
                    expansion: 0.0,
                },
            },
            selection: Selection {
                bg_fill: Color32::from_rgba_premultiplied(144, 209, 255, 255),
                stroke: Stroke {
                    width: 1.0,
                    color: Color32::from_rgba_premultiplied(0, 83, 125, 255),
                },
            },
            hyperlink_color: Color32::from_rgba_premultiplied(0, 155, 255, 255),
            faint_bg_color: Color32::from_rgba_premultiplied(5, 5, 5, 0),
            extreme_bg_color: Color32::from_rgba_premultiplied(255, 255, 255, 255),
            code_bg_color: Color32::from_rgba_premultiplied(230, 230, 230, 255),
            warn_fg_color: Color32::from_rgba_premultiplied(255, 100, 0, 255),
            error_fg_color: Color32::from_rgba_premultiplied(255, 0, 0, 255),
            window_rounding: Rounding {
                nw: 6.0,
                ne: 6.0,
                sw: 6.0,
                se: 6.0,
            },
            window_shadow: Shadow {
                spread: 0.0,
                color: Color32::from_rgba_premultiplied(0, 0, 0, 25),
                blur: 15.0,
                offset: Vec2 { x: 10.0, y: 20.0 },
            },
            window_fill: Color32::from_rgba_premultiplied(248, 248, 248, 255),
            window_stroke: Stroke {
                width: 1.0,
                color: Color32::from_rgba_premultiplied(190, 190, 190, 255),
            },
            menu_rounding: Rounding {
                nw: 6.0,
                ne: 6.0,
                sw: 6.0,
                se: 6.0,
            },
            panel_fill: Color32::from_rgba_premultiplied(248, 248, 248, 255),
            popup_shadow: Shadow {
                spread: 0.0,
                color: Color32::from_rgba_premultiplied(0, 0, 0, 25),
                blur: 8.0,
                offset: Vec2 { x: 6.0, y: 10.0 },
            },
            resize_corner_size: 12.0,
            text_cursor: TextCursorStyle {
                stroke: Stroke {
                    width: 2.0,
                    color: Color32::from_rgba_premultiplied(0, 83, 125, 255),
                },
                preview: false,
                ..Default::default()
            },
            clip_rect_margin: 3.0,
            button_frame: true,
            collapsing_header_frame: false,
            indent_has_left_vline: true,
            striped: false,
            slider_trailing_fill: false,
            ..Default::default()
        },
        animation_time: 0.0833333358168602,
        explanation_tooltips: false,
        ..Default::default()
    }
}
";

/// The source of the dark style, formatted.
const DARK_SOURCE: &str = "// Generated by egui-themer (https://github.com/grantshandy/egui-themer).

use eframe::egui;

use egui::{
    epaint::Shadow,
    style::{
        Interaction, ScrollStyle, Selection, Spacing, TextCursorStyle, WidgetVisuals, Widgets,
    },
    Color32, Margin, Rounding, Stroke, Style, Vec2, Visuals,
};

pub fn style() -> Style {
    Style {
        // override the text styles here:
        // override_text_style: Option<TextStyle>

        // override the font id here:
        // override_font_id: Option<FontId>

        // set your text styles here:
        // text_styles: BTreeMap<TextStyle, FontId>,

        // set your drag value text style:
        // drag_value_text_style: TextStyle,
        spacing: Spacing {
            item_spacing: Vec2 { x: 8.0, y: 3.0 },
            window_margin: Margin {
                left: 6.0,
                right: 6.0,
                top: 6.0,
                bottom: 6.0,
            },
            button_padding: Vec2 { x: 4.0, y: 1.0 },
            menu_margin: Margin {
                left: 6.0,
                right: 6.0,
                top: 6.0,
                bottom: 6.0,
            },
            indent: 18.0,
            interact_size: Vec2 { x: 40.0, y: 18.0 },
            slider_width: 100.0,
            combo_width: 100.0,
            text_edit_width: 280.0,
            icon_width: 14.0,
            icon_width_inner: 8.0,
            icon_spacing: 4.0,
            tooltip_width: 500.0,
            indent_ends_with_horizontal_line: false,
            combo_height: 200.0,
            scroll: ScrollStyle {
                bar_width: 10.0,
                handle_min_length: 12.0,
                bar_inner_margin: 4.0,
                bar_outer_margin: 0.0,
                ..Default::default()
            },
            ..Default::default()
        },
        interaction: Interaction {
            resize_grab_radius_side: 5.0,
            resize_grab_radius_corner: 10.0,
            show_tooltips_only_when_still: true,
            ..Default::default()
        },
        visuals: Visuals {
            dark_mode: true,
            override_text_color: None,
            widgets: Widgets {
                noninteractive: WidgetVisuals {
                    bg_fill: Color32::from_rgba_premultiplied(27, 27, 27, 255),
                    weak_bg_fill: Color32::from_rgba_premultiplied(27, 27, 27, 255),
                    bg_stroke: Stroke {
                        width: 1.0,
                        color: Color32::from_rgba_premultiplied(60, 60, 60, 255),
                    },
                    rounding: Rounding {
                        nw: 2.0,
                        ne: 2.0,
                        sw: 2.0,
                        se: 2.0,
                    },
                    fg_stroke: Stroke {
                        width: 1.0,
                        color: Color32::from_rgba_premultiplied(140, 140, 140, 255),
                    },
                    expansion: 0.0,
                },
                inactive: WidgetVisuals {
                    bg_fill: Color32::from_rgba_premultiplied(60, 60, 60, 255),
                    weak_bg_fill: Color32::from_rgba_premultiplied(60, 60, 60, 255),
                    bg_stroke: Stroke {
                        width: 0.0,
                        color: Color32::from_rgba_premultiplied(0, 0, 0, 0),
                    },
                    rounding: Rounding {
                        nw: 2.0,
                        ne: 2.0,
                        sw: 2.0,
                        se: 2.0,
                    },
                    fg_stroke: Stroke {
                        width: 1.0,
                        color: Color32::from_rgba_premultiplied(180, 180, 180, 255),
                    },
                    expansion: 0.0,
                },
                hovered: WidgetVisuals {
                    bg_fill: Color32::from_rgba_premultiplied(70, 70, 70, 255),
                    weak_bg_fill: Color32::from_rgba_premultiplied(70, 70, 70, 255),
                    bg_stroke: Stroke {
                        width: 1.0,
                        color: Color32::from_rgba_premultiplied(150, 150, 150, 255),
                    },
                    rounding: Rounding {
                        nw: 3.0,
                        ne: 3.0,
                        sw: 3.0,
                        se: 3.0,
                    },
                    fg_stroke: Stroke {
                        width: 1.5,
                        color: Color32::from_rgba_premultiplied(240, 240, 240, 255),
                    },
                    expansion: 1.0,
                },
                active: WidgetVisuals {
                    bg_fill: Color32::from_rgba_premultiplied(55, 55, 55, 255),
                    weak_bg_fill: Color32::from_rgba_premultiplied(55, 55, 55, 255),
                    bg_stroke: Stroke {
                        width: 1.0,
                        color: Color32::from_rgba_premultiplied(255, 255, 255, 255),
                    },
                    rounding: Rounding {
                        nw: 2.0,
                        ne: 2.0,
                        sw: 2.0,
                        se: 2.0,
                    },
                    fg_stroke: Stroke {
                        width: 2.0,
                        color: Color32::from_rgba_premultiplied(255, 255, 255, 255),
                    },
                    expansion: 1.0,
                },
                open: WidgetVisuals {
                    bg_fill: Color32::from_rgba_premultiplied(27, 27, 27, 255),
                    weak_bg_fill: Color32::from_rgba_premultiplied(45, 45, 45, 255),
                    bg_stroke: Stroke {
                        width: 1.0,
                        color: Color32::from_rgba_premultiplied(60, 60, 60, 255),
                    },
                    rounding: Rounding {
                        nw: 2.0,
                        ne: 2.0,
                        sw: 2.0,
                        se: 2.0,
                    },
                    fg_stroke: Stroke {
                        width: 1.0,
                        color: Color32::from_rgba_premultiplied(210, 210, 210, 255),
                    },
                    expansion: 0.0,
                },
            },
            selection: Selection {
                bg_fill: Color32::from_rgba_premultiplied(0, 92, 128, 255),
                stroke: Stroke {
                    width: 1.0,
                    color: Color32::from_rgba_premultiplied(192, 222, 255, 255),
                },
            },
            hyperlink_color: Color32::from_rgba_premultiplied(90, 170, 255, 255),
            faint_bg_color: Color32::from_rgba_premultiplied(5, 5, 5, 0),
            extreme_bg_color: Color32::from_rgba_premultiplied(10, 10, 10, 255),
            code_bg_color: Color32::from_rgba_premultiplied(64, 64, 64, 255),
            warn_fg_color: Color32::from_rgba_premultiplied(255, 143, 0, 255),
            error_fg_color: Color32::from_rgba_premultiplied(255, 0, 0, 255),
            window_rounding: Rounding {
                nw: 6.0,
                ne: 6.0,
                sw: 6.0,
                se: 6.0,
            },
            window_shadow: Shadow {
                spread: 0.0,
                color: Color32::from_rgba_premultiplied(0, 0, 0, 96),
                blur: 15.0,
                offset: Vec2 { x: 10.0, y: 20.0 },
            },
            window_fill: Color32::from_rgba_premultiplied(27, 27, 27, 255),
            window_stroke: Stroke {
                width: 1.0,
                color: Color32::from_rgba_premultiplied(60, 60, 60, 255),
            },
            menu_rounding: Rounding {
                nw: 6.0,
                ne: 6.0,
                sw: 6.0,
                se: 6.0,
            },
            panel_fill: Color32::from_rgba_premultiplied(27, 27, 27, 255),
            popup_shadow: Shadow {
                spread: 0.0,
                color: Color32::from_rgba_premultiplied(0, 0, 0, 96),
                blur: 8.0,
                offset: Vec2 { x: 6.0, y: 10.0 },
            },
            resize_corner_size: 12.0,
            text_cursor: TextCursorStyle {
                stroke: Stroke {
                    width: 2.0,
                    color: Color32::from_rgba_premultiplied(192, 222, 255, 255),
                },
                preview: false,
                ..Default::default()
            },
            clip_rect_margin: 3.0,
            button_frame: true,
            collapsing_header_frame: false,
            indent_has_left_vline: true,
            striped: false,
            slider_trailing_fill: false,
            ..Default::default()
        },
        animation_time: 0.0833333358168602,
        explanation_tooltips: false,
        ..Default::default()
    }
}
";

fn s(text: &str) -> Scalar {
    Scalar::new(text).unwrap()
}

fn rgba(r: u8, g: u8, b: u8, a: u8) -> Color {
    Color { r, g, b, a }
}

fn gray(l: u8) -> Color {
    rgba(l, l, l, 255)
}

fn stroke(width: &str, color: Color) -> Stroke {
    Stroke { width: s(width), color }
}

fn same(radius: &str) -> Rounding {
    Rounding { nw: s(radius), ne: s(radius), sw: s(radius), se: s(radius) }
}

fn vec2(x: &str, y: &str) -> Vector2 {
    Vector2 { x: s(x), y: s(y) }
}

fn margin(all: &str) -> Margin {
    Margin { left: s(all), right: s(all), top: s(all), bottom: s(all) }
}

fn spacing() -> Spacing {
    Spacing {
        item_spacing: vec2("8.0", "3.0"),
        window_margin: margin("6.0"),
        button_padding: vec2("4.0", "1.0"),
        menu_margin: margin("6.0"),
        indent: s("18.0"),
        interact_size: vec2("40.0", "18.0"),
        slider_width: s("100.0"),
        combo_width: s("100.0"),
        text_edit_width: s("280.0"),
        icon_width: s("14.0"),
        icon_width_inner: s("8.0"),
        icon_spacing: s("4.0"),
        tooltip_width: s("500.0"),
        indent_ends_with_horizontal_line: false,
        combo_height: s("200.0"),
        scroll: ScrollStyle {
            bar_width: s("10.0"),
            handle_min_length: s("12.0"),
            bar_inner_margin: s("4.0"),
            bar_outer_margin: s("0.0"),
        },
    }
}

fn interaction() -> Interaction {
    Interaction {
        resize_grab_radius_side: s("5.0"),
        resize_grab_radius_corner: s("10.0"),
        show_tooltips_only_when_still: true,
    }
}

fn shadow(blur: &str, x: &str, y: &str, alpha: u8) -> Shadow {
    Shadow { offset: vec2(x, y), blur: s(blur), spread: s("0.0"), color: rgba(0, 0, 0, alpha) }
}

fn style(visuals: Visuals) -> StyleModel {
    StyleModel {
        wrap_mode: None,
        spacing: spacing(),
        interaction: interaction(),
        visuals,
        animation_time: s("0.0833333358168602"),
        explanation_tooltips: false,
    }
}

/// The toolkit's light style.
fn light() -> StyleModel {
    style(Visuals {
        dark_mode: false,
        override_text_color: None,
        widgets: Widgets {
            noninteractive: WidgetVisuals {
            bg_fill: gray(248),
            weak_bg_fill: gray(248),
            bg_stroke: stroke("1.0", gray(190)),
            rounding: same("2.0"),
            fg_stroke: stroke("1.0", gray(80)),
            expansion: s("0.0"),
        },
            inactive: WidgetVisuals {
            bg_fill: gray(230),
            weak_bg_fill: gray(230),
            bg_stroke: stroke("0.0", rgba(0, 0, 0, 0)),
            rounding: same("2.0"),
            fg_stroke: stroke("1.0", gray(60)),
            expansion: s("0.0"),
        },
            hovered: WidgetVisuals {
            bg_fill: gray(220),
            weak_bg_fill: gray(220),
            bg_stroke: stroke("1.0", gray(105)),
            rounding: same("3.0"),
            fg_stroke: stroke("1.5", gray(0)),
            expansion: s("1.0"),
        },
            active: WidgetVisuals {
            bg_fill: gray(165),
            weak_bg_fill: gray(165),
            bg_stroke: stroke("1.0", gray(0)),
            rounding: same("2.0"),
            fg_stroke: stroke("2.0", gray(0)),
            expansion: s("1.0"),
        },
            open: WidgetVisuals {
            bg_fill: gray(220),
            weak_bg_fill: gray(220),
            bg_stroke: stroke("1.0", gray(160)),
            rounding: same("2.0"),
            fg_stroke: stroke("1.0", gray(0)),
            expansion: s("0.0"),
        },
        },
        selection: Selection {
            bg_fill: rgba(144, 209, 255, 255),
            stroke: stroke("1.0", rgba(0, 83, 125, 255)),
        },
        hyperlink_color: rgba(0, 155, 255, 255),
        faint_bg_color: rgba(5, 5, 5, 0),
        extreme_bg_color: gray(255),
        code_bg_color: gray(230),
        warn_fg_color: rgba(255, 100, 0, 255),
        error_fg_color: rgba(255, 0, 0, 255),
        window_rounding: same("6.0"),
        window_shadow: shadow("15.0", "10.0", "20.0", 25),
        window_fill: gray(248),
        window_stroke: stroke("1.0", gray(190)),
        menu_rounding: same("6.0"),
        panel_fill: gray(248),
        popup_shadow: shadow("8.0", "6.0", "10.0", 25),
        resize_corner_size: s("12.0"),
        text_cursor: TextCursor { stroke: stroke("2.0", rgba(0, 83, 125, 255)), preview: false },
        clip_rect_margin: s("3.0"),
        button_frame: true,
        collapsing_header_frame: false,
        indent_has_left_vline: true,
        striped: false,
        slider_trailing_fill: false,
    })
}

/// The toolkit's dark style.
fn dark() -> StyleModel {
    style(Visuals {
        dark_mode: true,
        override_text_color: None,
        widgets: Widgets {
            noninteractive: WidgetVisuals {
            bg_fill: gray(27),
            weak_bg_fill: gray(27),
            bg_stroke: stroke("1.0", gray(60)),
            rounding: same("2.0"),
            fg_stroke: stroke("1.0", gray(140)),
            expansion: s("0.0"),
        },
            inactive: WidgetVisuals {
            bg_fill: gray(60),
            weak_bg_fill: gray(60),
            bg_stroke: stroke("0.0", rgba(0, 0, 0, 0)),
            rounding: same("2.0"),
            fg_stroke: stroke("1.0", gray(180)),
            expansion: s("0.0"),
        },
            hovered: WidgetVisuals {
            bg_fill: gray(70),
            weak_bg_fill: gray(70),
            bg_stroke: stroke("1.0", gray(150)),
            rounding: same("3.0"),
            fg_stroke: stroke("1.5", gray(240)),
            expansion: s("1.0"),
        },
            active: WidgetVisuals {
            bg_fill: gray(55),
            weak_bg_fill: gray(55),
            bg_stroke: stroke("1.0", gray(255)),
            rounding: same("2.0"),
            fg_stroke: stroke("2.0", gray(255)),
            expansion: s("1.0"),
        },
            open: WidgetVisuals {
            bg_fill: gray(27),
            weak_bg_fill: gray(45),
            bg_stroke: stroke("1.0", gray(60)),
            rounding: same("2.0"),
            fg_stroke: stroke("1.0", gray(210)),
            expansion: s("0.0"),
        },
        },
        selection: Selection {
            bg_fill: rgba(0, 92, 128, 255),
            stroke: stroke("1.0", rgba(192, 222, 255, 255)),
        },
        hyperlink_color: rgba(90, 170, 255, 255),
        faint_bg_color: rgba(5, 5, 5, 0),
        extreme_bg_color: gray(10),
        code_bg_color: gray(64),
        warn_fg_color: rgba(255, 143, 0, 255),
        error_fg_color: rgba(255, 0, 0, 255),
        window_rounding: same("6.0"),
        window_shadow: shadow("15.0", "10.0", "20.0", 96),
        window_fill: gray(27),
        window_stroke: stroke("1.0", gray(60)),
        menu_rounding: same("6.0"),
        panel_fill: gray(27),
        popup_shadow: shadow("8.0", "6.0", "10.0", 96),
        resize_corner_size: s("12.0"),
        text_cursor: TextCursor { stroke: stroke("2.0", rgba(192, 222, 255, 255)), preview: false },
        clip_rect_margin: s("3.0"),
        button_frame: true,
        collapsing_header_frame: false,
        indent_has_left_vline: true,
        striped: false,
        slider_trailing_fill: false,
    })
}

/// The text without white space and without the commas that a formatter puts
/// before a closing brace.
fn squeeze(text: &str) -> String {
    let dense: String = text.chars().filter(|c| !c.is_whitespace()).collect();
    dense.replace(",}", "}")
}

#[test]
fn light_default() {
    let source = render_source(&light(), true).unwrap();
    assert_eq!(squeeze(&source), squeeze(LIGHT_SOURCE));
}

#[test]
fn dark_default() {
    let source = render_source(&dark(), true).unwrap();
    assert_eq!(squeeze(&source), squeeze(DARK_SOURCE));
    assert_ne!(squeeze(DARK_SOURCE), squeeze(LIGHT_SOURCE));
}

#[test]
fn source_without_eframe_leaves_the_import_out() {
    let with = render_source(&light(), true).unwrap();
    let without = render_source(&light(), false).unwrap();
    assert!(with.contains("use eframe::egui;"));
    assert!(!without.contains("eframe"));
    assert_eq!(squeeze(&with).replace("useeframe::egui;", ""), squeeze(&without));
}

#[test]
fn rendering_twice_gives_the_same_source() {
    let style = dark();
    assert_eq!(render_source(&style, false), render_source(&style, false));
    assert_eq!(generate_source(&style, true), generate_source(&style, true));
}

#[test]
fn generated_source_is_formatted_or_the_formatter_is_reported() {
    match generate_source(&light(), true) {
        Ok(source) => {
            assert_eq!(squeeze(&source), squeeze(LIGHT_SOURCE));
            assert!(source.contains("\npub fn style() -> Style {\n    Style {\n"));
            assert!(source.ends_with("}\n"));
        }
        // Where no formatter is installed the call fails; a formatter that ran
        // must not have refused the source.
        Err(GenError::Format(message)) => assert!(
            !message.is_empty()
                && !message.starts_with("An error occurred while formatting the source code"),
            "{}",
            message
        ),
        Err(GenError::Template(message)) => panic!("the template failed: {}", message),
    }
}

#[test]
fn formatter_outcome_is_passed_on() {
    assert_eq!(formatted(Ok(String::from("fn main() {}\n"))), Ok(String::from("fn main() {}\n")));
    let diagnostic =
        rust_format::Error::BadSourceCode(String::from("error: expected `}`\n --> <stdin>:3:1"))
            .to_string();
    assert_eq!(
        diagnostic,
        "An error occurred while formatting the source code: error: expected `}`\n --> <stdin>:3:1"
    );
    let refused = formatted(Err(diagnostic.clone()));
    assert_eq!(refused, Err(GenError::Format(diagnostic.clone())));
    assert_eq!(refused.unwrap_err().message(), diagnostic);
    assert_eq!(flattened(formatted(Err(diagnostic.clone()))), Err(diagnostic));
    assert_eq!(flattened(Ok(String::from("fn main() {}\n"))), Ok(String::from("fn main() {}\n")));
    assert_eq!(
        flattened(Err(GenError::Template(String::from("no such place")))),
        Err(String::from("no such place"))
    );
}

#[test]
fn hyperlink_color_of_the_light_style() {
    let style = light();
    let back = decode(&encode(&style, true).unwrap()).unwrap();
    assert_eq!(back.visuals.dark_mode, false);
    assert_eq!(back.visuals.hyperlink_color, Color { r: 0, g: 155, b: 255, a: 255 });
    assert_eq!(back.visuals.window_rounding, same("6.0"));
    assert_eq!(back.animation_time.as_str(), "0.0833333358168602");
    let animation_time: f64 = back.animation_time.as_str().parse().unwrap();
    assert!((animation_time - 0.0833).abs() < 0.0001);
    let source = render_source(&style, false).unwrap();
    assert!(source
        .contains("hyperlink_color: Color32::from_rgba_premultiplied(0, 155, 255, 255),"));
}

#[test]
fn round_trip() {
    for style in [light(), dark()] {
        for pretty in [false, true] {
            let text = encode(&style, pretty).unwrap();
            assert_eq!(decode(&text), Ok(style.clone()));
        }
    }
}

#[test]
fn round_trip_of_unusual_values() {
    let mut style = dark();
    style.wrap_mode = Some(false);
    style.visuals.override_text_color = Some(rgba(1, 22, 133, 0));
    style.visuals.window_rounding =
        Rounding { nw: s("0.5"), ne: s("1.25e-7"), sw: s("-3.0"), se: s("12345678.5e+20") };
    style.visuals.widgets.hovered.expansion = s("-0.0");
    style.spacing.scroll.bar_outer_margin = s("340282346638528860000000000000000000000.0");
    style.animation_time = s("0.1000000000000000055511151231257827");
    for pretty in [false, true] {
        let text = encode(&style, pretty).unwrap();
        assert_eq!(decode(&text), Ok(style.clone()));
    }
}

#[test]
fn compact_text() {
    let text = encode(&light(), false).unwrap();
    assert!(text.starts_with(
        "{\"wrap_mode\":null,\"spacing\":{\"item_spacing\":{\"x\":8.0,\"y\":3.0},\
         \"window_margin\":{\"left\":6.0,\"right\":6.0,\"top\":6.0,\"bottom\":6.0},"
    ));
    assert!(text.contains(
        "\"selection\":{\"bg_fill\":[144,209,255,255],\
         \"stroke\":{\"width\":1.0,\"color\":[0,83,125,255]}},\
         \"hyperlink_color\":[0,155,255,255],"
    ));
    assert!(text.contains(
        "\"window_shadow\":{\"offset\":{\"x\":10.0,\"y\":20.0},\"blur\":15.0,\
         \"spread\":0.0,\"color\":[0,0,0,25]},"
    ));
    assert!(text
        .ends_with("\"animation_time\":0.0833333358168602,\"explanation_tooltips\":false}"));
    assert!(!text.contains('\n'));
}

#[test]
fn pretty_text_differs_in_white_space_only() {
    let compact = encode(&light(), false).unwrap();
    let pretty = encode(&light(), true).unwrap();
    assert!(pretty.starts_with(
        "{\n  \"wrap_mode\": null,\n  \"spacing\": {\n    \"item_spacing\": {\n      \"x\": 8.0,\n"
    ));
    let dense: String = pretty.chars().filter(|c| !c.is_whitespace()).collect();
    assert_eq!(dense, compact);
}

#[test]
fn corner_independence() {
    let style = light();
    let mut changed = style.clone();
    changed.visuals.window_rounding.se = s("9.5");
    let text = encode(&style, false).unwrap();
    let changed_text = encode(&changed, false).unwrap();
    assert_eq!(
        changed_text,
        text.replacen(
            "\"window_rounding\":{\"nw\":6.0,\"ne\":6.0,\"sw\":6.0,\"se\":6.0}",
            "\"window_rounding\":{\"nw\":6.0,\"ne\":6.0,\"sw\":6.0,\"se\":9.5}",
            1
        )
    );
    assert_ne!(changed_text, text);
    assert_eq!(gen_rounding(&style.visuals.window_rounding), "Rounding { nw: 6.0, ne: 6.0, sw: 6.0, se: 6.0 }");
    assert_eq!(
        gen_rounding(&changed.visuals.window_rounding),
        "Rounding { nw: 6.0, ne: 6.0, sw: 6.0, se: 9.5 }"
    );
    let source = render_source(&style, true).unwrap();
    let changed_source = render_source(&changed, true).unwrap();
    assert_eq!(
        changed_source,
        source.replacen(
            "window_rounding: Rounding { nw: 6.0, ne: 6.0, sw: 6.0, se: 6.0 }",
            "window_rounding: Rounding { nw: 6.0, ne: 6.0, sw: 6.0, se: 9.5 }",
            1
        )
    );
    assert_ne!(changed_source, source);
}

#[test]
fn color_without_alpha_is_rejected() {
    let text = encode(&light(), false).unwrap();
    let broken = text.replacen("\"hyperlink_color\":[0,155,255,255]", "\"hyperlink_color\":[0,155,255]", 1);
    assert_ne!(broken, text);
    assert_eq!(
        decode(&broken),
        Err(DecodeError::Mismatch(String::from("visuals.hyperlink_color")))
    );
}

#[test]
fn channels_out_of_range_are_rejected() {
    let text = encode(&light(), false).unwrap();
    for channels in ["[0,155,256,255]", "[0,155,-1,255]", "[0,155,1.0,255]", "[0,155,\"1\",255]", "[0,155,255,255,0]", "7"] {
        let broken = text.replacen("\"hyperlink_color\":[0,155,255,255]", &format!("\"hyperlink_color\":{}", channels), 1);
        assert_eq!(
            decode(&broken),
            Err(DecodeError::Mismatch(String::from("visuals.hyperlink_color")))
        );
    }
}

#[test]
fn missing_member_is_rejected() {
    let text = encode(&light(), false).unwrap();
    let broken = text.replacen("\"indent\":18.0,", "", 1);
    assert_ne!(broken, text);
    assert_eq!(decode(&broken), Err(DecodeError::Missing(String::from("spacing.indent"))));
    let broken = text.replacen("\"se\":2.0", "\"south_east\":2.0", 1);
    assert_eq!(
        decode(&broken),
        Err(DecodeError::Missing(String::from("visuals.widgets.noninteractive.rounding.se")))
    );
}

#[test]
fn wrong_shape_is_rejected() {
    let text = encode(&light(), false).unwrap();
    let broken = text.replacen("\"indent\":18.0,", "\"indent\":\"18.0\",", 1);
    assert_eq!(decode(&broken), Err(DecodeError::Mismatch(String::from("spacing.indent"))));
    let broken = text.replacen("\"dark_mode\":false", "\"dark_mode\":0", 1);
    assert_eq!(decode(&broken), Err(DecodeError::Mismatch(String::from("visuals.dark_mode"))));
    let broken = text.replacen("\"interaction\":{", "\"interaction\":[],\"other\":{", 1);
    assert_eq!(decode(&broken), Err(DecodeError::Mismatch(String::from("interaction"))));
    assert_eq!(decode("[]"), Err(DecodeError::Mismatch(String::new())));
    assert_eq!(decode("null"), Err(DecodeError::Mismatch(String::new())));
}

#[test]
fn text_that_is_no_json_is_rejected() {
    for text in ["", "{", "{\"wrap_mode\":null,}", "style"] {
        match decode(text) {
            Err(DecodeError::Syntax(message)) => assert!(!message.is_empty()),
            other => panic!("{:?}", other),
        }
    }
    assert_eq!(
        decode("{\"wrap_mode\": nul}").unwrap_err(),
        DecodeError::Syntax(String::from("expected ident at line 1 column 18"))
    );
}

#[test]
fn the_first_fault_in_the_order_of_the_fields_is_reported() {
    let text = encode(&light(), false).unwrap();
    let broken = text
        .replacen("\"indent\":18.0,", "", 1)
        .replacen("\"hyperlink_color\":[0,155,255,255]", "\"hyperlink_color\":[]", 1)
        .replacen("\"animation_time\":0.0833333358168602,", "", 1);
    assert_eq!(decode(&broken), Err(DecodeError::Missing(String::from("spacing.indent"))));
}

#[test]
fn unknown_members_are_passed_over() {
    let style = light();
    let text = encode(&style, false).unwrap();
    let more = text
        .replacen("\"indent\":18.0,", "\"indent\":18.0,\"menu_width\":400.0,", 1)
        .replacen("{\"wrap_mode\":null,", "{\"wrap\":true,\"wrap_mode\":null,", 1);
    assert_ne!(more, text);
    assert_eq!(decode(&more), Ok(style));
}

#[test]
fn members_in_another_order_are_read() {
    let style = light();
    let text = encode(&style, false).unwrap();
    let swapped = text.replacen(
        "\"window_rounding\":{\"nw\":6.0,\"ne\":6.0,\"sw\":6.0,\"se\":6.0}",
        "\"window_rounding\":{\"se\":6.0,\"sw\":6.0,\"ne\":6.0,\"nw\":6.0}",
        1,
    );
    assert_ne!(swapped, text);
    assert_eq!(decode(&swapped), Ok(style));
}

#[test]
fn whole_numbers_are_read_as_measures() {
    let text = encode(&light(), false).unwrap();
    let whole = text
        .replacen("\"indent\":18.0,", "\"indent\":18,", 1)
        .replacen("\"slider_width\":100.0,", "\"slider_width\":1E2,", 1)
        .replacen("\"combo_width\":100.0,", "\"combo_width\":-0,", 1);
    let style = decode(&whole).unwrap();
    assert_eq!(style.spacing.indent.as_str(), "18.0");
    assert_eq!(style.spacing.slider_width.as_str(), "1e+2");
    assert_eq!(style.spacing.combo_width.as_str(), "-0.0");
    let again = decode(&encode(&style, false).unwrap()).unwrap();
    assert_eq!(again, style);
}

#[test]
fn wrap_has_three_states() {
    let mut unset = light();
    unset.wrap_mode = None;
    let mut on = light();
    on.wrap_mode = Some(true);
    let mut off = light();
    off.wrap_mode = Some(false);
    let texts = [
        encode(&unset, false).unwrap(),
        encode(&on, false).unwrap(),
        encode(&off, false).unwrap(),
    ];
    assert!(texts[0].starts_with("{\"wrap_mode\":null,"));
    assert!(texts[1].starts_with("{\"wrap_mode\":\"Wrap\","));
    assert!(texts[2].starts_with("{\"wrap_mode\":\"Truncate\","));
    assert_eq!(decode(&texts[0]).unwrap().wrap_mode, None);
    assert_eq!(decode(&texts[1]).unwrap().wrap_mode, Some(true));
    assert_eq!(decode(&texts[2]).unwrap().wrap_mode, Some(false));
    let absent = texts[0].replacen("\"wrap_mode\":null,", "", 1);
    assert_eq!(decode(&absent), Ok(unset));
    let extend = texts[0].replacen("\"wrap_mode\":null,", "\"wrap_mode\":\"Extend\",", 1);
    assert_eq!(decode(&extend), Ok(off));
    for other in ["true", "\"wrap\"", "\"\"", "1", "[]"] {
        let broken =
            texts[0].replacen("\"wrap_mode\":null,", &format!("\"wrap_mode\":{},", other), 1);
        assert_eq!(decode(&broken), Err(DecodeError::Mismatch(String::from("wrap_mode"))));
    }
}

#[test]
fn wrap_is_generated_where_it_is_set() {
    let mut style = light();
    let unset = render_source(&style, true).unwrap();
    assert!(!unset.contains("wrap"));
    style.wrap_mode = Some(true);
    let on = render_source(&style, true).unwrap();
    assert_eq!(
        squeeze(&on),
        squeeze(&unset).replacen(
            "spacing:Spacing{",
            "wrap_mode:Some(egui::TextWrapMode::Wrap),spacing:Spacing{",
            1
        )
    );
    style.wrap_mode = Some(false);
    let off = render_source(&style, true).unwrap();
    assert!(off.contains("        wrap_mode: Some(egui::TextWrapMode::Truncate),\n"));
    assert_eq!(gen_wrap_mode(None), "");
}

#[test]
fn override_color_may_be_null_or_left_out() {
    let mut style = light();
    let text = encode(&style, false).unwrap();
    assert!(text.contains("\"override_text_color\":null,"));
    let absent = text.replacen("\"override_text_color\":null,", "", 1);
    assert_eq!(decode(&absent), Ok(style.clone()));
    style.visuals.override_text_color = Some(rgba(255, 255, 255, 255));
    let text = encode(&style, false).unwrap();
    assert!(text.contains("\"override_text_color\":[255,255,255,255],"));
    assert_eq!(decode(&text), Ok(style.clone()));
    let source = render_source(&style, false).unwrap();
    assert!(source.contains(
        "override_text_color: Some(Color32::from_rgba_premultiplied(255, 255, 255, 255)),"
    ));
}

#[test]
fn export_follows_the_menu() {
    let style = light();
    let menu = ExportMenu::default();
    assert_eq!(menu.export_format, ExportFormat::RustSource);
    assert!(!menu.eframe && !menu.json_pretty);
    assert_eq!(menu.file_name(), "style.rs");
    assert_eq!(
        menu.export(&style),
        generate_source(&style, false).map_err(|error| error.message())
    );
    let json = ExportMenu { eframe: true, export_format: ExportFormat::Json, json_pretty: false };
    assert_eq!(json.file_name(), "style.json");
    assert_eq!(json.export(&style), Ok(encode(&style, false).unwrap()));
    let pretty = ExportMenu { json_pretty: true, ..json };
    assert_eq!(pretty.export(&style), Ok(encode(&style, true).unwrap()));
    assert_ne!(pretty.export(&style), json.export(&style));
}

#[test]
fn export_format_names() {
    assert_eq!(ExportFormat::RustSource.name(), "Rust Source");
    assert_eq!(ExportFormat::Json.name(), "JSON");
    assert_eq!(ExportFormat::RustSource.extension(), "rs");
    assert_eq!(ExportFormat::Json.extension(), "json");
    assert_eq!(ExportFormat::default(), ExportFormat::RustSource);
}

#[test]
fn import_gives_the_style_or_the_fault_in_words() {
    let style = dark();
    let menu = ImportMenu::default();
    let text = encode(&style, true).unwrap();
    assert_eq!(menu.import(&text), Ok(style));
    let broken = text.replacen("\"indent\": 18.0,", "", 1);
    assert_eq!(menu.import(&broken), Err(String::from("missing field `spacing.indent`")));
    let broken = text.replacen("\"dark_mode\": true", "\"dark_mode\": 1", 1);
    assert_eq!(menu.import(&broken), Err(String::from("invalid value at `visuals.dark_mode`")));
    assert_eq!(menu.import("7"), Err(String::from("invalid value")));
    assert_eq!(
        menu.import("{"),
        Err(String::from("EOF while parsing an object at line 1 column 1"))
    );
}

#[test]
fn a_template_of_ones_own_is_filled_in() {
    let template = "{{#if eframe}}with{{else}}without{{/if}}: \
                    {{{style.visuals.hyperlink_color}}}, {{{style.spacing.window_margin.left}}}, \
                    {{{style.visuals.striped}}}, {{{style.visuals.override_text_color}}}";
    assert_eq!(
        render_with(template, &light(), true),
        Ok(String::from(
            "with: Color32::from_rgba_premultiplied(0, 155, 255, 255), 6.0, false, None"
        ))
    );
    assert_eq!(
        render_with(template, &dark(), false),
        Ok(String::from(
            "without: Color32::from_rgba_premultiplied(90, 170, 255, 255), 6.0, false, None"
        ))
    );
    assert_eq!(render_with("no places", &dark(), false), Ok(String::from("no places")));
    assert_eq!(render_with(TEMPLATE, &dark(), false), render_source(&dark(), false));
}

#[test]
fn a_broken_template_is_reported() {
    match render_with("{{#if eframe}}never closed", &light(), true) {
        Err(GenError::Template(message)) => assert!(!message.is_empty()),
        other => panic!("{:?}", other),
    }
    let error = render_with("{{{style.visuals", &light(), true).unwrap_err();
    assert!(matches!(error, GenError::Template(_)));
}

#[test]
fn a_place_without_a_binding_is_reported() {
    match render_with("debug: {{{style.debug}}}", &light(), true) {
        Err(GenError::Template(message)) => assert!(message.contains("style.debug")),
        other => panic!("{:?}", other),
    }
    assert!(render_with("{{{style.visuals.widgets.open}}}", &light(), true).is_ok());
    assert!(render_with("{{{style.visuals.widgets.closed}}}", &light(), true).is_err());
    assert_eq!(GenError::Template(String::from("no such place")).message(), "no such place");
}
