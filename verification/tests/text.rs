use egui_themer::literal::{
    gen_bool, gen_color32, gen_optional_color, gen_scalar, gen_stroke, gen_vec2,
    gen_widget_visuals,
};
use egui_themer::model::{Color, Rounding, Scalar, Stroke, Vector2, WidgetVisuals};
use egui_themer::text::{channel_text, number_form, parse_channel, NumberForm};

fn s(text: &str) -> Scalar {
    Scalar::new(text).unwrap()
}

#[test]
fn channels_are_written_in_decimal() {
    assert_eq!(channel_text(0), "0");
    assert_eq!(channel_text(9), "9");
    assert_eq!(channel_text(10), "10");
    assert_eq!(channel_text(99), "99");
    assert_eq!(channel_text(100), "100");
    assert_eq!(channel_text(207), "207");
    assert_eq!(channel_text(255), "255");
}

#[test]
fn channels_are_read_back() {
    for n in 0..=255u8 {
        assert_eq!(parse_channel(&channel_text(n)), Some(n));
    }
}

#[test]
fn what_is_no_channel_is_refused() {
    for text in ["", "256", "999", "1000", "007", "00", "-1", "+1", "1.0", "1e2", " 1", "a", "\u{663}"] {
        assert_eq!(parse_channel(text), None, "{:?}", text);
    }
}

#[test]
fn number_literals_are_told_apart() {
    for text in ["0", "7", "-7", "-0", "10", "18446744073709551616"] {
        assert_eq!(number_form(text), NumberForm::Integer, "{:?}", text);
    }
    for text in ["0.0", "6.0", "-6.25", "0.0833333358168602", "1e+5", "1e-5", "-1.5e+300", "10.01e-0"] {
        assert_eq!(number_form(text), NumberForm::Float, "{:?}", text);
    }
    for text in [
        "", "-", ".", ".5", "5.", "01", "-01", "00", "1e5", "1E+5", "1e", "1e+", "1e+5x", "1.e+5",
        "1.5.5", "+1", " 1", "1 ", "1,5", "NaN", "inf", "0x10", "\u{663}.0", "1.\u{663}",
    ] {
        assert_eq!(number_form(text), NumberForm::Invalid, "{:?}", text);
    }
}

#[test]
fn number_literals_are_those_that_the_json_reader_keeps_as_they_are() {
    for text in [
        "0", "-0", "7", "-7", "10", "01", "007", "-01", "18446744073709551615",
        "18446744073709551616", "-9223372036854775809", "0.0", "0.10", "6.0", "-6.25", "6.",
        ".5", "1e5", "1E5", "1e+5", "1E+5", "1e-5", "1e+05", "1.5e+300", "1e+999", "1.e+5", "1e",
        "1e+", "", "-", "+1", " 1", "1 ", "1,5", "NaN", "1.5.5", "0x10", "1_000",
    ] {
        let kept = match text.parse::<serde_json::Number>() {
            Ok(number) => number.as_str() == text,
            Err(_) => false,
        };
        assert_eq!(number_form(text) != NumberForm::Invalid, kept, "{:?}", text);
    }
}

#[test]
fn scalars_are_floating_point_literals() {
    assert_eq!(Scalar::new("6.0").unwrap().as_str(), "6.0");
    assert_eq!(Scalar::new("-1.5e-7").unwrap().to_text(), "-1.5e-7");
    assert_eq!(Scalar::new("6"), None);
    assert_eq!(Scalar::new("six"), None);
    assert_eq!(Scalar::new("1e5"), None);
    assert_eq!(Scalar::new(""), None);
}

#[test]
fn whole_numbers_get_a_fraction() {
    assert_eq!(Scalar::from_number("6").unwrap().as_str(), "6.0");
    assert_eq!(Scalar::from_number("-0").unwrap().as_str(), "-0.0");
    assert_eq!(Scalar::from_number("6.5").unwrap().as_str(), "6.5");
    assert_eq!(Scalar::from_number("1e+5").unwrap().as_str(), "1e+5");
    assert_eq!(Scalar::from_number("6."), None);
    assert_eq!(Scalar::from_number("06"), None);
    assert_eq!(Scalar::from_number("6").unwrap(), s("6.0"));
    assert_eq!(s("6.0").clone(), s("6.0"));
    assert_ne!(s("6.0"), s("6.00"));
}

#[test]
fn literals_of_leaves() {
    assert_eq!(gen_bool(true), "true");
    assert_eq!(gen_bool(false), "false");
    assert_eq!(gen_scalar(&s("0.0833333358168602")), "0.0833333358168602");
    let color = Color { r: 0, g: 155, b: 255, a: 7 };
    assert_eq!(gen_color32(color), "Color32::from_rgba_premultiplied(0, 155, 255, 7)");
    assert_eq!(gen_optional_color(None), "None");
    assert_eq!(
        gen_optional_color(Some(color)),
        "Some(Color32::from_rgba_premultiplied(0, 155, 255, 7))"
    );
    assert_eq!(gen_vec2(&Vector2 { x: s("8.0"), y: s("-3.5") }), "Vec2 { x: 8.0, y: -3.5}");
}

#[test]
fn literal_of_a_stroke() {
    let stroke = Stroke { width: s("1.5"), color: Color { r: 1, g: 2, b: 3, a: 4 } };
    assert_eq!(
        gen_stroke(&stroke),
        "Stroke {\n            width: 1.5,\n            color: Color32::from_rgba_premultiplied(1, 2, 3, 4),\n        }"
    );
}

#[test]
fn literal_of_widget_visuals() {
    let visuals = WidgetVisuals {
        bg_fill: Color { r: 10, g: 20, b: 30, a: 40 },
        weak_bg_fill: Color { r: 11, g: 21, b: 31, a: 41 },
        bg_stroke: Stroke { width: s("1.0"), color: Color { r: 1, g: 2, b: 3, a: 4 } },
        rounding: Rounding { nw: s("1.0"), ne: s("2.0"), sw: s("3.0"), se: s("4.0") },
        fg_stroke: Stroke { width: s("2.0"), color: Color { r: 5, g: 6, b: 7, a: 8 } },
        expansion: s("0.5"),
    };
    let stroke = |width: &str, color: &str| {
        format!(
            "Stroke {{\n            width: {},\n            color: Color32::from_rgba_premultiplied({}),\n        }}",
            width, color
        )
    };
    assert_eq!(
        gen_widget_visuals(&visuals),
        format!(
            "WidgetVisuals {{\n        bg_fill: Color32::from_rgba_premultiplied(10, 20, 30, 40),\n        \
             weak_bg_fill: Color32::from_rgba_premultiplied(11, 21, 31, 41),\n        \
             bg_stroke: {},\n        \
             rounding: Rounding {{ nw: 1.0, ne: 2.0, sw: 3.0, se: 4.0 }},\n        \
             fg_stroke: {},\n        \
             expansion: 0.5,\n    }}",
            stroke("1.0", "1, 2, 3, 4"),
            stroke("2.0", "5, 6, 7, 8")
        )
    );
}
