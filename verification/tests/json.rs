use egui_themer::codec::EncodeError;
use egui_themer::fault::DecodeError;
use egui_themer::json::Json;
use egui_themer::leaves::{
    bool_from_json, color_from_json, color_to_json, optional_color_from_json, scalar_from_json,
    scalar_to_json, wrap_mode_from_json, wrap_mode_to_json,
};
use egui_themer::model::{Color, Scalar};
use egui_themer::records::{rounding_from_json, rounding_to_json, stroke_from_json};

fn number(text: &str) -> Json {
    Json::Number(String::from(text))
}

fn object(members: &[(&str, &str)]) -> Json {
    Json::Object(members.iter().map(|(name, value)| (String::from(*name), number(value))).collect())
}

#[test]
fn members_are_found_by_name() {
    let json = object(&[("nw", "1.0"), ("ne", "2.0"), ("nw", "3.0")]);
    assert!(json.is_object());
    assert!(matches!(json.member("nw"), Some(Json::Number(n)) if n == "1.0"));
    assert!(matches!(json.member("ne"), Some(Json::Number(n)) if n == "2.0"));
    assert!(json.member("sw").is_none());
    assert!(json.member("n").is_none());
    assert!(json.member("").is_none());
    assert!(!number("1").is_object());
    assert!(number("1").member("nw").is_none());
    assert!(Json::Array(vec![number("1")]).member("0").is_none());
}

#[test]
fn trees_are_compared_by_value() {
    let a = object(&[("nw", "1.0"), ("ne", "2.0")]);
    assert!(a.same(&object(&[("nw", "1.0"), ("ne", "2.0")])));
    assert!(!a.same(&object(&[("ne", "2.0"), ("nw", "1.0")])));
    assert!(!a.same(&object(&[("nw", "1.0"), ("ne", "2.00")])));
    assert!(!a.same(&object(&[("nw", "1.0"), ("n", "2.0")])));
    assert!(!a.same(&object(&[("nw", "1.0")])));
    assert!(!a.same(&Json::Null));
    assert!(Json::Null.same(&Json::Null));
    assert!(Json::Bool(true).same(&Json::Bool(true)));
    assert!(!Json::Bool(true).same(&Json::Bool(false)));
    assert!(!number("1").same(&Json::Text(String::from("1"))));
    assert!(Json::Text(String::from("1")).same(&Json::Text(String::from("1"))));
    let nested = |last: &str| {
        Json::Array(vec![Json::Null, Json::Array(vec![number("1"), object(&[("x", last)])])])
    };
    assert!(nested("7").same(&nested("7")));
    assert!(!nested("7").same(&nested("8")));
    assert!(!nested("7").same(&Json::Array(vec![Json::Null])));
    assert!(Json::Array(vec![]).same(&Json::Array(vec![])));
    assert!(!Json::Array(vec![]).same(&Json::Object(vec![])));
}

#[test]
fn color_is_an_array_of_four_channels() {
    let color = Color { r: 0, g: 155, b: 255, a: 255 };
    match color_to_json(color) {
        Json::Array(items) => {
            assert_eq!(items.len(), 4);
            assert!(matches!(&items[0], Json::Number(n) if n == "0"));
            assert!(matches!(&items[1], Json::Number(n) if n == "155"));
            assert!(matches!(&items[2], Json::Number(n) if n == "255"));
            assert!(matches!(&items[3], Json::Number(n) if n == "255"));
        }
        other => panic!("{:?}", other),
    }
    assert_eq!(color_from_json(&color_to_json(color)), Ok(color));
    let three = Json::Array(vec![number("0"), number("155"), number("255")]);
    assert_eq!(color_from_json(&three), Err(DecodeError::Mismatch(String::new())));
    let text = Json::Array(vec![
        number("0"),
        number("155"),
        Json::Text(String::from("255")),
        number("255"),
    ]);
    assert_eq!(color_from_json(&text), Err(DecodeError::Mismatch(String::new())));
    assert_eq!(color_from_json(&Json::Null), Err(DecodeError::Mismatch(String::new())));
    assert_eq!(optional_color_from_json(&Json::Null), Ok(None));
    assert_eq!(optional_color_from_json(&color_to_json(color)), Ok(Some(color)));
    assert_eq!(optional_color_from_json(&three), Err(DecodeError::Mismatch(String::new())));
}

#[test]
fn leaves_are_read_from_their_own_kind_only() {
    assert_eq!(bool_from_json(&Json::Bool(true)), Ok(true));
    assert_eq!(bool_from_json(&Json::Null), Err(DecodeError::Mismatch(String::new())));
    let mode = |name: &str| Json::Text(String::from(name));
    assert_eq!(wrap_mode_from_json(&Json::Null), Ok(None));
    assert_eq!(wrap_mode_from_json(&mode("Wrap")), Ok(Some(true)));
    assert_eq!(wrap_mode_from_json(&mode("Truncate")), Ok(Some(false)));
    assert_eq!(wrap_mode_from_json(&mode("Extend")), Ok(Some(false)));
    assert_eq!(wrap_mode_from_json(&mode("wrap")), Err(DecodeError::Mismatch(String::new())));
    assert_eq!(wrap_mode_from_json(&Json::Bool(true)), Err(DecodeError::Mismatch(String::new())));
    assert!(matches!(wrap_mode_to_json(None), Json::Null));
    assert!(matches!(wrap_mode_to_json(Some(true)), Json::Text(name) if name == "Wrap"));
    assert!(matches!(wrap_mode_to_json(Some(false)), Json::Text(name) if name == "Truncate"));
    assert_eq!(scalar_from_json(&number("2.5")), Ok(Scalar::new("2.5").unwrap()));
    assert_eq!(scalar_from_json(&number("2")), Ok(Scalar::new("2.0").unwrap()));
    assert_eq!(scalar_from_json(&number("two")), Err(DecodeError::Mismatch(String::new())));
    assert_eq!(
        scalar_from_json(&Json::Text(String::from("2.5"))),
        Err(DecodeError::Mismatch(String::new()))
    );
    assert!(matches!(scalar_to_json(&Scalar::new("2.5").unwrap()), Json::Number(n) if n == "2.5"));
}

#[test]
fn records_are_read_member_by_member() {
    let rounding =
        rounding_from_json(&object(&[("se", "4.0"), ("sw", "3"), ("ne", "2.0"), ("nw", "1.0")]))
            .unwrap();
    assert_eq!(rounding.nw.as_str(), "1.0");
    assert_eq!(rounding.ne.as_str(), "2.0");
    assert_eq!(rounding.sw.as_str(), "3.0");
    assert_eq!(rounding.se.as_str(), "4.0");
    assert_eq!(rounding_from_json(&rounding_to_json(&rounding)), Ok(rounding));
    assert_eq!(
        rounding_from_json(&object(&[("nw", "1.0"), ("ne", "2.0"), ("se", "4.0")])),
        Err(DecodeError::Missing(String::from("sw")))
    );
    assert_eq!(
        rounding_from_json(&object(&[("nw", "1.0"), ("ne", "x"), ("se", "4.0")])),
        Err(DecodeError::Mismatch(String::from("ne")))
    );
    assert_eq!(
        stroke_from_json(&object(&[("width", "1.0"), ("color", "7")])),
        Err(DecodeError::Mismatch(String::from("color")))
    );
    assert_eq!(rounding_from_json(&number("1.0")), Err(DecodeError::Mismatch(String::new())));
}

#[test]
fn encode_errors_in_words() {
    assert_eq!(EncodeError::Write(String::from("key must be a string")).message(), "key must be a string");
    assert_eq!(EncodeError::ReadBack.message(), "the text does not read back as the style");
}

#[test]
fn errors_in_words() {
    assert_eq!(DecodeError::Syntax(String::from("no JSON")).message(), "no JSON");
    assert_eq!(DecodeError::Missing(String::from("a.b")).message(), "missing field `a.b`");
    assert_eq!(DecodeError::Mismatch(String::from("a.b")).message(), "invalid value at `a.b`");
    assert_eq!(DecodeError::Mismatch(String::new()).message(), "invalid value");
    assert_eq!(
        DecodeError::Missing(String::from("b")).within("a"),
        DecodeError::Missing(String::from("a.b"))
    );
    assert_eq!(
        DecodeError::Mismatch(String::new()).within("a"),
        DecodeError::Mismatch(String::from("a"))
    );
    assert_eq!(
        DecodeError::Syntax(String::from("no JSON")).within("a"),
        DecodeError::Syntax(String::from("no JSON"))
    );
}
