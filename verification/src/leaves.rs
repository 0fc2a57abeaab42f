//! The values that the records of the model are made of, as JSON: measures,
//! switches and colours.

use vstd::prelude::*;
use vstd::string::*;
use crate::fault::{decoded, DecodeError, DecodeFault};
use crate::json::{lemma_item_views, Json, JsonTree};
use crate::model::{number_as_float, Color, Scalar};
use crate::text::{
    channel_text, decimal, is_float_literal, is_number, lemma_decimal_injective, parse_channel,
};

verus! {

/// The tree that writes a measure.
pub open spec fn scalar_tree(value: Seq<char>) -> JsonTree {
    JsonTree::Number(value)
}

/// The measure that a tree writes: any number, as a floating-point literal.
pub open spec fn scalar_of(tree: JsonTree) -> Result<Seq<char>, DecodeFault> {
    match tree {
        JsonTree::Number(n) if is_number(n) => Ok(number_as_float(n)),
        _ => Err(DecodeFault::mismatch()),
    }
}

/// The tree that writes a switch.
pub open spec fn bool_tree(value: bool) -> JsonTree {
    JsonTree::Bool(value)
}

/// The switch that a tree writes.
pub open spec fn bool_of(tree: JsonTree) -> Result<bool, DecodeFault> {
    match tree {
        JsonTree::Bool(b) => Ok(b),
        _ => Err(DecodeFault::mismatch()),
    }
}

/// The tree that writes a colour: its four channels in the order red, green,
/// blue, alpha.
pub open spec fn color_tree(color: Color) -> JsonTree {
    JsonTree::Array(
        seq![
            JsonTree::Number(decimal(color.r)),
            JsonTree::Number(decimal(color.g)),
            JsonTree::Number(decimal(color.b)),
            JsonTree::Number(decimal(color.a)),
        ],
    )
}

/// The colour that a tree writes: the one whose tree it is, if there is one.
pub open spec fn color_of(tree: JsonTree) -> Result<Color, DecodeFault> {
    if exists|color: Color| color_tree(color) == tree {
        Ok(choose|color: Color| color_tree(color) == tree)
    } else {
        Err(DecodeFault::mismatch())
    }
}

/// The tree that writes a colour that may be left out.
pub open spec fn optional_color_tree(color: Option<Color>) -> JsonTree {
    match color {
        Some(c) => color_tree(c),
        None => JsonTree::Null,
    }
}

/// The colour that a tree writes, where `null` stands for none.
pub open spec fn optional_color_of(tree: JsonTree) -> Result<Option<Color>, DecodeFault> {
    match tree {
        JsonTree::Null => Ok(None),
        _ => match color_of(tree) {
            Ok(c) => Ok(Some(c)),
            Err(fault) => Err(fault),
        },
    }
}

/// The tree that writes the wrapping of text: `null` where it is unset, else
/// the name of the toolkit's mode, `Wrap` for on and `Truncate` for off.
pub open spec fn wrap_mode_tree(value: Option<bool>) -> JsonTree {
    match value {
        Some(true) => JsonTree::Text("Wrap"@),
        Some(false) => JsonTree::Text("Truncate"@),
        None => JsonTree::Null,
    }
}

/// The wrapping of text that a tree writes. Of the toolkit's modes `Wrap` is
/// on; `Truncate` and `Extend` are off.
pub open spec fn wrap_mode_of(tree: JsonTree) -> Result<Option<bool>, DecodeFault> {
    match tree {
        JsonTree::Null => Ok(None),
        JsonTree::Text(name) => if name == "Wrap"@ {
            Ok(Some(true))
        } else if name == "Truncate"@ || name == "Extend"@ {
            Ok(Some(false))
        } else {
            Err(DecodeFault::mismatch())
        },
        _ => Err(DecodeFault::mismatch()),
    }
}

/// Reading the tree of a wrapping gives it back: unset, on and off are told
/// apart.
pub proof fn lemma_wrap_mode_round_trip(value: Option<bool>)
    ensures
        wrap_mode_of(wrap_mode_tree(value)) == Ok::<Option<bool>, DecodeFault>(value),
{
    reveal_strlit("Wrap");
    reveal_strlit("Truncate");
    reveal_strlit("Extend");
    assert("Wrap"@.len() == 4 && "Truncate"@.len() == 8 && "Extend"@.len() == 6);
}

/// Two colours with the same tree are the same colour.
pub proof fn lemma_color_tree_injective(a: Color, b: Color)
    requires
        color_tree(a) == color_tree(b),
    ensures
        a == b,
{
    let (x, y) = (color_tree(a)->Array_0, color_tree(b)->Array_0);
    assert(x[0] == y[0] && x[1] == y[1] && x[2] == y[2] && x[3] == y[3]);
    lemma_decimal_injective(a.r, b.r);
    lemma_decimal_injective(a.g, b.g);
    lemma_decimal_injective(a.b, b.b);
    lemma_decimal_injective(a.a, b.a);
}

/// Reading the tree of a colour gives the colour back.
pub proof fn lemma_color_round_trip(color: Color)
    ensures
        color_of(color_tree(color)) == Ok::<Color, DecodeFault>(color),
{
    let found = choose|c: Color| color_tree(c) == color_tree(color);
    lemma_color_tree_injective(found, color);
}

/// A colour needs its four channels: an array of another length, such as one
/// without the alpha channel, is no colour.
pub proof fn lemma_color_needs_four_channels(items: Seq<JsonTree>)
    requires
        items.len() != 4,
    ensures
        color_of(JsonTree::Array(items)) == Err::<Color, DecodeFault>(DecodeFault::mismatch()),
{
    assert forall|c: Color| color_tree(c) != JsonTree::Array(items) by {
        assert(color_tree(c)->Array_0.len() == 4);
    }
}

/// Writes a measure as a tree. The measure is a floating-point literal, as
/// every measure of the model is.
pub fn scalar_to_json(value: &Scalar) -> (json: Json)
    ensures
        json@ == scalar_tree(value@),
        is_float_literal(value@),
{
    Json::Number(value.to_text())
}

/// Reads a measure from a tree.
pub fn scalar_from_json(json: &Json) -> (r: Result<Scalar, DecodeError>)
    ensures
        decoded(r) == scalar_of(json@),
{
    match json {
        Json::Number(n) => match Scalar::from_number(n.as_str()) {
            Some(value) => Ok(value),
            None => Err(DecodeError::mismatch()),
        },
        _ => Err(DecodeError::mismatch()),
    }
}

/// Writes a switch as a tree.
pub fn bool_to_json(value: bool) -> (json: Json)
    ensures
        json@ == bool_tree(value),
{
    Json::Bool(value)
}

/// Reads a switch from a tree.
pub fn bool_from_json(json: &Json) -> (r: Result<bool, DecodeError>)
    ensures
        decoded(r) == bool_of(json@),
{
    match json {
        Json::Bool(b) => Ok(*b),
        _ => Err(DecodeError::mismatch()),
    }
}

/// Writes a colour as a tree.
pub fn color_to_json(color: Color) -> (json: Json)
    ensures
        json@ == color_tree(color),
{
    let mut items: Vec<Json> = Vec::new();
    items.push(Json::Number(channel_text(color.r)));
    items.push(Json::Number(channel_text(color.g)));
    items.push(Json::Number(channel_text(color.b)));
    items.push(Json::Number(channel_text(color.a)));
    let json = Json::Array(items);
    proof {
        lemma_item_views(items@);
        assert(json@->Array_0 =~= color_tree(color)->Array_0);
    }
    json
}

/// Reads one channel of a colour.
fn channel_from_json(json: &Json) -> (r: Option<u8>)
    ensures
        r matches Some(n) ==> json@ == JsonTree::Number(decimal(n)),
        r is None ==> forall|n: u8| json@ != JsonTree::Number(#[trigger] decimal(n)),
{
    match json {
        Json::Number(text) => parse_channel(text.as_str()),
        _ => None,
    }
}

/// Reads a colour from a tree.
pub fn color_from_json(json: &Json) -> (r: Result<Color, DecodeError>)
    ensures
        decoded(r) == color_of(json@),
{
    match json {
        Json::Array(items) => {
            proof {
                lemma_item_views(items@);
            }
            if items.len() != 4 {
                assert forall|c: Color| color_tree(c) != json@ by {
                    assert(color_tree(c)->Array_0.len() == 4);
                }
                return Err(DecodeError::mismatch());
            }
            let channels = (
                channel_from_json(&items[0]),
                channel_from_json(&items[1]),
                channel_from_json(&items[2]),
                channel_from_json(&items[3]),
            );
            match channels {
                (Some(r), Some(g), Some(b), Some(a)) => {
                    let color = Color { r, g, b, a };
                    proof {
                        assert(json@->Array_0 =~= color_tree(color)->Array_0);
                        lemma_color_round_trip(color);
                    }
                    Ok(color)
                },
                _ => {
                    assert forall|c: Color| color_tree(c) != json@ by {
                        let x = color_tree(c)->Array_0;
                        assert(x[0] == JsonTree::Number(decimal(c.r)));
                        assert(x[1] == JsonTree::Number(decimal(c.g)));
                        assert(x[2] == JsonTree::Number(decimal(c.b)));
                        assert(x[3] == JsonTree::Number(decimal(c.a)));
                    }
                    Err(DecodeError::mismatch())
                },
            }
        },
        _ => Err(DecodeError::mismatch()),
    }
}

/// Writes a colour that may be left out as a tree.
pub fn optional_color_to_json(color: Option<Color>) -> (json: Json)
    ensures
        json@ == optional_color_tree(color),
{
    match color {
        Some(c) => color_to_json(c),
        None => Json::Null,
    }
}

/// Reads a colour that may be left out from a tree.
pub fn optional_color_from_json(json: &Json) -> (r: Result<Option<Color>, DecodeError>)
    ensures
        decoded(r) == optional_color_of(json@),
{
    match json {
        Json::Null => Ok(None),
        _ => match color_from_json(json) {
            Ok(c) => Ok(Some(c)),
            Err(error) => Err(error),
        },
    }
}

/// Writes the wrapping of text as a tree.
pub fn wrap_mode_to_json(value: Option<bool>) -> (json: Json)
    ensures
        json@ == wrap_mode_tree(value),
{
    match value {
        Some(true) => Json::Text(String::from_str("Wrap")),
        Some(false) => Json::Text(String::from_str("Truncate")),
        None => Json::Null,
    }
}

/// Reads the wrapping of text from a tree.
pub fn wrap_mode_from_json(json: &Json) -> (r: Result<Option<bool>, DecodeError>)
    ensures
        decoded(r) == wrap_mode_of(json@),
{
    match json {
        Json::Null => Ok(None),
        Json::Text(name) => {
            if *name == String::from_str("Wrap") {
                Ok(Some(true))
            } else if *name == String::from_str("Truncate") || *name == String::from_str(
                "Extend",
            ) {
                Ok(Some(false))
            } else {
                Err(DecodeError::mismatch())
            }
        },
        _ => Err(DecodeError::mismatch()),
    }
}

} // verus!
