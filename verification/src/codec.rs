//! The data codec: a style model as JSON text and back.

use vstd::prelude::*;
use vstd::string::*;
use crate::fault::{decoded, DecodeError, DecodeFault};
use crate::json::{compact_text, parse_text, parsed, pretty_text, write_compact, write_pretty};
use crate::laws::{lemma_style_read_valid, lemma_style_round_trip};
use crate::model::{StyleModel, StyleModelView};
use crate::records::{style_from_json, style_of, style_to_json, style_tree};

verus! {

/// Why a style was not written. With the JSON writer and reader as they are,
/// neither comes about.
#[derive(Clone, Debug, PartialEq, Eq)]
pub enum EncodeError {
    /// The JSON writer failed. Holds its message.
    Write(String),
    /// The JSON reader does not find in the text that was written the tree
    /// that was to be written. Such a text is not handed out.
    ReadBack,
}

/// The mathematical value of an [`EncodeError`].
pub ghost enum EncodeFault {
    Write(Seq<char>),
    ReadBack,
}

impl View for EncodeError {
    type V = EncodeFault;

    open spec fn view(&self) -> EncodeFault {
        match self {
            EncodeError::Write(message) => EncodeFault::Write(message@),
            EncodeError::ReadBack => EncodeFault::ReadBack,
        }
    }
}

impl EncodeFault {
    /// The fault in words: the writer's own message, or that the text does
    /// not read back.
    pub open spec fn message(self) -> Seq<char> {
        match self {
            EncodeFault::Write(message) => message,
            EncodeFault::ReadBack => "the text does not read back as the style"@,
        }
    }
}

impl EncodeError {
    /// The error in words, for display.
    pub fn message(&self) -> (r: String)
        ensures
            r@ == self@.message(),
    {
        match self {
            EncodeError::Write(message) => message.clone(),
            EncodeError::ReadBack => String::from_str("the text does not read back as the style"),
        }
    }
}

/// What the JSON writer makes of a style: the text of its tree, on one line or
/// laid out, or the writer's message.
pub open spec fn written_text(model: StyleModelView, pretty: bool) -> Result<
    Seq<char>,
    Seq<char>,
> {
    if pretty {
        pretty_text(style_tree(model))
    } else {
        compact_text(style_tree(model))
    }
}

/// What encoding a style comes to: the text that the writer makes of the tree
/// of the style, where the reader finds that tree in it.
pub open spec fn encoded(model: StyleModelView, pretty: bool) -> Result<Seq<char>, EncodeFault> {
    match written_text(model, pretty) {
        Ok(text) => if parsed(text) == Ok::<_, Seq<char>>(style_tree(model)) {
            Ok(text)
        } else {
            Err(EncodeFault::ReadBack)
        },
        Err(message) => Err(EncodeFault::Write(message)),
    }
}

/// What an encoding returned, as a mathematical value.
pub open spec fn encode_view(r: Result<String, EncodeError>) -> Result<Seq<char>, EncodeFault> {
    match r {
        Ok(text) => Ok(text@),
        Err(error) => Err(error@),
    }
}

/// What decoding a text comes to: what the tree of the text is read as, or a
/// syntax error with the reader's message where the text has no tree.
pub open spec fn read_text(text: Seq<char>) -> Result<StyleModelView, DecodeFault> {
    match parsed(text) {
        Ok(tree) => style_of(tree),
        Err(message) => Err(DecodeFault::Syntax(message)),
    }
}

/// Writes a style as JSON text. With `pretty` the text is laid out over lines;
/// the tree that it writes is the same. The text is read back before it is
/// handed out, so that what is handed out decodes to the style. The style is
/// valid, as every style is.
pub fn encode(model: &StyleModel, pretty: bool) -> (r: Result<String, EncodeError>)
    ensures
        encode_view(r) == encoded(model@, pretty),
        model@.valid(),
{
    let tree = style_to_json(model);
    let written = if pretty {
        write_pretty(&tree)
    } else {
        write_compact(&tree)
    };
    match written {
        Ok(text) => match parse_text(text.as_str()) {
            Ok(back) => if back.same(&tree) {
                Ok(text)
            } else {
                Err(EncodeError::ReadBack)
            },
            Err(_) => Err(EncodeError::ReadBack),
        },
        Err(message) => Err(EncodeError::Write(message)),
    }
}

/// Reads a style from JSON text. The whole style is read before anything is
/// returned: a text that fails gives an error and no part of a style.
pub fn decode(text: &str) -> (r: Result<StyleModel, DecodeError>)
    ensures
        decoded(r) == read_text(text@),
        r matches Ok(model) ==> model@.valid(),
{
    match parse_text(text) {
        Ok(tree) => {
            proof {
                lemma_style_read_valid(tree@);
            }
            style_from_json(&tree)
        },
        Err(message) => Err(DecodeError::Syntax(message)),
    }
}

/// Round trip: the text that `encode` hands out for a style, laid out or not,
/// decodes to that style, field for field.
pub proof fn lemma_round_trip(model: StyleModelView, pretty: bool, text: Seq<char>)
    requires
        model.valid(),
        encoded(model, pretty) == Ok::<Seq<char>, EncodeFault>(text),
    ensures
        read_text(text) == Ok::<StyleModelView, DecodeFault>(model),
{
    lemma_style_round_trip(model);
}

/// Round trip of trees: reading the tree of a valid style gives the style
/// back, whatever the values of its fields.
pub proof fn lemma_tree_round_trip(model: StyleModelView)
    requires
        model.valid(),
    ensures
        style_of(style_tree(model)) == Ok::<StyleModelView, DecodeFault>(model),
{
    lemma_style_round_trip(model);
}

} // verus!
