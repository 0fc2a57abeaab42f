//! Faults of decoding, and the path that tells where one lies.

use vstd::prelude::*;
use vstd::string::*;
use crate::json::{Json, JsonTree};

verus! {

/// Why a text could not be read as a style.
#[derive(Clone, Debug, PartialEq, Eq)]
pub enum DecodeError {
    /// The text is not well-formed JSON. Holds the parser's message.
    Syntax(String),
    /// A member that the model needs is not there. Holds its path.
    Missing(String),
    /// A value does not have the shape that the model needs. Holds its path.
    Mismatch(String),
}

/// The mathematical value of a [`DecodeError`].
pub ghost enum DecodeFault {
    Syntax(Seq<char>),
    Missing(Seq<char>),
    Mismatch(Seq<char>),
}

impl View for DecodeError {
    type V = DecodeFault;

    open spec fn view(&self) -> DecodeFault {
        match self {
            DecodeError::Syntax(message) => DecodeFault::Syntax(message@),
            DecodeError::Missing(path) => DecodeFault::Missing(path@),
            DecodeError::Mismatch(path) => DecodeFault::Mismatch(path@),
        }
    }
}

/// The path of what lies at `path` inside the member `name`: the two joined by
/// a dot, or `name` alone where `path` is empty.
pub open spec fn join_path(name: Seq<char>, path: Seq<char>) -> Seq<char> {
    if path.len() == 0 {
        name
    } else {
        name + seq!['.'] + path
    }
}

impl DecodeFault {
    /// The same fault, seen from outside the member `name`.
    pub open spec fn within(self, name: Seq<char>) -> DecodeFault {
        match self {
            DecodeFault::Syntax(message) => DecodeFault::Syntax(message),
            DecodeFault::Missing(path) => DecodeFault::Missing(join_path(name, path)),
            DecodeFault::Mismatch(path) => DecodeFault::Mismatch(join_path(name, path)),
        }
    }

    /// The fault of a value that has the wrong shape.
    pub open spec fn mismatch() -> DecodeFault {
        DecodeFault::Mismatch(Seq::empty())
    }

    /// The fault in words: the parser's own message, or what is wrong and at
    /// which path.
    pub open spec fn message(self) -> Seq<char> {
        match self {
            DecodeFault::Syntax(message) => message,
            DecodeFault::Missing(path) => "missing field `"@ + path + "`"@,
            DecodeFault::Mismatch(path) => if path.len() == 0 {
                "invalid value"@
            } else {
                "invalid value at `"@ + path + "`"@
            },
        }
    }
}

/// Joins a member's name and a path inside it.
fn joined(name: &str, path: String) -> (r: String)
    ensures
        r@ == join_path(name@, path@),
{
    if path.as_str().unicode_len() == 0 {
        String::from_str(name)
    } else {
        let mut out = String::from_str(name);
        out.append(".");
        out.append(path.as_str());
        proof {
            reveal_strlit(".");
            assert("."@ =~= seq!['.']);
        }
        out
    }
}

impl DecodeError {
    /// The same error, seen from outside the member `name`.
    pub fn within(self, name: &str) -> (r: DecodeError)
        ensures
            r@ == self@.within(name@),
    {
        match self {
            DecodeError::Syntax(message) => DecodeError::Syntax(message),
            DecodeError::Missing(path) => DecodeError::Missing(joined(name, path)),
            DecodeError::Mismatch(path) => DecodeError::Mismatch(joined(name, path)),
        }
    }

    /// The error in words, for display.
    pub fn message(&self) -> (r: String)
        ensures
            r@ == self@.message(),
    {
        match self {
            DecodeError::Syntax(message) => message.clone(),
            DecodeError::Missing(path) => {
                let mut out = String::from_str("missing field `");
                out.append(path.as_str());
                out.append("`");
                out
            },
            DecodeError::Mismatch(path) => {
                if path.as_str().unicode_len() == 0 {
                    String::from_str("invalid value")
                } else {
                    let mut out = String::from_str("invalid value at `");
                    out.append(path.as_str());
                    out.append("`");
                    out
                }
            },
        }
    }

    /// The error of a value that has the wrong shape.
    pub fn mismatch() -> (r: DecodeError)
        ensures
            r@ == DecodeFault::mismatch(),
    {
        DecodeError::Mismatch(String::new())
    }
}

/// What a decoder returned, as a mathematical value.
pub open spec fn decoded<T: View>(r: Result<T, DecodeError>) -> Result<T::V, DecodeFault> {
    match r {
        Ok(value) => Ok(value@),
        Err(error) => Err(error@),
    }
}

/// Adds the member `name` to the path of an error, if there is one.
pub open spec fn located<V>(r: Result<V, DecodeFault>, name: Seq<char>) -> Result<V, DecodeFault> {
    match r {
        Ok(value) => Ok(value),
        Err(fault) => Err(fault.within(name)),
    }
}

/// The member `name` of `tree`, which has to be there.
pub open spec fn required(tree: JsonTree, name: Seq<char>) -> Result<JsonTree, DecodeFault> {
    match tree.member(name) {
        Some(value) => Ok(value),
        None => Err(DecodeFault::Missing(name)),
    }
}

/// What `read` makes of the member `name` of `tree`. A fault inside the member
/// gets the member's name in front of its path.
pub open spec fn at<V>(
    tree: JsonTree,
    name: Seq<char>,
    read: spec_fn(JsonTree) -> Result<V, DecodeFault>,
) -> Result<V, DecodeFault> {
    match required(tree, name) {
        Ok(value) => located(read(value), name),
        Err(fault) => Err(fault),
    }
}

/// What `read` makes of the member `name` of `tree`, which may be left out: a
/// member that is not there reads as none.
pub open spec fn at_optional<V>(
    tree: JsonTree,
    name: Seq<char>,
    read: spec_fn(JsonTree) -> Result<Option<V>, DecodeFault>,
) -> Result<Option<V>, DecodeFault> {
    match tree.member(name) {
        Some(value) => located(read(value), name),
        None => Ok(None),
    }
}

/// The member `name` of `json`, which has to be there.
pub(crate) fn need<'a>(json: &'a Json, name: &str) -> (r: Result<&'a Json, DecodeError>)
    ensures
        r matches Ok(value) ==> required(json@, name@) == Ok::<JsonTree, DecodeFault>(value@),
        r matches Err(error) ==> required(json@, name@) == Err::<JsonTree, DecodeFault>(error@),
{
    match json.member(name) {
        Some(value) => Ok(value),
        None => Err(DecodeError::Missing(String::from_str(name))),
    }
}

/// Adds the member `name` to the path of an error, if there is one.
pub(crate) fn placed<T: View>(r: Result<T, DecodeError>, name: &str) -> (out: Result<
    T,
    DecodeError,
>)
    ensures
        decoded(out) == located(decoded(r), name@),
{
    match r {
        Ok(value) => Ok(value),
        Err(error) => Err(error.within(name)),
    }
}

} // verus!
