//! JSON values as trees, and the calls into `serde_json` that read and write
//! them as text.

use vstd::prelude::*;

verus! {

/// A JSON value. Numbers are kept as the literal that writes them, objects as
/// their members in the order in which they are written.
#[derive(Debug)]
pub enum Json {
    Null,
    Bool(bool),
    Number(String),
    Text(String),
    Array(Vec<Json>),
    Object(Vec<(String, Json)>),
}

/// The mathematical value of a [`Json`].
pub ghost enum JsonTree {
    Null,
    Bool(bool),
    Number(Seq<char>),
    Text(Seq<char>),
    Array(Seq<JsonTree>),
    Object(Seq<(Seq<char>, JsonTree)>),
}

/// The value of a JSON tree.
pub open spec fn tree_of(j: Json) -> JsonTree
    decreases j,
{
    match j {
        Json::Null => JsonTree::Null,
        Json::Bool(b) => JsonTree::Bool(b),
        Json::Number(n) => JsonTree::Number(n@),
        Json::Text(s) => JsonTree::Text(s@),
        Json::Array(items) => JsonTree::Array(item_views(items@)),
        Json::Object(members) => JsonTree::Object(member_views(members@)),
    }
}

/// The values of the items of an array.
pub open spec fn item_views(items: Seq<Json>) -> Seq<JsonTree>
    decreases items,
{
    if items.len() == 0 {
        Seq::empty()
    } else {
        item_views(items.drop_last()).push(tree_of(items.last()))
    }
}

/// The names and values of the members of an object.
pub open spec fn member_views(members: Seq<(String, Json)>) -> Seq<(Seq<char>, JsonTree)>
    decreases members,
{
    if members.len() == 0 {
        Seq::empty()
    } else {
        member_views(members.drop_last()).push((members.last().0@, tree_of(members.last().1)))
    }
}

impl View for Json {
    type V = JsonTree;

    open spec fn view(&self) -> JsonTree {
        tree_of(*self)
    }
}

/// Each item of an array is viewed in its place.
pub proof fn lemma_item_views(items: Seq<Json>)
    ensures
        item_views(items).len() == items.len(),
        forall|i: int| 0 <= i < items.len() ==> #[trigger] item_views(items)[i] == items[i]@,
    decreases items.len(),
{
    if items.len() > 0 {
        lemma_item_views(items.drop_last());
    }
}

/// Each member of an object is viewed in its place.
pub proof fn lemma_member_views(members: Seq<(String, Json)>)
    ensures
        member_views(members).len() == members.len(),
        forall|i: int|
            0 <= i < members.len() ==> #[trigger] member_views(members)[i] == (
                members[i].0@,
                members[i].1@,
            ),
    decreases members.len(),
{
    if members.len() > 0 {
        lemma_member_views(members.drop_last());
    }
}

/// The first member of `members` at or after `from` that is named `key`.
pub open spec fn find_from(
    members: Seq<(Seq<char>, JsonTree)>,
    key: Seq<char>,
    from: int,
) -> Option<JsonTree>
    decreases members.len() - from,
{
    if from < 0 || from >= members.len() {
        None
    } else if members[from].0 == key {
        Some(members[from].1)
    } else {
        find_from(members, key, from + 1)
    }
}

impl JsonTree {
    /// The value of the first member named `key`, if this is an object that
    /// has one.
    pub open spec fn member(self, key: Seq<char>) -> Option<JsonTree> {
        match self {
            JsonTree::Object(members) => find_from(members, key, 0),
            _ => None,
        }
    }
}

/// The length of a name and one of its characters. Names that differ in
/// either are different names: this tells the members of an object apart.
pub open spec fn mark(name: Seq<char>, at: int) -> (nat, char) {
    (name.len(), if 0 <= at < name.len() { name[at] } else { ' ' })
}

impl Json {
    /// Tells whether two trees are the same value: the same kind, the same
    /// text, the same items and members in the same order.
    pub fn same(&self, other: &Json) -> (r: bool)
        ensures
            r == (self@ == other@),
        decreases self,
    {
        match (self, other) {
            (Json::Null, Json::Null) => true,
            (Json::Bool(a), Json::Bool(b)) => *a == *b,
            (Json::Number(a), Json::Number(b)) => *a == *b,
            (Json::Text(a), Json::Text(b)) => *a == *b,
            (Json::Array(a), Json::Array(b)) => {
                proof {
                    lemma_item_views(a@);
                    lemma_item_views(b@);
                }
                if a.len() != b.len() {
                    return false;
                }
                let mut i: usize = 0;
                while i < a.len()
                    invariant
                        0 <= i <= a@.len() == b@.len(),
                        *self == Json::Array(*a),
                        self@ == JsonTree::Array(item_views(a@)),
                        other@ == JsonTree::Array(item_views(b@)),
                        item_views(a@).len() == a@.len(),
                        item_views(b@).len() == b@.len(),
                        forall|k: int| 0 <= k < a@.len() ==> #[trigger] item_views(a@)[k] == a@[k]@,
                        forall|k: int| 0 <= k < b@.len() ==> #[trigger] item_views(b@)[k] == b@[k]@,
                        forall|k: int| 0 <= k < i ==> a@[k]@ == b@[k]@,
                    decreases a@.len() - i,
                {
                    if !a[i].same(&b[i]) {
                        assert(item_views(a@)[i as int] != item_views(b@)[i as int]);
                        return false;
                    }
                    i += 1;
                }
                assert(item_views(a@) =~= item_views(b@));
                true
            },
            (Json::Object(a), Json::Object(b)) => {
                proof {
                    lemma_member_views(a@);
                    lemma_member_views(b@);
                }
                if a.len() != b.len() {
                    return false;
                }
                let mut i: usize = 0;
                while i < a.len()
                    invariant
                        0 <= i <= a@.len() == b@.len(),
                        *self == Json::Object(*a),
                        self@ == JsonTree::Object(member_views(a@)),
                        other@ == JsonTree::Object(member_views(b@)),
                        member_views(a@).len() == a@.len(),
                        member_views(b@).len() == b@.len(),
                        forall|k: int|
                            0 <= k < a@.len() ==> #[trigger] member_views(a@)[k] == (
                                a@[k].0@,
                                a@[k].1@,
                            ),
                        forall|k: int|
                            0 <= k < b@.len() ==> #[trigger] member_views(b@)[k] == (
                                b@[k].0@,
                                b@[k].1@,
                            ),
                        forall|k: int|
                            0 <= k < i ==> a@[k].0@ == b@[k].0@ && a@[k].1@ == b@[k].1@,
                    decreases a@.len() - i,
                {
                    if !(a[i].0 == b[i].0) || !a[i].1.same(&b[i].1) {
                        assert(member_views(a@)[i as int] != member_views(b@)[i as int]);
                        return false;
                    }
                    i += 1;
                }
                assert(member_views(a@) =~= member_views(b@));
                true
            },
            _ => false,
        }
    }

    /// Tells whether this is an object.
    pub fn is_object(&self) -> (r: bool)
        ensures
            r == (self@ is Object),
    {
        match self {
            Json::Object(_) => true,
            _ => false,
        }
    }

    /// The value of the first member named `key`, if this is an object that
    /// has one.
    pub fn member(&self, key: &str) -> (r: Option<&Json>)
        ensures
            r matches Some(j) ==> self@.member(key@) == Some(j@),
            r is None ==> self@.member(key@) is None,
    {
        match self {
            Json::Object(members) => {
                proof {
                    lemma_member_views(members@);
                }
                let ghost views = member_views(members@);
                let wanted = key.to_owned();
                let mut i: usize = 0;
                while i < members.len()
                    invariant
                        wanted@ == key@,
                        0 <= i <= members@.len(),
                        self@ == JsonTree::Object(views),
                        views.len() == members@.len(),
                        forall|k: int|
                            0 <= k < members@.len() ==> #[trigger] views[k] == (
                                members@[k].0@,
                                members@[k].1@,
                            ),
                        find_from(views, key@, 0) == find_from(views, key@, i as int),
                    decreases members@.len() - i,
                {
                    assert(views[i as int] == (members@[i as int].0@, members@[i as int].1@));
                    if members[i].0 == wanted {
                        return Some(&members[i].1);
                    }
                    i += 1;
                }
                None
            },
            _ => None,
        }
    }
}


/// `serde_json::Value`, which is copied into a [`Json`] and out of one.
#[verifier::external_type_specification]
#[verifier::external_body]
pub struct ExValue(serde_json::Value);

/// `serde_json::Error`, which the copy into a `serde_json::Value` hands on.
#[verifier::external_type_specification]
#[verifier::external_body]
pub struct ExJsonError(serde_json::Error);

/// What `serde_json` makes of a text: the tree that it reads, or the message
/// of its error.
pub uninterp spec fn parsed(text: Seq<char>) -> Result<JsonTree, Seq<char>>;

/// What `serde_json` makes of a tree on one line: the text that it writes, or
/// the message of its error.
pub uninterp spec fn compact_text(tree: JsonTree) -> Result<Seq<char>, Seq<char>>;

/// What `serde_json` makes of a tree with line breaks and indentation: the
/// text that it writes, or the message of its error.
pub uninterp spec fn pretty_text(tree: JsonTree) -> Result<Seq<char>, Seq<char>>;

/// What a reading returned, as a mathematical value.
pub open spec fn read_view(r: Result<Json, String>) -> Result<JsonTree, Seq<char>> {
    match r {
        Ok(json) => Ok(json@),
        Err(message) => Err(message@),
    }
}

/// What a writing returned, as a mathematical value.
pub open spec fn written_view(r: Result<String, String>) -> Result<Seq<char>, Seq<char>> {
    match r {
        Ok(text) => Ok(text@),
        Err(message) => Err(message@),
    }
}

/// Copies a `serde_json::Value` into a tree, variant by variant. A number is
/// taken as the literal that `serde_json` holds for it.
#[verifier::external_body]
fn from_value(value: &serde_json::Value) -> Json {
    match value {
        serde_json::Value::Null => Json::Null,
        serde_json::Value::Bool(b) => Json::Bool(*b),
        serde_json::Value::Number(n) => Json::Number(n.as_str().to_owned()),
        serde_json::Value::String(s) => Json::Text(s.clone()),
        serde_json::Value::Array(items) => Json::Array(items.iter().map(from_value).collect()),
        serde_json::Value::Object(members) => Json::Object(
            members.iter().map(|(k, v)| (k.clone(), from_value(v))).collect(),
        ),
    }
}

/// Copies a tree into a `serde_json::Value`, variant by variant. A number goes
/// through `serde_json::Number`'s `FromStr`, whose error ends the copy.
#[verifier::external_body]
pub(crate) fn to_value(json: &Json) -> Result<serde_json::Value, serde_json::Error> {
    Ok(match json {
        Json::Null => serde_json::Value::Null,
        Json::Bool(b) => serde_json::Value::Bool(*b),
        Json::Number(n) => serde_json::Value::Number(n.parse()?),
        Json::Text(s) => serde_json::Value::String(s.clone()),
        Json::Array(items) => {
            serde_json::Value::Array(items.iter().map(to_value).collect::<Result<_, _>>()?)
        },
        Json::Object(members) => {
            let copied = members.iter().map(|(k, v)| to_value(v).map(|value| (k.clone(), value)));
            serde_json::Value::Object(copied.collect::<Result<_, _>>()?)
        },
    })
}

/// `serde_json::from_str` at `serde_json::Value`: reads one JSON value from
/// the whole of `text`. An error comes back as the message that its `Display`
/// writes. The contract only gives the outcome its name.
#[verifier::external_body]
pub(crate) fn parse_text(text: &str) -> (r: Result<Json, String>)
    ensures
        read_view(r) == parsed(text@),
{
    match serde_json::from_str::<serde_json::Value>(text) {
        Ok(value) => Ok(from_value(&value)),
        Err(error) => Err(error.to_string()),
    }
}

/// `serde_json::to_string`: writes a tree on one line. An error, of the
/// writing or of the copy before it, comes back as the message that its
/// `Display` writes. The contract only gives the outcome its name.
#[verifier::external_body]
pub(crate) fn write_compact(json: &Json) -> (r: Result<String, String>)
    ensures
        written_view(r) == compact_text(json@),
{
    match to_value(json).and_then(|value| serde_json::to_string(&value)) {
        Ok(text) => Ok(text),
        Err(error) => Err(error.to_string()),
    }
}

/// `serde_json::to_string_pretty`: writes a tree with line breaks and
/// indentation. An error, of the writing or of the copy before it, comes back
/// as the message that its `Display` writes. The contract only gives the
/// outcome its name.
#[verifier::external_body]
pub(crate) fn write_pretty(json: &Json) -> (r: Result<String, String>)
    ensures
        written_view(r) == pretty_text(json@),
{
    match to_value(json).and_then(|value| serde_json::to_string_pretty(&value)) {
        Ok(text) => Ok(text),
        Err(error) => Err(error.to_string()),
    }
}

} // verus!
