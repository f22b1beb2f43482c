//! JSON documents as trees of plain values. Parsing is `serde_json`'s; what
//! the rest of the library reads of a document is verified here.

use vstd::prelude::*;
use vstd::string::StringExecFns;

verus! {

/// A JSON value. A number keeps no digits: nothing in this library reads one.
#[derive(Debug)]
pub enum JsonValue {
    Null,
    Bool(bool),
    Number,
    Text(String),
    Array(Vec<JsonValue>),
    Object(Vec<(String, JsonValue)>),
}

/// The mathematical model of a [`JsonValue`].
pub enum JsonTree {
    Null,
    Bool(bool),
    Number,
    Text(Seq<char>),
    Array(Seq<JsonTree>),
    Object(Seq<(Seq<char>, JsonTree)>),
}

/// The model of `value`: the same tree, texts as sequences of characters.
pub open spec fn tree(value: JsonValue) -> JsonTree
    decreases value,
{
    match value {
        JsonValue::Null => JsonTree::Null,
        JsonValue::Bool(b) => JsonTree::Bool(b),
        JsonValue::Number => JsonTree::Number,
        JsonValue::Text(s) => JsonTree::Text(s@),
        JsonValue::Array(items) => JsonTree::Array(
            Seq::new(
                items.len() as nat,
                |i: int|
                    if 0 <= i < items.len() {
                        tree(items[i])
                    } else {
                        JsonTree::Null
                    },
            ),
        ),
        JsonValue::Object(members) => JsonTree::Object(
            Seq::new(
                members.len() as nat,
                |i: int|
                    if 0 <= i < members.len() {
                        (members[i].0@, tree(members[i].1))
                    } else {
                        (Seq::empty(), JsonTree::Null)
                    },
            ),
        ),
    }
}

impl View for JsonValue {
    type V = JsonTree;

    open spec fn view(&self) -> JsonTree {
        tree(*self)
    }
}

/// The model of an optional value.
pub open spec fn tree_of_option(value: Option<JsonValue>) -> Option<JsonTree> {
    match value {
        Some(v) => Some(v@),
        None => None,
    }
}

/// The value of the first member of an object that is named `key`.
pub open spec fn member(members: Seq<(Seq<char>, JsonTree)>, key: Seq<char>) -> Option<JsonTree>
    decreases members.len(),
{
    if members.len() == 0 {
        None
    } else if members[0].0 == key {
        Some(members[0].1)
    } else {
        member(members.drop_first(), key)
    }
}

/// The member named `key` where `tree` is an object that has one.
pub open spec fn field(tree: JsonTree, key: Seq<char>) -> Option<JsonTree> {
    match tree {
        JsonTree::Object(members) => member(members, key),
        _ => None,
    }
}

/// The text of a string value.
pub open spec fn as_text(tree: JsonTree) -> Option<Seq<char>> {
    match tree {
        JsonTree::Text(s) => Some(s),
        _ => None,
    }
}

/// The texts of an array whose items are all strings.
pub open spec fn as_text_list(tree: JsonTree) -> Option<Seq<Seq<char>>> {
    match tree {
        JsonTree::Array(items) => if forall|i: int| 0 <= i < items.len() ==> items[i] is Text {
            Some(Seq::new(items.len(), |i: int| items[i]->Text_0))
        } else {
            None
        },
        _ => None,
    }
}

#[verifier::external_type_specification]
#[verifier::external_body]
pub struct ExJsonDocument(serde_json::Value);

/// What `serde_json::from_str` reads in a text: the tree of the one JSON
/// value that the text holds, or `None` where it holds no such value.
pub uninterp spec fn json_document(text: Seq<char>) -> Option<JsonTree>;

/// The tree that a value parsed by `serde_json` holds.
pub uninterp spec fn value_tree(value: serde_json::Value) -> JsonTree;

/// Calls `serde_json::from_str` for a `serde_json::Value`. Trusted: whether
/// a value comes back, and which, depends on the text alone.
#[verifier::external_body]
fn parse_value(text: &str) -> (r: Option<serde_json::Value>)
    ensures
        match r {
            Some(v) => json_document(text@) == Some(value_tree(v)),
            None => json_document(text@) is None,
        },
{
    serde_json::from_str::<serde_json::Value>(text).ok()
}

/// Copies a `serde_json::Value` into a [`JsonValue`], variant by variant; the
/// members of an object in the order in which its `serde_json::Map` hands them
/// out. Trusted: the copy is the tree that the value holds.
#[verifier::external_body]
fn copy_value(value: &serde_json::Value) -> (r: JsonValue)
    ensures
        r@ == value_tree(*value),
{
    match value {
        serde_json::Value::Null => JsonValue::Null,
        serde_json::Value::Bool(b) => JsonValue::Bool(*b),
        serde_json::Value::Number(_) => JsonValue::Number,
        serde_json::Value::String(s) => JsonValue::Text(s.clone()),
        serde_json::Value::Array(items) => JsonValue::Array(items.iter().map(copy_value).collect()),
        serde_json::Value::Object(members) => JsonValue::Object(
            members.iter().map(|(k, v)| (k.clone(), copy_value(v))).collect(),
        ),
    }
}

/// Parses `text` as one JSON value.
pub fn parse_json(text: &str) -> (r: Option<JsonValue>)
    ensures
        tree_of_option(r) == json_document(text@),
{
    match parse_value(text) {
        Some(value) => Some(copy_value(&value)),
        None => None,
    }
}

impl JsonValue {
    /// The member named `key`, where this value is an object that has one.
    pub fn get(&self, key: &str) -> (r: Option<&JsonValue>)
        ensures
            match r {
                Some(v) => field(self@, key@) == Some(v@),
                None => field(self@, key@) is None,
            },
    {
        match self {
            JsonValue::Object(members) => {
                let wanted = String::from_str(key);
                assert(self@->Object_0.skip(0) =~= self@->Object_0);
                let mut i: usize = 0;
                while i < members.len()
                    invariant
                        i <= members.len(),
                        wanted@ == key@,
                        self@ is Object,
                        self@->Object_0.len() == members.len(),
                        forall|j: int|
                            0 <= j < members.len() ==> #[trigger] (self@->Object_0)[j] == (
                                members[j].0@,
                                members[j].1@,
                            ),
                        member(self@->Object_0, key@) == member(
                            self@->Object_0.skip(i as int),
                            key@,
                        ),
                    decreases members.len() - i,
                {
                    let ghost rest = self@->Object_0.skip(i as int);
                    assert(rest[0] == (self@->Object_0)[i as int]);
                    assert(rest.drop_first() =~= self@->Object_0.skip(i + 1));
                    if members[i].0 == wanted {
                        return Some(&members[i].1);
                    }
                    i = i + 1;
                }
                None
            },
            _ => None,
        }
    }

    /// The text of this value, where it is a string.
    pub fn as_str(&self) -> (r: Option<&str>)
        ensures
            match r {
                Some(s) => as_text(self@) == Some(s@),
                None => as_text(self@) is None,
            },
    {
        match self {
            JsonValue::Text(s) => Some(s.as_str()),
            _ => None,
        }
    }

    /// The texts of this value, where it is an array of strings only.
    pub fn as_string_list(&self) -> (r: Option<Vec<String>>)
        ensures
            match r {
                Some(list) => as_text_list(self@) == Some(crate::text::texts(list@)),
                None => as_text_list(self@) is None,
            },
    {
        match self {
            JsonValue::Array(items) => {
                let mut out: Vec<String> = Vec::new();
                let mut i: usize = 0;
                while i < items.len()
                    invariant
                        i <= items.len(),
                        self@ is Array,
                        self@->Array_0.len() == items.len(),
                        forall|j: int|
                            0 <= j < items.len() ==> #[trigger] (self@->Array_0)[j] == items[j]@,
                        out.len() == i,
                        forall|j: int|
                            0 <= j < i ==> (self@->Array_0)[j] == JsonTree::Text(
                                #[trigger] out[j]@,
                            ),
                    decreases items.len() - i,
                {
                    match &items[i] {
                        JsonValue::Text(s) => {
                            out.push(s.clone());
                        },
                        _ => {
                            assert(!((self@->Array_0)[i as int] is Text));
                            return None;
                        },
                    }
                    i = i + 1;
                }
                assert forall|j: int| 0 <= j < items.len() implies (self@->Array_0)[j] is Text by {
                    assert((self@->Array_0)[j] == JsonTree::Text(out[j]@));
                }
                assert(crate::text::texts(out@) =~= Seq::new(
                    (self@->Array_0).len(),
                    |i: int| (self@->Array_0)[i]->Text_0,
                ));
                Some(out)
            },
            _ => None,
        }
    }
}

} // verus!

