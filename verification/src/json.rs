//! Decoding of response bodies: the raw JSON tree as the decoder hands it
//! out, and the library's own plain tree for logic that reads inside it.

use vstd::prelude::*;

verus! {

#[verifier::external_type_specification]
#[verifier::external_body]
pub struct ExValue(serde_json::Value);

/// Whether the text is well-formed JSON, exactly as serde_json's parser
/// accepts it; a function of the text alone.
pub uninterp spec fn json_wf(s: Seq<char>) -> bool;

/// The pretty-printed form of the well-formed JSON text `s`; a function of
/// the text alone.
pub uninterp spec fn pretty_of(s: Seq<char>) -> Seq<char>;

/// Relies on serde_json::from_str::<serde_json::Value>: parsing is a pure
/// function of the text and succeeds exactly on well-formed JSON.
#[verifier::external_body]
pub(crate) fn parse_value(s: &str) -> (r: Option<serde_json::Value>)
    ensures
        r is Some <==> json_wf(s@),
{
    serde_json::from_str::<serde_json::Value>(s).ok()
}

/// Relies on serde_json::Value::clone: the copy equals the original.
pub assume_specification[ <serde_json::Value as Clone>::clone ](
    v: &serde_json::Value,
) -> (r: serde_json::Value)
    ensures
        r == *v,
;

/// Relies on serde_json::to_vec: serializing a JSON tree to bytes; the
/// result depends on the tree alone.
#[verifier::external_body]
pub(crate) fn value_to_bytes(v: &serde_json::Value) -> (r: Option<Vec<u8>>)
{
    serde_json::to_vec(v).ok()
}

/// One `key: value` member of a JSON object.
#[derive(Debug)]
pub struct JsonMember {
    pub key: String,
    pub value: JsonValue,
}

/// A JSON tree in plain values: numbers carried as their decimal text.
#[derive(Debug)]
pub enum JsonValue {
    Null,
    Bool(bool),
    Number(String),
    Text(String),
    Array(Vec<JsonValue>),
    Object(Vec<JsonMember>),
}

/// The mathematical shape of one object member.
pub struct JsonMemberView {
    pub key: Seq<char>,
    pub value: JsonView,
}

/// The mathematical shape of a JSON tree: what a `JsonValue` holds, with
/// every text as its character sequence.
pub enum JsonView {
    Null,
    Bool(bool),
    Number(Seq<char>),
    Text(Seq<char>),
    Array(Seq<JsonView>),
    Object(Seq<JsonMemberView>),
}

/// The shape of a tree node.
pub open spec fn json_view_of(v: JsonValue) -> JsonView
    decreases v,
{
    match v {
        JsonValue::Null => JsonView::Null,
        JsonValue::Bool(b) => JsonView::Bool(b),
        JsonValue::Number(n) => JsonView::Number(n@),
        JsonValue::Text(t) => JsonView::Text(t@),
        JsonValue::Array(elems) => JsonView::Array(json_views_of(elems@)),
        JsonValue::Object(ms) => JsonView::Object(json_member_views_of(ms@)),
    }
}

/// The shapes of a run of array elements.
pub open spec fn json_views_of(es: Seq<JsonValue>) -> Seq<JsonView>
    decreases es,
{
    if es.len() == 0 {
        Seq::empty()
    } else {
        seq![json_view_of(es[0])] + json_views_of(es.subrange(1, es.len() as int))
    }
}

/// The shapes of a run of object members.
pub open spec fn json_member_views_of(ms: Seq<JsonMember>) -> Seq<JsonMemberView>
    decreases ms,
{
    if ms.len() == 0 {
        Seq::empty()
    } else {
        seq![JsonMemberView { key: ms[0].key@, value: json_view_of(ms[0].value) }]
            + json_member_views_of(ms.subrange(1, ms.len() as int))
    }
}

impl View for JsonValue {
    type V = JsonView;

    open spec fn view(&self) -> JsonView {
        json_view_of(*self)
    }
}

/// The tree decoded from the well-formed JSON text `s`, by shape; a
/// function of the text alone.
pub uninterp spec fn json_tree_of(s: Seq<char>) -> JsonView;

/// Relies on serde_json::from_str::<serde_json::Value>, converted variant
/// by variant: parsing succeeds exactly on well-formed JSON, and the
/// decoded tree's shape is a function of the text alone (the map is
/// ordered, number text is deterministic).
#[verifier::external_body]
pub fn parse_tree(s: &str) -> (r: Option<JsonValue>)
    ensures
        r is Some <==> json_wf(s@),
        r is Some ==> r->0@ == json_tree_of(s@),
{
    match serde_json::from_str::<serde_json::Value>(s) {
        Ok(v) => Some(to_tree(&v)),
        Err(_) => None,
    }
}

impl JsonValue {
    /// Whether this node is the JSON null.
    pub fn is_null(&self) -> (r: bool)
        ensures
            r == (self is Null),
    {
        matches!(self, JsonValue::Null)
    }

    /// The carried text, when this node is a JSON string.
    pub fn as_text(&self) -> (r: Option<&String>)
        ensures
            r is Some <==> self is Text,
            r is Some ==> r->0@ == self->Text_0@,
    {
        match self {
            JsonValue::Text(s) => Some(s),
            _ => None,
        }
    }

    /// The decimal text of the carried number, when this node is a JSON
    /// number.
    pub fn as_number(&self) -> (r: Option<&String>)
        ensures
            r is Some <==> self is Number,
            r is Some ==> r->0@ == self->Number_0@,
    {
        match self {
            JsonValue::Number(s) => Some(s),
            _ => None,
        }
    }
}

/// Relies on serde_json::Value: maps each variant of the decoded tree onto
/// the library's own tree, one arm per variant, numbers as decimal text.
#[verifier::external_body]
pub fn to_tree(v: &serde_json::Value) -> JsonValue {
    match v {
        serde_json::Value::Null => JsonValue::Null,
        serde_json::Value::Bool(b) => JsonValue::Bool(*b),
        serde_json::Value::Number(n) => JsonValue::Number(n.to_string()),
        serde_json::Value::String(s) => JsonValue::Text(s.clone()),
        serde_json::Value::Array(a) => JsonValue::Array(a.iter().map(to_tree).collect()),
        serde_json::Value::Object(m) => JsonValue::Object(
            m.iter().map(|(k, x)| JsonMember { key: k.clone(), value: to_tree(x) }).collect(),
        ),
    }
}

} // verus!
