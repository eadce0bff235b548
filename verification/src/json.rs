//! JSON documents as the handlers read them: a top-level object is a list
//! of members, and a member's value is held by its kind and its text.
use serde_json::Value;
use vstd::prelude::*;

verus! {

/// The value of a member. A number is held by its JSON text, and an array
/// or object by its canonical JSON text, in which the keys of every object
/// stand in ascending order.
#[derive(Debug, Clone, PartialEq, Eq)]
pub enum JsonValue {
    Null,
    Bool(bool),
    Number(String),
    Text(String),
    Composite(String),
}

/// The contents of a [`JsonValue`].
pub enum JsonValueView {
    Null,
    Bool(bool),
    Number(Seq<char>),
    Text(Seq<char>),
    Composite(Seq<char>),
}

impl View for JsonValue {
    type V = JsonValueView;

    open spec fn view(&self) -> JsonValueView {
        match self {
            JsonValue::Null => JsonValueView::Null,
            JsonValue::Bool(b) => JsonValueView::Bool(*b),
            JsonValue::Number(t) => JsonValueView::Number(t@),
            JsonValue::Text(t) => JsonValueView::Text(t@),
            JsonValue::Composite(t) => JsonValueView::Composite(t@),
        }
    }
}

/// One member of an object: a key and its value.
#[derive(Debug, Clone, PartialEq, Eq)]
pub struct JsonMember {
    pub key: String,
    pub value: JsonValue,
}

/// The contents of a [`JsonMember`].
pub struct JsonMemberView {
    pub key: Seq<char>,
    pub value: JsonValueView,
}

impl View for JsonMember {
    type V = JsonMemberView;

    open spec fn view(&self) -> JsonMemberView {
        JsonMemberView { key: self.key@, value: self.value@ }
    }
}

/// The contents of a list of members, in the order of the list.
pub open spec fn members_view(members: Seq<JsonMember>) -> Seq<JsonMemberView> {
    members.map_values(|m: JsonMember| m@)
}

/// A JSON text that was read: an object with its members, or a value of
/// another kind.
#[derive(Debug, Clone, PartialEq, Eq)]
pub enum JsonDocument {
    Object(Vec<JsonMember>),
    Other,
}

/// The contents of a [`JsonDocument`].
pub enum JsonDocumentView {
    Object(Seq<JsonMemberView>),
    Other,
}

impl View for JsonDocument {
    type V = JsonDocumentView;

    open spec fn view(&self) -> JsonDocumentView {
        match self {
            JsonDocument::Object(members) => JsonDocumentView::Object(members_view(members@)),
            JsonDocument::Other => JsonDocumentView::Other,
        }
    }
}

/// The contents of a document that may be missing.
pub open spec fn document_view(d: Option<JsonDocument>) -> Option<JsonDocumentView> {
    match d {
        Some(d) => Some(d@),
        None => None,
    }
}

/// The value that a list of members gives a key: that of the last member
/// with this key, as in a map that was filled in the order of the list.
pub open spec fn lookup(members: Seq<JsonMemberView>, key: Seq<char>) -> Option<JsonValueView>
    decreases members.len(),
{
    if members.len() == 0 {
        None
    } else if members.last().key == key {
        Some(members.last().value)
    } else {
        lookup(members.drop_last(), key)
    }
}

/// Whether some member of the list has this key.
pub open spec fn has_key(members: Seq<JsonMemberView>, key: Seq<char>) -> bool {
    exists|i: int| 0 <= i < members.len() && #[trigger] members[i].key == key
}

/// A key has a value exactly where a member carries it.
pub proof fn lemma_lookup_has_key(members: Seq<JsonMemberView>, key: Seq<char>)
    ensures
        lookup(members, key) is Some <==> has_key(members, key),
    decreases members.len(),
{
    if members.len() > 0 {
        let front = members.drop_last();
        lemma_lookup_has_key(front, key);
        if members.last().key == key {
            assert(members[members.len() - 1].key == key);
        } else if has_key(front, key) {
            let i = choose|i: int| 0 <= i < front.len() && #[trigger] front[i].key == key;
            assert(members[i].key == key);
        } else if has_key(members, key) {
            let i = choose|i: int| 0 <= i < members.len() && #[trigger] members[i].key == key;
            assert(front[i].key == key);
        }
    }
}

/// The member value that a key has in the list, if any.
pub fn find<'a>(members: &'a Vec<JsonMember>, key: &str) -> (r: Option<&'a JsonValue>)
    ensures
        match r {
            Some(v) => lookup(members_view(members@), key@) == Some(v@),
            None => lookup(members_view(members@), key@) is None,
        },
{
    let mut i: usize = members.len();
    let ghost all = members_view(members@);
    proof {
        assert(all.subrange(0, i as int) =~= all);
    }
    while i > 0
        invariant
            i <= members.len(),
            all == members_view(members@),
            lookup(all, key@) == lookup(all.subrange(0, i as int), key@),
        decreases i,
    {
        proof {
            assert(all.subrange(0, i as int).drop_last() =~= all.subrange(0, i - 1));
        }
        i = i - 1;
        let m = &members[i];
        if crate::text::str_eq(m.key.as_str(), key) {
            return Some(&m.value);
        }
    }
    None
}

/// The document that a JSON text denotes, if it is one: the members of a
/// top-level object in ascending order of their keys, each key once.
pub uninterp spec fn json_document(text: Seq<char>) -> Option<JsonDocumentView>;

/// Reads a JSON text with `serde_json::from_str` into a `serde_json::Value`.
/// The result is the document that the text denotes: `None` where the text
/// is no JSON, and for an object its members as the value's map walks them,
/// each value moved over by its kind, a number and a nested array or object
/// as `to_string` writes it.
#[verifier::external_body]
pub(crate) fn read_document(text: &str) -> (r: Option<JsonDocument>)
    ensures
        document_view(r) == json_document(text@),
{
    let Ok(value) = serde_json::from_str::<Value>(text) else { return None; };
    let Value::Object(map) = value else { return Some(JsonDocument::Other); };
    Some(JsonDocument::Object(map.into_iter().map(|(key, v)| JsonMember { key, value: match v {
        Value::Null => JsonValue::Null,
        Value::Bool(b) => JsonValue::Bool(b),
        Value::Number(n) => JsonValue::Number(n.to_string()),
        Value::String(s) => JsonValue::Text(s),
        other => JsonValue::Composite(other.to_string()),
    } }).collect()))
}

/// The contents of a list of documents, in the order of the list.
pub open spec fn documents_view(documents: Seq<JsonDocument>) -> Seq<JsonDocumentView> {
    documents.map_values(|d: JsonDocument| d@)
}

/// The contents of a list of documents that may be missing.
pub open spec fn array_view(a: Option<Vec<JsonDocument>>) -> Option<Seq<JsonDocumentView>> {
    match a {
        Some(v) => Some(documents_view(v@)),
        None => None,
    }
}

/// The items of the array that a JSON text denotes, if it is one, each as
/// a document.
pub uninterp spec fn json_array(text: Seq<char>) -> Option<Seq<JsonDocumentView>>;

/// Reads a JSON text with `serde_json::from_str` into a `serde_json::Value`.
/// The result is the list of the items of the array that the text denotes,
/// each moved over as a document is, and `None` where the text is no JSON
/// or no array.
#[verifier::external_body]
pub(crate) fn read_array(text: &str) -> (r: Option<Vec<JsonDocument>>)
    ensures
        array_view(r) == json_array(text@),
{
    let Ok(Value::Array(items)) = serde_json::from_str::<Value>(text) else { return None; };
    Some(items.into_iter().map(|item| match item {
        Value::Object(map) => JsonDocument::Object(map.into_iter().map(|(key, v)| JsonMember { key, value: match v {
            Value::Null => JsonValue::Null,
            Value::Bool(b) => JsonValue::Bool(b),
            Value::Number(n) => JsonValue::Number(n.to_string()),
            Value::String(s) => JsonValue::Text(s),
            other => JsonValue::Composite(other.to_string()),
        } }).collect()),
        _ => JsonDocument::Other,
    }).collect())
}

/// The items of the array that a JSON text denotes, or `None` where the
/// text is no JSON or no array.
pub fn parse_array(text: &str) -> (r: Option<Vec<JsonDocument>>)
    ensures
        array_view(r) == json_array(text@),
{
    read_array(text)
}

/// The JSON text of a string: its content between quotes, with the
/// characters that JSON does not take as they are written as escapes.
pub uninterp spec fn json_string_literal(s: Seq<char>) -> Seq<char>;

/// Writes a string as JSON text with `serde_json::to_string`, which does
/// not fail on a string.
#[verifier::external_body]
fn quote(s: &str) -> (r: String)
    ensures
        r@ == json_string_literal(s@),
{
    serde_json::to_string(s).unwrap_or_default()
}

/// The JSON text of a value.
pub open spec fn value_text(v: JsonValueView) -> Seq<char> {
    match v {
        JsonValueView::Null => "null"@,
        JsonValueView::Bool(true) => "true"@,
        JsonValueView::Bool(false) => "false"@,
        JsonValueView::Number(t) => t,
        JsonValueView::Text(t) => json_string_literal(t),
        JsonValueView::Composite(t) => t,
    }
}

/// The JSON text of a member: its key, a colon and its value.
pub open spec fn member_text(m: JsonMemberView) -> Seq<char> {
    json_string_literal(m.key) + ":"@ + value_text(m.value)
}

/// The JSON texts of the members, with a comma between each two.
pub open spec fn joined(members: Seq<JsonMemberView>) -> Seq<char>
    decreases members.len(),
{
    if members.len() == 0 {
        Seq::empty()
    } else if members.len() == 1 {
        member_text(members[0])
    } else {
        joined(members.drop_last()) + ","@ + member_text(members.last())
    }
}

/// The JSON text of the object with these members, in their order and
/// without any space.
pub open spec fn object_text(members: Seq<JsonMemberView>) -> Seq<char> {
    "{"@ + joined(members) + "}"@
}

/// The object without members is written as a pair of braces.
pub proof fn lemma_empty_object_text()
    ensures
        object_text(Seq::empty()) == "{}"@,
{
    reveal_strlit("{");
    reveal_strlit("}");
    reveal_strlit("{}");
    assert(object_text(Seq::empty()) =~= "{}"@);
}

/// The JSON text of a value.
pub fn value_to_text(v: &JsonValue) -> (r: String)
    ensures
        r@ == value_text(v@),
{
    match v {
        JsonValue::Null => "null".to_owned(),
        JsonValue::Bool(true) => "true".to_owned(),
        JsonValue::Bool(false) => "false".to_owned(),
        JsonValue::Number(t) => t.clone(),
        JsonValue::Text(t) => quote(t.as_str()),
        JsonValue::Composite(t) => t.clone(),
    }
}

/// The JSON text of the object with these members.
pub fn object_to_text(members: &Vec<JsonMember>) -> (r: String)
    ensures
        r@ == object_text(members_view(members@)),
{
    let ghost all = members_view(members@);
    let mut body = String::new();
    let mut i: usize = 0;
    proof {
        assert(all.subrange(0, 0) =~= Seq::<JsonMemberView>::empty());
    }
    while i < members.len()
        invariant
            i <= members.len(),
            all == members_view(members@),
            body@ == joined(all.subrange(0, i as int)),
        decreases members.len() - i,
    {
        let m = &members[i];
        let ghost before = body@;
        if i > 0 {
            body.append(",");
        }
        let key = quote(m.key.as_str());
        body.append(key.as_str());
        body.append(":");
        let value = value_to_text(&m.value);
        body.append(value.as_str());
        proof {
            let upto = all.subrange(0, i + 1);
            assert(upto.drop_last() =~= all.subrange(0, i as int));
            assert(upto.last() == m@);
            if i == 0 {
                assert(before =~= Seq::<char>::empty());
                assert(body@ =~= member_text(m@));
            } else {
                assert(body@ =~= before + ","@ + member_text(m@));
            }
        }
        i = i + 1;
    }
    proof {
        assert(all.subrange(0, members.len() as int) =~= all);
    }
    let mut out = "{".to_owned();
    out.append(body.as_str());
    out.append("}");
    out
}

/// The document that a JSON text denotes, or `None` where the text is no
/// JSON.
pub fn parse_document(text: &str) -> (r: Option<JsonDocument>)
    ensures
        document_view(r) == json_document(text@),
{
    read_document(text)
}

} // verus!
