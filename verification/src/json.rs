use crate::error::MalformedFrame;
use crate::text::same_text;
use vstd::prelude::*;

verus! {

/// A JSON document held as plain values.
///
/// A number is kept as the decimal text that denotes it, and the members of
/// an object are kept as a list of key and value in the order in which the
/// parser hands them out.
#[derive(Debug, PartialEq, Eq)]
pub enum Json {
    Null,
    Bool(bool),
    Number(String),
    Text(String),
    List(Vec<Json>),
    Record(Vec<(String, Json)>),
}

/// The mathematical value of a [`Json`] document.
pub enum JsonDoc {
    Null,
    Bool(bool),
    Number(Seq<char>),
    Text(Seq<char>),
    List(Seq<JsonDoc>),
    Record(Seq<MemberDoc>),
}

/// One member of a record: a key and the value under it.
pub struct MemberDoc {
    pub key: Seq<char>,
    pub value: JsonDoc,
}

impl View for Json {
    type V = JsonDoc;

    open spec fn view(&self) -> JsonDoc
        decreases self,
    {
        match self {
            Json::Null => JsonDoc::Null,
            Json::Bool(b) => JsonDoc::Bool(*b),
            Json::Number(digits) => JsonDoc::Number(digits@),
            Json::Text(text) => JsonDoc::Text(text@),
            Json::List(items) => JsonDoc::List(
                Seq::new(
                    items.len() as nat,
                    |i: int|
                        if 0 <= i < items.len() {
                            items[i].view()
                        } else {
                            JsonDoc::Null
                        },
                ),
            ),
            Json::Record(members) => JsonDoc::Record(
                Seq::new(
                    members.len() as nat,
                    |i: int|
                        if 0 <= i < members.len() {
                            MemberDoc { key: members[i].0@, value: members[i].1.view() }
                        } else {
                            MemberDoc { key: Seq::empty(), value: JsonDoc::Null }
                        },
                ),
            ),
        }
    }
}

/// The values of a list, each by its view.
pub open spec fn items_view(items: Seq<Json>) -> Seq<JsonDoc> {
    Seq::new(items.len(), |i: int| items[i]@)
}

/// The members of a record, each key and value by its view.
pub open spec fn members_view(members: Seq<(String, Json)>) -> Seq<MemberDoc> {
    Seq::new(members.len(), |i: int| MemberDoc { key: members[i].0@, value: members[i].1@ })
}

/// The value under the first member of `members` whose key is `key`.
pub open spec fn member(members: Seq<MemberDoc>, key: Seq<char>) -> Option<JsonDoc>
    decreases members.len(),
{
    if members.len() == 0 {
        None
    } else if members[0].key == key {
        Some(members[0].value)
    } else {
        member(members.drop_first(), key)
    }
}

impl JsonDoc {
    /// The value of the member `key` of a record; `None` for a record
    /// without such a member and for a document that is no record.
    pub open spec fn get(self, key: Seq<char>) -> Option<JsonDoc> {
        match self {
            JsonDoc::Record(members) => member(members, key),
            _ => None,
        }
    }
}

/// The view of a list is the list of its items' views.
pub proof fn lemma_list_view(items: Vec<Json>)
    ensures
        Json::List(items)@ == JsonDoc::List(items_view(items@)),
{
    assert(Json::List(items)@->List_0 =~= items_view(items@));
}

/// The view of a record is the list of its members' views.
pub proof fn lemma_record_view(members: Vec<(String, Json)>)
    ensures
        Json::Record(members)@ == JsonDoc::Record(members_view(members@)),
{
    assert(Json::Record(members)@->Record_0 =~= members_view(members@));
}

impl Json {
    /// Looks up the member `key` of a record.
    pub fn get(&self, key: &str) -> (found: Option<&Json>)
        ensures
            found is Some <==> self@.get(key@) is Some,
            found matches Some(value) ==> self@.get(key@) == Some(value@),
    {
        match self {
            Json::Record(members) => {
                proof {
                    lemma_record_view(*members);
                }
                let ghost all = members_view(members@);
                assert(all.skip(0) =~= all);
                let mut i: usize = 0;
                while i < members.len()
                    invariant
                        i <= members.len(),
                        all == members_view(members@),
                        self@ == JsonDoc::Record(all),
                        member(all, key@) == member(all.skip(i as int), key@),
                    decreases members.len() - i,
                {
                    assert(all.skip(i as int).drop_first() =~= all.skip(i + 1));
                    assert(all.skip(i as int)[0] == all[i as int]);
                    if same_text(members[i].0.as_str(), key) {
                        return Some(&members[i].1);
                    }
                    i += 1;
                }
                None
            },
            _ => None,
        }
    }
}

/// `serde_json::Value`, the parser's own document type. Its values are only
/// carried from the parser to [`document_of`].
#[verifier::external_type_specification]
#[verifier::external_body]
pub struct ExValue(serde_json::Value);

/// `serde_json::Error`, the parser's complaint about a text.
#[verifier::external_type_specification]
#[verifier::external_body]
pub struct ExError(serde_json::Error);

/// The document that `serde_json::from_str` reads from `text`, or `None`
/// where it rejects the text.
pub uninterp spec fn json_parse(text: Seq<char>) -> Option<JsonDoc>;

/// The document that a `serde_json::Value` holds.
pub uninterp spec fn value_doc(value: serde_json::Value) -> JsonDoc;

/// The JSON string literal that `serde_json::to_string` writes for `text`:
/// the text between double quotes, with escapes where JSON asks for them.
pub uninterp spec fn json_string_text(text: Seq<char>) -> Seq<char>;

/// Calls `serde_json::from_str` at the type `serde_json::Value`.
///
/// Assumed: whether the parser accepts a text, and the document it reads
/// from it, depend on the text alone.
#[verifier::external_body]
fn parse_value(text: &str) -> (parsed: Result<serde_json::Value, serde_json::Error>)
    ensures
        parsed is Err <==> json_parse(text@) is None,
        parsed matches Ok(value) ==> json_parse(text@) == Some(value_doc(value)),
{
    serde_json::from_str::<serde_json::Value>(text)
}

/// Copies a `serde_json::Value` into a [`Json`], variant by variant. A number
/// is copied as the text that its `Display` impl writes, and the members of
/// an object in the order of `serde_json::Map::iter`.
///
/// Assumed: the copy holds what the value holds.
#[verifier::external_body]
fn document_of(value: &serde_json::Value) -> (doc: Json)
    ensures
        doc@ == value_doc(*value),
{
    match value {
        serde_json::Value::Null => Json::Null,
        serde_json::Value::Bool(flag) => Json::Bool(*flag),
        serde_json::Value::Number(number) => Json::Number(number.to_string()),
        serde_json::Value::String(text) => Json::Text(text.clone()),
        serde_json::Value::Array(items) => Json::List(items.iter().map(document_of).collect()),
        serde_json::Value::Object(members) => Json::Record(
            members.iter().map(|(key, item)| (key.clone(), document_of(item))).collect(),
        ),
    }
}

/// Calls `serde_json::to_string` on a string slice.
///
/// Assumed: the literal written depends on the text alone. The call cannot
/// fail: a string slice has no map keys, and the serializer writes into a
/// byte vector.
#[verifier::external_body]
pub(crate) fn quote_text(text: &str) -> (quoted: String)
    ensures
        quoted@ == json_string_text(text@),
{
    serde_json::to_string(text).unwrap()
}

/// Reads `text` as a JSON document.
pub fn parse(text: &str) -> (parsed: Result<Json, MalformedFrame>)
    ensures
        parsed is Err <==> json_parse(text@) is None,
        parsed matches Ok(doc) ==> json_parse(text@) == Some(doc@),
{
    match parse_value(text) {
        Ok(value) => Ok(document_of(&value)),
        Err(_) => Err(MalformedFrame),
    }
}

} // verus!
