//! JSON objects whose members are strings or null, written and read by the
//! `serde_json` crate.

use vstd::prelude::*;

verus! {

/// What the value of one member of a JSON object is, as far as a record of
/// strings needs to know.
#[derive(Clone, Debug)]
pub enum JsonField {
    /// The literal `null`.
    Null,
    /// A string, with its escapes resolved.
    Text(String),
    /// A number, a boolean, an array or an object.
    Other,
}

/// A member's value with its text as a sequence of characters.
pub enum JsonFieldView {
    Null,
    Text(Seq<char>),
    Other,
}

impl View for JsonField {
    type V = JsonFieldView;

    open spec fn view(&self) -> JsonFieldView {
        match self {
            JsonField::Null => JsonFieldView::Null,
            JsonField::Text(s) => JsonFieldView::Text(s@),
            JsonField::Other => JsonFieldView::Other,
        }
    }
}

/// The value that an optional string is written as: `null` where there is
/// none.
pub open spec fn written_value(value: Option<Seq<char>>) -> JsonFieldView {
    match value {
        None => JsonFieldView::Null,
        Some(s) => JsonFieldView::Text(s),
    }
}

/// Members that are to be written, each with its key and value as
/// sequences of characters.
pub open spec fn entry_views(entries: Seq<(String, Option<String>)>) -> Seq<
    (Seq<char>, Option<Seq<char>>),
> {
    Seq::new(
        entries.len(),
        |i: int|
            (
                entries[i].0@,
                match entries[i].1 {
                    None => None,
                    Some(s) => Some(s@),
                },
            ),
    )
}

/// Members that were read, each with its key and value as sequences of
/// characters.
pub open spec fn member_views(members: Seq<(String, JsonField)>) -> Seq<(Seq<char>, JsonFieldView)> {
    Seq::new(members.len(), |i: int| (members[i].0@, members[i].1@))
}

/// The members as they are read back after they were written.
pub open spec fn written_members(entries: Seq<(Seq<char>, Option<Seq<char>>)>) -> Seq<
    (Seq<char>, JsonFieldView),
> {
    Seq::new(entries.len(), |i: int| (entries[i].0, written_value(entries[i].1)))
}

/// Whether no key occurs twice.
pub open spec fn distinct_keys(entries: Seq<(Seq<char>, Option<Seq<char>>)>) -> bool {
    forall|i: int, j: int|
        0 <= i < j < entries.len() ==> (#[trigger] entries[i]).0 != (#[trigger] entries[j]).0
}

/// The bytes that `serde_json::to_vec` writes for the object that holds
/// the given members in the given order.
pub uninterp spec fn json_object_text(entries: Seq<(Seq<char>, Option<Seq<char>>)>) -> Seq<u8>;

/// The members, in the order of the text, that `serde_json::from_slice`
/// reads from `text` as an object, or `None` where it reports an error.
pub uninterp spec fn json_object_members(text: Seq<u8>) -> Option<Seq<(Seq<char>, JsonFieldView)>>;

/// Builds a `serde_json::Map` of the entries with `Map::insert`, each
/// value through `Value::from`, and calls `serde_json::to_vec` on it. The
/// contract names the bytes, and claims that an object is never written
/// as nothing, and that `serde_json` reads an object written from distinct
/// keys back as the same members in the same order: the crate is built
/// with `preserve_order`, under which a map keeps the order of insertion.
#[verifier::external_body]
pub(crate) fn write_json_object(entries: &Vec<(String, Option<String>)>) -> (text: Vec<u8>)
    ensures
        text@ == json_object_text(entry_views(entries@)),
        text@.len() > 0,
        distinct_keys(entry_views(entries@)) ==> json_object_members(text@) == Some(
            written_members(entry_views(entries@)),
        ),
{
    let mut object = serde_json::Map::new();
    for (key, value) in entries.iter() {
        object.insert(key.clone(), serde_json::Value::from(value.clone()));
    }
    serde_json::to_vec(&object).unwrap_or_default()
}

/// Calls `serde_json::from_slice` for a `serde_json::Map` and hands its
/// members out in the map's order, each value told apart by its variant;
/// gives `None` where the text is refused. The contract names the result.
#[verifier::external_body]
pub(crate) fn read_json_object(text: &[u8]) -> (members: Option<Vec<(String, JsonField)>>)
    ensures
        members is Some <==> json_object_members(text@) is Some,
        members is Some ==> json_object_members(text@) == Some(member_views(members.unwrap()@)),
{
    let object = match serde_json::from_slice::<serde_json::Map<String, serde_json::Value>>(text) {
        Ok(object) => object,
        Err(_) => return None,
    };
    let mut members = Vec::new();
    for (key, value) in object {
        let field = match value {
            serde_json::Value::Null => JsonField::Null,
            serde_json::Value::String(s) => JsonField::Text(s),
            _ => JsonField::Other,
        };
        members.push((key, field));
    }
    Some(members)
}

} // verus!
