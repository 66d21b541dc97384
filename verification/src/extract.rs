//! Extraction of one top-level member of a JSON object held as text.
//!
//! `json_extract_string(json, key)` reads the member named `key` (taken
//! literally: a dot in it is part of the name, not a path) of the JSON object
//! in `json` and returns it as SQL text:
//! - SQL NULL when the input is NULL, is not JSON, is JSON but not an object,
//!   has no member `key`, or has JSON `null` there;
//! - the string itself when the member is a JSON string;
//! - the member's JSON text otherwise (numbers, booleans, arrays, objects).
use vstd::prelude::*;

use crate::json::{
    document_object, json_document, json_has_member, json_member, json_member_is_null,
    json_member_rendering, json_member_str, json_parses, json_root_is_object, json_text,
    lemma_array_text_bracketed, lemma_empty_object_text, lemma_member_named_by_whole_name,
    lemma_quoted_injective, member_as_str, member_is_null, member_named, member_rendering,
    names_unique, object_member, parse_document, quoted, JsonValue,
};

verus! {

/// What reading member `key` of a JSON text gives, as a mathematical value.
pub enum LookupModel {
    /// The text is not JSON.
    Unparsable,
    /// The text is JSON but its root is not an object.
    NotObject,
    /// The root object has no member `key`.
    Absent,
    /// The member is JSON `null`.
    Null,
    /// The member is a JSON string with these contents.
    Text(Seq<char>),
    /// The member is another JSON value, with this JSON text.
    Other(Seq<char>),
}

/// What reading member `key` of a JSON text gives.
pub enum MemberLookup {
    /// The text is not JSON.
    Unparsable,
    /// The text is JSON but its root is not an object.
    NotObject,
    /// The root object has no member `key`.
    Absent,
    /// The member is JSON `null`.
    Null,
    /// The member is a JSON string with these contents.
    Text(String),
    /// The member is another JSON value, with this JSON text.
    Other(String),
}

impl View for MemberLookup {
    type V = LookupModel;

    open spec fn view(&self) -> LookupModel {
        match self {
            MemberLookup::Unparsable => LookupModel::Unparsable,
            MemberLookup::NotObject => LookupModel::NotObject,
            MemberLookup::Absent => LookupModel::Absent,
            MemberLookup::Null => LookupModel::Null,
            MemberLookup::Text(s) => LookupModel::Text(s@),
            MemberLookup::Other(s) => LookupModel::Other(s@),
        }
    }
}

/// The outcome of reading member `key` of the JSON text `text`, step by step:
/// parse, root object, member, null, string, JSON text.
pub open spec fn lookup_model(text: Seq<char>, key: Seq<char>) -> LookupModel {
    if !json_parses(text) {
        LookupModel::Unparsable
    } else if !json_root_is_object(text) {
        LookupModel::NotObject
    } else if !json_has_member(text, key) {
        LookupModel::Absent
    } else if json_member_is_null(text, key) {
        LookupModel::Null
    } else {
        match json_member_str(text, key) {
            Some(s) => LookupModel::Text(s),
            None => LookupModel::Other(json_member_rendering(text, key)),
        }
    }
}

/// The SQL value of a lookup: the text for a string or another non-null value,
/// SQL NULL (`None`) for everything else.
pub open spec fn sql_value(lookup: LookupModel) -> Option<Seq<char>> {
    match lookup {
        LookupModel::Text(s) => Some(s),
        LookupModel::Other(r) => Some(r),
        _ => None,
    }
}

/// `json_extract_string(json, key)` as a mathematical function: NULL in, NULL
/// out; otherwise the SQL value of reading member `key`.
pub open spec fn extracted(json: Option<Seq<char>>, key: Seq<char>) -> Option<Seq<char>> {
    match json {
        None => None,
        Some(text) => sql_value(lookup_model(text, key)),
    }
}

/// The contents of an optional `&str`.
pub open spec fn str_option_view(s: Option<&str>) -> Option<Seq<char>> {
    match s {
        Some(t) => Some(t@),
        None => None,
    }
}

/// Reads member `key` of the JSON text `json` through `serde_json`: parse,
/// root object, member, then null, string or JSON text, stopping at the first
/// step that gives out.
pub fn lookup_member(json: &str, key: &str) -> (res: MemberLookup)
    ensures
        res@ == lookup_model(json@, key@),
{
    let doc = match parse_document(json) {
        Some(doc) => doc,
        None => return MemberLookup::Unparsable,
    };
    let obj = match document_object(&doc) {
        Some(obj) => obj,
        None => return MemberLookup::NotObject,
    };
    let member = match object_member(&obj, key) {
        Some(member) => member,
        None => return MemberLookup::Absent,
    };
    if member_is_null(&member) {
        return MemberLookup::Null;
    }
    match member_as_str(&member) {
        Some(s) => MemberLookup::Text(s.to_owned()),
        None => MemberLookup::Other(member_rendering(&member)),
    }
}

/// The SQL value of a lookup: `Some` of the text for a string member or of the
/// JSON text for another non-null member, `None` (SQL NULL) otherwise.
pub fn lookup_to_sql(lookup: MemberLookup) -> (res: Option<String>)
    ensures
        res.deep_view() == sql_value(lookup@),
{
    match lookup {
        MemberLookup::Text(s) => Some(s),
        MemberLookup::Other(rendered) => Some(rendered),
        _ => None,
    }
}

/// `json_extract_string` on one row: `None` (SQL NULL) for a NULL row, else
/// the SQL value of member `key` of the row's JSON text.
pub fn json_extract_string_impl(json_col: Option<&str>, key: &str) -> (res: Option<String>)
    ensures
        res.deep_view() == extracted(str_option_view(json_col), key@),
        json_col is None ==> res is None,
{
    match json_col {
        None => None,
        Some(json) => lookup_to_sql(lookup_member(json, key)),
    }
}

/// A NULL row gives SQL NULL, whatever the key.
pub proof fn lemma_null_row_gives_null(key: Seq<char>)
    ensures
        extracted(None, key) is None,
{
}

/// A row gives a value exactly when it is JSON, its root is an object, it has
/// the member `key`, and that member is not JSON `null`; in every other case it
/// gives SQL NULL.
pub proof fn lemma_value_exactly_for_present_non_null_member(text: Seq<char>, key: Seq<char>)
    ensures
        extracted(Some(text), key) is Some <==> {
            &&& json_parses(text)
            &&& json_root_is_object(text)
            &&& json_has_member(text, key)
            &&& !json_member_is_null(text, key)
        },
{
}

/// A JSON `null` member gives SQL NULL, never a text such as `"null"`.
pub proof fn lemma_json_null_member_gives_null(text: Seq<char>, key: Seq<char>)
    requires
        json_parses(text),
        json_root_is_object(text),
        json_has_member(text, key),
        json_member_is_null(text, key),
    ensures
        extracted(Some(text), key) is None,
{
}

/// A member that is a JSON string gives that string's contents, not its JSON
/// text (no surrounding quotes, no escapes).
pub proof fn lemma_string_member_gives_contents(text: Seq<char>, key: Seq<char>, s: Seq<char>)
    requires
        json_parses(text),
        json_root_is_object(text),
        json_has_member(text, key),
        !json_member_is_null(text, key),
        json_member_str(text, key) == Some(s),
    ensures
        extracted(Some(text), key) == Some(s),
{
}

/// A member that is neither `null` nor a string gives its JSON text.
pub proof fn lemma_other_member_gives_rendering(text: Seq<char>, key: Seq<char>)
    requires
        json_parses(text),
        json_root_is_object(text),
        json_has_member(text, key),
        !json_member_is_null(text, key),
        json_member_str(text, key) is None,
    ensures
        extracted(Some(text), key) == Some(json_member_rendering(text, key)),
{
}

/// The member is looked up by its whole name: where the root object has no
/// member named exactly `key` (a member `hostname` is not a member `host`),
/// the row gives SQL NULL; where it has one, the row gives that member's
/// value: a string's contents, SQL NULL for `null`, the JSON text of anything
/// else.
pub proof fn lemma_member_looked_up_by_whole_name(text: Seq<char>, key: Seq<char>)
    requires
        json_document(text) matches Some(JsonValue::Object(_)),
    ensures
        ({
            let members = json_document(text)->Some_0->Object_0;
            &&& (forall|i: int| 0 <= i < members.len() ==> #[trigger] members[i].0 != key)
                ==> extracted(Some(text), key) is None
            &&& names_unique(members) ==> forall|i: int|
                0 <= i < members.len() && #[trigger] members[i].0 == key ==> extracted(Some(text), key)
                    == match members[i].1 {
                    JsonValue::Null => None,
                    JsonValue::Str(s) => Some(s),
                    v => Some(json_text(v)),
                }
        }),
{
    let members = json_document(text)->Some_0->Object_0;
    lemma_member_named_by_whole_name(members, key);
    if member_named(members, key) is Some {
        let v = member_named(members, key)->Some_0;
        let i = choose|i: int| 0 <= i < members.len() && #[trigger] members[i] == (key, v);
        assert(members[i].0 == key);
    }
}

/// Only a JSON `null` member gives SQL NULL: any other member, an empty array
/// or an empty object too, gives its text, and those two give `[]` and `{}`.
pub proof fn lemma_only_json_null_member_is_null(text: Seq<char>, key: Seq<char>, v: JsonValue)
    requires
        json_member(text, key) == Some(v),
    ensures
        extracted(Some(text), key) is None <==> v == JsonValue::Null,
        v == JsonValue::Array(Seq::empty()) ==> extracted(Some(text), key) == Some(seq!['[', ']']),
        v == JsonValue::Object(Seq::empty()) ==> extracted(Some(text), key) == Some(seq!['{', '}']),
{
    lemma_array_text_bracketed(Seq::empty());
    lemma_empty_object_text();
}

/// An array member gives its JSON text, which begins with `[` and ends with
/// `]`: the text of the whole array, not its elements joined.
pub proof fn lemma_array_member_gives_array_text(text: Seq<char>, key: Seq<char>, items: Seq<JsonValue>)
    requires
        json_member(text, key) == Some(JsonValue::Array(items)),
    ensures
        extracted(Some(text), key) == Some(json_text(JsonValue::Array(items))),
        extracted(Some(text), key) matches Some(r) && r[0] == '[' && r.last() == ']',
{
    lemma_array_text_bracketed(items);
}

/// A string member gives its whole contents: written back as a JSON string
/// literal they are the member's JSON text, and no other string is.
pub proof fn lemma_string_member_gives_whole_contents(text: Seq<char>, key: Seq<char>, s: Seq<char>)
    requires
        json_member(text, key) == Some(JsonValue::Str(s)),
    ensures
        extracted(Some(text), key) == Some(s),
        quoted(s) == json_member_rendering(text, key),
        forall|r: Seq<char>| quoted(r) == json_member_rendering(text, key) ==> r == s,
{
    assert forall|r: Seq<char>| quoted(r) == json_member_rendering(text, key) implies r == s by {
        lemma_quoted_injective(r, s);
    }
}

} // verus!
