//! JSON documents read through `serde_json`.
//!
//! The parse and every question put to a parsed value are calls into
//! `serde_json`.  Each call stands behind one trusted wrapper below.  What the
//! parse gives is named, `json_document(text)`, as a [`JsonValue`]; what the
//! other calls answer is stated over that value: whether the root is an
//! object, the member stored under a name, whether it is `null`, a string's
//! contents, and the compact JSON text that `Display` writes.  A parsed value
//! is only ever reached through these wrappers, so every value that the
//! library holds is, by construction, the one `serde_json` produced for that
//! text.
use vstd::prelude::*;

verus! {

/// `serde_json::Value`, carried opaquely through the library.
#[verifier::external_type_specification]
#[verifier::external_body]
pub struct ExJsonValue(serde_json::Value);

/// `serde_json::Map`, the map behind a JSON object, carried opaquely.
#[verifier::external_type_specification]
#[verifier::external_body]
#[verifier::reject_recursive_types(K)]
#[verifier::reject_recursive_types(V)]
pub struct ExJsonMap<K, V>(serde_json::Map<K, V>);

/// A JSON value as `serde_json::Value` holds it.
pub enum JsonValue {
    /// `null`.
    Null,
    /// `true` or `false`.
    Bool(bool),
    /// A number, by the text that `serde_json` writes for it.
    Number(Seq<char>),
    /// A string, by its contents (escapes decoded).
    Str(Seq<char>),
    /// An array, by its elements in order.
    Array(Seq<JsonValue>),
    /// An object, by its members (name, value) in the order that
    /// `serde_json::Map` keeps them.
    Object(Seq<(Seq<char>, JsonValue)>),
}

/// The value that `serde_json::from_str::<serde_json::Value>` gives for
/// `text`, or `None` where it refuses the text.
pub uninterp spec fn json_document(text: Seq<char>) -> Option<JsonValue>;

/// Whether no two members of an object have the same name.
pub open spec fn names_unique(members: Seq<(Seq<char>, JsonValue)>) -> bool {
    forall|i: int, j: int|
        0 <= i < members.len() && 0 <= j < members.len() && i != j ==> #[trigger] members[i].0
            != #[trigger] members[j].0
}

/// The value of the member named `key` (the whole name) among `members`.
pub open spec fn member_named(members: Seq<(Seq<char>, JsonValue)>, key: Seq<char>) -> Option<JsonValue>
    decreases members.len(),
{
    if members.len() == 0 {
        None
    } else if members[0].0 == key {
        Some(members[0].1)
    } else {
        member_named(members.drop_first(), key)
    }
}

/// The text by which JSON writes the character `c` inside a string:
/// `\"`, `\\`, `\b`, `\t`, `\n`, `\f`, `\r`, `\u00XX` (lower-case hex) for the
/// other control characters, and `c` itself otherwise.
pub open spec fn escaped_char(c: char) -> Seq<char> {
    if c == '"' {
        seq!['\\', '"']
    } else if c == '\\' {
        seq!['\\', '\\']
    } else if c == '\x08' {
        seq!['\\', 'b']
    } else if c == '\t' {
        seq!['\\', 't']
    } else if c == '\n' {
        seq!['\\', 'n']
    } else if c == '\x0c' {
        seq!['\\', 'f']
    } else if c == '\r' {
        seq!['\\', 'r']
    } else if (c as u32) < 0x20 {
        seq!['\\', 'u', '0', '0', hex_digit((c as u32) / 16), hex_digit((c as u32) % 16)]
    } else {
        seq![c]
    }
}

/// The lower-case hexadecimal digit for `d` (below 16).
pub open spec fn hex_digit(d: u32) -> char {
    if d < 10 {
        ((d + 0x30) as u8) as char
    } else {
        ((d - 10 + 0x61) as u8) as char
    }
}

/// The contents of `s` as JSON writes them inside a string.
pub open spec fn escaped(s: Seq<char>) -> Seq<char>
    decreases s.len(),
{
    if s.len() == 0 {
        Seq::empty()
    } else {
        escaped_char(s[0]) + escaped(s.drop_first())
    }
}

/// `s` as a JSON string literal.
pub open spec fn quoted(s: Seq<char>) -> Seq<char> {
    seq!['"'] + escaped(s) + seq!['"']
}

/// The compact JSON text of a value, as `serde_json`'s `Display` for `Value`
/// writes it: no spaces, elements and members separated by `,`, a member as
/// its quoted name, `:` and its value.
pub open spec fn json_text(v: JsonValue) -> Seq<char>
    decreases v,
{
    match v {
        JsonValue::Null => seq!['n', 'u', 'l', 'l'],
        JsonValue::Bool(b) => if b {
            seq!['t', 'r', 'u', 'e']
        } else {
            seq!['f', 'a', 'l', 's', 'e']
        },
        JsonValue::Number(t) => t,
        JsonValue::Str(s) => quoted(s),
        JsonValue::Array(items) => seq!['['] + elements_text(items) + seq![']'],
        JsonValue::Object(members) => seq!['{'] + members_text(members) + seq!['}'],
    }
}

/// The texts of `items`, separated by `,`.
pub open spec fn elements_text(items: Seq<JsonValue>) -> Seq<char>
    decreases items,
{
    if items.len() == 0 {
        Seq::empty()
    } else if items.len() == 1 {
        json_text(items[0])
    } else {
        elements_text(items.drop_last()) + seq![','] + json_text(items.last())
    }
}

/// The members `"name":value`, separated by `,`.
pub open spec fn members_text(members: Seq<(Seq<char>, JsonValue)>) -> Seq<char>
    decreases members,
{
    if members.len() == 0 {
        Seq::empty()
    } else if members.len() == 1 {
        quoted(members[0].0) + seq![':'] + json_text(members[0].1)
    } else {
        members_text(members.drop_last()) + seq![','] + quoted(members.last().0) + seq![':']
            + json_text(members.last().1)
    }
}

/// Whether `serde_json::from_str::<serde_json::Value>` accepts `text`.
pub open spec fn json_parses(text: Seq<char>) -> bool {
    json_document(text) is Some
}

/// Whether the text parses and its root is a JSON object (what
/// `serde_json::Value::as_object` answers `Some` on).
pub open spec fn json_root_is_object(text: Seq<char>) -> bool {
    json_document(text) matches Some(JsonValue::Object(_))
}

/// The value of the member `key` (the whole name) of the root object parsed
/// from `text`.
pub open spec fn json_member(text: Seq<char>, key: Seq<char>) -> Option<JsonValue> {
    match json_document(text) {
        Some(JsonValue::Object(members)) => member_named(members, key),
        _ => None,
    }
}

/// Whether the root object parsed from `text` has a member named `key`.
pub open spec fn json_has_member(text: Seq<char>, key: Seq<char>) -> bool {
    json_member(text, key) is Some
}

/// Whether the member `key` of the root object parsed from `text` is `null`.
pub open spec fn json_member_is_null(text: Seq<char>, key: Seq<char>) -> bool {
    json_member(text, key) == Some(JsonValue::Null)
}

/// The contents of the member `key` of the root object parsed from `text`,
/// when that member is a string.
pub open spec fn json_member_str(text: Seq<char>, key: Seq<char>) -> Option<Seq<char>> {
    match json_member(text, key) {
        Some(JsonValue::Str(s)) => Some(s),
        _ => None,
    }
}

/// The compact JSON text of the member `key` of the root object parsed from
/// `text`.
pub open spec fn json_member_rendering(text: Seq<char>, key: Seq<char>) -> Seq<char> {
    match json_member(text, key) {
        Some(v) => json_text(v),
        None => Seq::empty(),
    }
}

/// The member found under `key` is one stored under exactly that name (the
/// whole name, not a part of it), and a member stored under `key` is found;
/// where names are unique, it is that member's value.
pub proof fn lemma_member_named_by_whole_name(members: Seq<(Seq<char>, JsonValue)>, key: Seq<char>)
    ensures
        member_named(members, key) matches Some(v) ==> exists|i: int|
            0 <= i < members.len() && #[trigger] members[i] == (key, v),
        (exists|i: int| 0 <= i < members.len() && #[trigger] members[i].0 == key) ==> member_named(
            members,
            key,
        ) is Some,
        names_unique(members) ==> forall|i: int|
            0 <= i < members.len() && #[trigger] members[i].0 == key ==> member_named(members, key)
                == Some(members[i].1),
    decreases members.len(),
{
    if members.len() > 0 {
        let rest = members.drop_first();
        lemma_member_named_by_whole_name(rest, key);
        if let Some(v) = member_named(members, key) {
            if members[0].0 != key {
                let i = choose|i: int| 0 <= i < rest.len() && #[trigger] rest[i] == (key, v);
                assert(members[i + 1] == (key, v));
            }
        }
        if exists|i: int| 0 <= i < members.len() && #[trigger] members[i].0 == key {
            let i = choose|i: int| 0 <= i < members.len() && #[trigger] members[i].0 == key;
            if i > 0 && members[0].0 != key {
                assert(rest[i - 1].0 == key);
            }
        }
        if names_unique(members) {
            assert(names_unique(rest)) by {
                assert forall|a: int, b: int|
                    0 <= a < rest.len() && 0 <= b < rest.len() && a != b implies #[trigger] rest[a].0
                    != #[trigger] rest[b].0 by {
                    assert(members[a + 1].0 != members[b + 1].0);
                }
            }
            assert forall|i: int|
                0 <= i < members.len() && #[trigger] members[i].0 == key implies member_named(
                members,
                key,
            ) == Some(members[i].1) by {
                if i > 0 {
                    assert(members[0].0 != members[i].0);
                    assert(rest[i - 1] == members[i]);
                }
            }
        }
    }
}

/// The text of an array is `[`, its elements' texts separated by `,`, and
/// `]`: the empty array is `[]`, and it begins with `[` and ends with `]`.
pub proof fn lemma_array_text_bracketed(items: Seq<JsonValue>)
    ensures
        json_text(JsonValue::Array(items)).len() >= 2,
        json_text(JsonValue::Array(items))[0] == '[',
        json_text(JsonValue::Array(items)).last() == ']',
        items.len() == 0 ==> json_text(JsonValue::Array(items)) == seq!['[', ']'],
{
    if items.len() == 0 {
        assert(json_text(JsonValue::Array(items)) =~= seq!['[', ']']);
    }
}

/// An array of one element is that element's text between `[` and `]`.
pub proof fn lemma_array_text_one(x: JsonValue)
    ensures
        json_text(JsonValue::Array(seq![x])) == seq!['['] + json_text(x) + seq![']'],
{
    assert(elements_text(seq![x]) == json_text(x));
}

/// Appending an element to a non-empty array inserts `,` and the element's
/// text before the closing `]`.
pub proof fn lemma_array_text_push(items: Seq<JsonValue>, x: JsonValue)
    requires
        items.len() > 0,
    ensures
        json_text(JsonValue::Array(items.push(x))) == json_text(JsonValue::Array(items)).drop_last()
            + seq![','] + json_text(x) + seq![']'],
{
    let longer = items.push(x);
    assert(longer.drop_last() =~= items);
    assert(elements_text(longer) == elements_text(items) + seq![','] + json_text(x));
    assert((seq!['['] + elements_text(items) + seq![']']).drop_last() =~= seq!['['] + elements_text(
        items,
    ));
    assert(json_text(JsonValue::Array(longer)) =~= json_text(JsonValue::Array(items)).drop_last()
        + seq![','] + json_text(x) + seq![']']);
}

/// The empty object is `{}`.
pub proof fn lemma_empty_object_text()
    ensures
        json_text(JsonValue::Object(Seq::empty())) == seq!['{', '}'],
{
    assert(json_text(JsonValue::Object(Seq::empty())) =~= seq!['{', '}']);
}

/// A character that needs no escape: not `"`, not `\`, not a control
/// character.
pub open spec fn plain_char(c: char) -> bool {
    c != '"' && c != '\\' && (c as u32) >= 0x20
}

/// Characters that need no escape are written as they are.
pub proof fn lemma_escaped_plain(s: Seq<char>)
    requires
        forall|i: int| 0 <= i < s.len() ==> plain_char(#[trigger] s[i]),
    ensures
        escaped(s) == s,
    decreases s.len(),
{
    if s.len() > 0 {
        lemma_escaped_plain(s.drop_first());
        assert(plain_char(s[0]));
        assert(s =~= seq![s[0]] + s.drop_first());
    }
}

proof fn lemma_hex_digit_injective(a: u32, b: u32)
    requires
        a < 16,
        b < 16,
        hex_digit(a) == hex_digit(b),
    ensures
        a == b,
{
}

proof fn lemma_escaped_char_prefix_free(c1: char, c2: char, x: Seq<char>, y: Seq<char>)
    requires
        escaped_char(c1) + x == escaped_char(c2) + y,
    ensures
        c1 == c2,
        x == y,
{
    let z = escaped_char(c1) + x;
    let e1 = escaped_char(c1);
    let e2 = escaped_char(c2);
    assert(z[0] == e1[0] && z[0] == e2[0]);
    if e1.len() >= 2 && e2.len() >= 2 {
        assert(z[1] == e1[1] && z[1] == e2[1]);
        if e1.len() == 6 && e2.len() == 6 {
            assert(z[4] == e1[4] && z[4] == e2[4]);
            assert(z[5] == e1[5] && z[5] == e2[5]);
            lemma_hex_digit_injective((c1 as u32) / 16, (c2 as u32) / 16);
            lemma_hex_digit_injective((c1 as u32) % 16, (c2 as u32) % 16);
            assert(c1 as u32 == c2 as u32);
        }
    }
    assert(e1 == e2);
    assert(x =~= z.subrange(e1.len() as int, z.len() as int));
    assert(y =~= z.subrange(e2.len() as int, z.len() as int));
}

/// Escaping loses nothing: two strings with the same escaped text are the
/// same string.
pub proof fn lemma_escaped_injective(a: Seq<char>, b: Seq<char>)
    requires
        escaped(a) == escaped(b),
    ensures
        a == b,
    decreases a.len(),
{
    if a.len() == 0 {
        if b.len() > 0 {
            assert(escaped(b).len() > 0);
        }
        assert(a =~= b);
    } else {
        if b.len() == 0 {
            assert(escaped(a).len() > 0);
        } else {
            lemma_escaped_char_prefix_free(a[0], b[0], escaped(a.drop_first()), escaped(b.drop_first()));
            lemma_escaped_injective(a.drop_first(), b.drop_first());
            assert(a =~= seq![a[0]] + a.drop_first());
            assert(b =~= seq![b[0]] + b.drop_first());
        }
    }
}

/// A string literal determines its string: two strings with the same JSON
/// text are the same string.
pub proof fn lemma_quoted_injective(a: Seq<char>, b: Seq<char>)
    requires
        quoted(a) == quoted(b),
    ensures
        a == b,
{
    let qa = quoted(a);
    assert(escaped(a) =~= qa.subrange(1, qa.len() - 1));
    assert(escaped(b) =~= quoted(b).subrange(1, quoted(b).len() - 1));
    lemma_escaped_injective(a, b);
}

/// A JSON value parsed from a text; its view is that text.
pub struct JsonDocument {
    value: serde_json::Value,
    text: Ghost<Seq<char>>,
}

impl View for JsonDocument {
    type V = Seq<char>;

    closed spec fn view(&self) -> Seq<char> {
        self.text@
    }
}

/// The root object of a [`JsonDocument`]; its view is the document's text.
pub struct JsonObject<'a> {
    map: &'a serde_json::Map<String, serde_json::Value>,
    text: Ghost<Seq<char>>,
}

impl<'a> View for JsonObject<'a> {
    type V = Seq<char>;

    closed spec fn view(&self) -> Seq<char> {
        self.text@
    }
}

/// One member of a root object; its view is the document's text and the
/// member's name.
pub struct JsonMember<'a> {
    value: &'a serde_json::Value,
    text: Ghost<Seq<char>>,
    key: Ghost<Seq<char>>,
}

impl<'a> View for JsonMember<'a> {
    type V = (Seq<char>, Seq<char>);

    closed spec fn view(&self) -> (Seq<char>, Seq<char>) {
        (self.text@, self.key@)
    }
}

/// Calls `serde_json::from_str::<serde_json::Value>` on `text`.
/// Trusted: the call succeeds exactly when `json_document(text)` is `Some`,
/// the document it gives is the one parsed from `text`, and (as
/// `serde_json::Map` is keyed by member name) a root object has no two members
/// of the same name.
#[verifier::external_body]
pub(crate) fn parse_document(text: &str) -> (res: Option<JsonDocument>)
    ensures
        res is Some <==> json_document(text@) is Some,
        res matches Some(doc) ==> doc@ == text@,
        res is Some ==> (json_document(text@) matches Some(JsonValue::Object(members)) ==> names_unique(members)),
{
    match serde_json::from_str::<serde_json::Value>(text) {
        Ok(value) => Some(JsonDocument { value, text: Ghost(text@) }),
        Err(_) => None,
    }
}

/// Calls `serde_json::Value::as_object` on a parsed document.
/// Trusted: it answers `Some` exactly when the value parsed from the
/// document's text is an object (`json_root_is_object`), and the object
/// belongs to that text.
#[verifier::external_body]
pub(crate) fn document_object<'a>(doc: &'a JsonDocument) -> (res: Option<JsonObject<'a>>)
    ensures
        res is Some <==> json_root_is_object(doc@),
        res matches Some(obj) ==> obj@ == doc@,
{
    match doc.value.as_object() {
        Some(map) => Some(JsonObject { map, text: Ghost(doc@) }),
        None => None,
    }
}

/// Calls `serde_json::Map::get` with `key` on a root object.
/// Trusted: it answers `Some` exactly when the object has a member named
/// `key`, the whole name (`json_has_member`), and the member found is the
/// value stored under that name.
#[verifier::external_body]
pub(crate) fn object_member<'a>(obj: &JsonObject<'a>, key: &str) -> (res: Option<JsonMember<'a>>)
    ensures
        res is Some <==> json_has_member(obj@, key@),
        res matches Some(member) ==> member@ == (obj@, key@),
{
    match obj.map.get(key) {
        Some(value) => Some(JsonMember { value, text: Ghost(obj@), key: Ghost(key@) }),
        None => None,
    }
}

/// Calls `serde_json::Value::is_null` on a member.
/// Trusted: it answers `true` exactly when the member is `null`
/// (`json_member_is_null`).
#[verifier::external_body]
pub(crate) fn member_is_null(member: &JsonMember) -> (res: bool)
    ensures
        res == json_member_is_null(member@.0, member@.1),
{
    member.value.is_null()
}

/// Calls `serde_json::Value::as_str` on a member.
/// Trusted: it answers the whole contents of a string member, and `None` for
/// any other member (`json_member_str`).
#[verifier::external_body]
pub(crate) fn member_as_str<'a>(member: &JsonMember<'a>) -> (res: Option<&'a str>)
    ensures
        match res {
            Some(s) => json_member_str(member@.0, member@.1) == Some(s@),
            None => json_member_str(member@.0, member@.1) is None,
        },
{
    member.value.as_str()
}

/// Renders a member with `serde_json`'s `Display` for `Value` (through
/// `ToString::to_string`).
/// Trusted: the text is the member's compact JSON text
/// (`json_member_rendering`, by `json_text`).
#[verifier::external_body]
pub(crate) fn member_rendering(member: &JsonMember) -> (res: String)
    ensures
        res@ == json_member_rendering(member@.0, member@.1),
{
    member.value.to_string()
}

} // verus!
