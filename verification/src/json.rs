//! A JSON document as plain values, and the clean-up a model provider's
//! structured-output schema needs.

use vstd::prelude::*;

use crate::text::text_equals;

verus! {

/// An error of `serde_json`, carried through as it was raised.
#[verifier::external_type_specification]
#[verifier::external_body]
pub struct ExJsonError(serde_json::Error);

/// Names the JSON value `serde_json::from_str` reads from `text`, taken as
/// plain JSON (numbers by the text `serde_json::Number` displays, object
/// members in the order the parsed map holds them), or `None` where
/// `from_str` refuses the text.
pub uninterp spec fn json_value_of(text: Seq<char>) -> Option<JsonView>;

/// `serde_json::from_str` accepts `text` as one JSON document.
pub open spec fn json_document(text: Seq<char>) -> bool {
    json_value_of(text) is Some
}

/// Parses `text` with `serde_json::from_str` and converts the value into
/// plain JSON. Claimed: it succeeds exactly when `json_value_of` names a
/// value for the text, and then gives that value. What the error says is not
/// stated.
#[verifier::external_body]
pub(crate) fn parse_json_document(text: &str) -> (parsed: Result<JsonValue, serde_json::Error>)
    ensures
        match parsed {
            Ok(v) => json_value_of(text@) == Some(json_view(v)),
            Err(_) => json_value_of(text@) is None,
        },
{
    match serde_json::from_str::<serde_json::Value>(text) {
        Ok(value) => Ok(plain_json(value)),
        Err(error) => Err(error),
    }
}

/// Converts a `serde_json::Value` into plain JSON, variant for variant; a
/// number becomes the text `serde_json::Number` displays. Nothing is stated
/// of the result here: a `serde_json::Value` has no view. `parse_json_document`
/// states what the two together give.
#[verifier::external_body]
fn plain_json(value: serde_json::Value) -> JsonValue {
    match value {
        serde_json::Value::Null => JsonValue::Null,
        serde_json::Value::Bool(b) => JsonValue::Bool(b),
        serde_json::Value::Number(n) => JsonValue::Number(n.to_string()),
        serde_json::Value::String(t) => JsonValue::Text(t),
        serde_json::Value::Array(items) => JsonValue::Array(items.into_iter().map(plain_json).collect()),
        serde_json::Value::Object(members) => JsonValue::Object(
            members.into_iter().map(|(key, member)| (key, plain_json(member))).collect(),
        ),
    }
}

/// What kind of fault a JSON parse met, as `serde_json` classifies it.
#[derive(Debug, Clone, Copy, PartialEq, Eq, Structural)]
pub enum JsonErrorCategory {
    Io,
    Syntax,
    Data,
    Eof,
}

/// The class `serde_json::Error::classify` gives an error. Nothing is stated
/// of it.
#[verifier::external_body]
fn json_error_category(error: &serde_json::Error) -> (category: JsonErrorCategory) {
    match error.classify() {
        serde_json::error::Category::Io => JsonErrorCategory::Io,
        serde_json::error::Category::Syntax => JsonErrorCategory::Syntax,
        serde_json::error::Category::Data => JsonErrorCategory::Data,
        serde_json::error::Category::Eof => JsonErrorCategory::Eof,
    }
}

/// The line `serde_json::Error::line` reports. Nothing is stated of it.
#[verifier::external_body]
fn json_error_line(error: &serde_json::Error) -> (line: usize) {
    error.line()
}

/// The column `serde_json::Error::column` reports. Nothing is stated of it.
#[verifier::external_body]
fn json_error_column(error: &serde_json::Error) -> (column: usize) {
    error.column()
}

/// The display text of a `serde_json` error. Nothing is stated of it.
#[verifier::external_body]
fn json_error_text(error: &serde_json::Error) -> (text: String) {
    error.to_string()
}

/// A failed JSON parse, as plain facts: the decoder's message, its class of
/// fault, and where in the text it stopped.
#[derive(Debug, Clone, PartialEq, Eq)]
pub struct JsonParseError {
    pub message: String,
    pub category: JsonErrorCategory,
    pub line: usize,
    pub column: usize,
}

/// The plain facts of a `serde_json` error.
pub fn json_parse_error(error: &serde_json::Error) -> (facts: JsonParseError) {
    JsonParseError {
        message: json_error_text(error),
        category: json_error_category(error),
        line: json_error_line(error),
        column: json_error_column(error),
    }
}

/// A JSON value. Numbers are held by their JSON text; object members keep
/// their order.
#[derive(Debug)]
pub enum JsonValue {
    Null,
    Bool(bool),
    Number(String),
    Text(String),
    Array(Vec<JsonValue>),
    Object(Vec<(String, JsonValue)>),
}

/// A JSON value with its texts as characters and its lists as sequences.
pub enum JsonView {
    Null,
    Bool(bool),
    Number(Seq<char>),
    Text(Seq<char>),
    Array(Seq<JsonView>),
    Object(Seq<(Seq<char>, JsonView)>),
}

pub open spec fn json_view(value: JsonValue) -> JsonView
    decreases value,
{
    match value {
        JsonValue::Null => JsonView::Null,
        JsonValue::Bool(b) => JsonView::Bool(b),
        JsonValue::Number(n) => JsonView::Number(n@),
        JsonValue::Text(t) => JsonView::Text(t@),
        JsonValue::Array(items) => JsonView::Array(
            Seq::new(
                items@.len(),
                |i: int|
                    if 0 <= i < items@.len() {
                        json_view(items@[i])
                    } else {
                        JsonView::Null
                    },
            ),
        ),
        JsonValue::Object(members) => JsonView::Object(
            Seq::new(
                members@.len(),
                |i: int|
                    if 0 <= i < members@.len() {
                        (members@[i].0@, json_view(members@[i].1))
                    } else {
                        (Seq::empty(), JsonView::Null)
                    },
            ),
        ),
    }
}


/// The value of the first member named `key`.
pub open spec fn member_value(members: Seq<(Seq<char>, JsonView)>, key: Seq<char>) -> Option<JsonView>
    decreases members.len(),
{
    if members.len() == 0 {
        None
    } else if members[0].0 == key {
        Some(members[0].1)
    } else {
        member_value(members.drop_first(), key)
    }
}

/// A schema `type` that allows a `format`: `"string"`, or a list holding it.
pub open spec fn type_allows_format(kind: Option<JsonView>) -> bool {
    match kind {
        Some(JsonView::Text(k)) => k == "string"@,
        Some(JsonView::Array(kinds)) => exists|i: int|
            0 <= i < kinds.len() && #[trigger] kinds[i] == JsonView::Text("string"@),
        _ => false,
    }
}

/// `members` without those named `key`.
pub open spec fn without_member(members: Seq<(Seq<char>, JsonView)>, key: Seq<char>) -> Seq<(Seq<char>, JsonView)>
    decreases members.len(),
{
    if members.len() == 0 {
        Seq::empty()
    } else {
        let kept = without_member(members.drop_last(), key);
        if members.last().0 == key {
            kept
        } else {
            kept.push(members.last())
        }
    }
}

/// A JSON schema a model provider accepts: at every level, an object whose
/// type does not allow a `format` loses its `format`; everything else,
/// constraints included, stays.
pub open spec fn sanitized(value: JsonView) -> JsonView
    decreases value,
{
    match value {
        JsonView::Array(items) => JsonView::Array(sanitized_items(items)),
        JsonView::Object(members) => {
            let children = sanitized_members(members);
            if type_allows_format(member_value(members, "type"@)) {
                JsonView::Object(children)
            } else {
                JsonView::Object(without_member(children, "format"@))
            }
        },
        _ => value,
    }
}

/// Each item sanitized, in order.
pub open spec fn sanitized_items(items: Seq<JsonView>) -> Seq<JsonView>
    decreases items,
{
    if items.len() == 0 {
        Seq::empty()
    } else {
        sanitized_items(items.drop_last()).push(sanitized(items.last()))
    }
}

/// Each member's value sanitized, names and order kept.
pub open spec fn sanitized_members(members: Seq<(Seq<char>, JsonView)>) -> Seq<(Seq<char>, JsonView)>
    decreases members,
{
    if members.len() == 0 {
        Seq::empty()
    } else {
        sanitized_members(members.drop_last()).push((members.last().0, sanitized(members.last().1)))
    }
}

pub open spec fn member_views(members: Seq<(String, JsonValue)>) -> Seq<(Seq<char>, JsonView)> {
    Seq::new(members.len(), |i: int| (members[i].0@, json_view(members[i].1)))
}

fn type_member_allows_format(members: &Vec<(String, JsonValue)>) -> (allows: bool)
    ensures
        allows == type_allows_format(member_value(member_views(members@), "type"@)),
{
    proof {
        reveal_strlit("type");
        reveal_strlit("string");
    }
    let ghost views = member_views(members@);
    assert(views =~= json_view(JsonValue::Object(*members))->Object_0);
    let mut i: usize = 0;
    assert(views.skip(0) =~= views);
    while i < members.len()
        invariant
            i <= members@.len(),
            views == member_views(members@),
            member_value(views, "type"@) == member_value(views.skip(i as int), "type"@),
        decreases members@.len() - i,
    {
        assert(views.skip(i as int)[0] == views[i as int]);
        if text_equals(members[i].0.as_str(), "type") {
            return match &members[i].1 {
                JsonValue::Text(kind) => text_equals(kind.as_str(), "string"),
                JsonValue::Array(kinds) => {
                    let ghost kind_views = json_view(members@[i as int].1)->Array_0;
                    let mut j: usize = 0;
                    let mut found = false;
                    while j < kinds.len()
                        invariant
                            j <= kinds@.len(),
                            kind_views == json_view(JsonValue::Array(*kinds))->Array_0,
                            found == exists|k: int| 0 <= k < j && #[trigger] kind_views[k] == JsonView::Text("string"@),
                        decreases kinds@.len() - j,
                    {
                        let this = match &kinds[j] {
                            JsonValue::Text(k) => text_equals(k.as_str(), "string"),
                            _ => false,
                        };
                        assert(kind_views[j as int] == json_view(kinds@[j as int]));
                        if this {
                            found = true;
                        }
                        assert(this == (kind_views[j as int] == JsonView::Text("string"@)));
                        j = j + 1;
                    }
                    found
                },
                _ => false,
            };
        }
        assert(views.skip(i as int).drop_first() =~= views.skip(i + 1));
        i = i + 1;
    }
    false
}

pub open spec fn item_views(items: Seq<JsonValue>) -> Seq<JsonView> {
    Seq::new(items.len(), |i: int| json_view(items[i]))
}

pub proof fn lemma_array_view(items: Vec<JsonValue>)
    ensures
        json_view(JsonValue::Array(items)) == JsonView::Array(item_views(items@)),
{
    assert(json_view(JsonValue::Array(items))->Array_0 =~= item_views(items@));
}

proof fn lemma_object_view(members: Vec<(String, JsonValue)>)
    ensures
        json_view(JsonValue::Object(members)) == JsonView::Object(member_views(members@)),
{
    assert(json_view(JsonValue::Object(members))->Object_0 =~= member_views(members@));
}

/// The provider-compatible form of a JSON schema.
pub fn sanitize_schema(value: &JsonValue) -> (clean: JsonValue)
    ensures
        json_view(clean) == sanitized(json_view(*value)),
    decreases value,
{
    match value {
        JsonValue::Null => JsonValue::Null,
        JsonValue::Bool(b) => JsonValue::Bool(*b),
        JsonValue::Number(n) => JsonValue::Number(n.clone()),
        JsonValue::Text(t) => JsonValue::Text(t.clone()),
        JsonValue::Array(items) => {
            let ghost views = item_views(items@);
            let mut out: Vec<JsonValue> = Vec::new();
            let mut i: usize = 0;
            while i < items.len()
                invariant
                    *value == JsonValue::Array(*items),
                    views == item_views(items@),
                    i <= items@.len(),
                    item_views(out@) == sanitized_items(views.take(i as int)),
                decreases items@.len() - i,
            {
                proof {
                    assert(decreases_to!(*value => value->Array_0));
                    assert(decreases_to!(value->Array_0 => items@[i as int]));
                }
                let item = sanitize_schema(&items[i]);
                let ghost before = out@;
                out.push(item);
                proof {
                    assert(views.take(i + 1).drop_last() =~= views.take(i as int));
                    assert(views.take(i + 1).last() == json_view(items@[i as int]));
                    assert(item_views(out@) =~= item_views(before).push(json_view(item)));
                }
                i = i + 1;
            }
            assert(views.take(i as int) =~= views);
            let clean = JsonValue::Array(out);
            proof {
                lemma_array_view(*items);
                lemma_array_view(out);
            }
            clean
        },
        JsonValue::Object(members) => {
            let allows = type_member_allows_format(members);
            let ghost views = member_views(members@);
            let mut out: Vec<(String, JsonValue)> = Vec::new();
            let mut i: usize = 0;
            proof {
                reveal_strlit("format");
            }
            while i < members.len()
                invariant
                    *value == JsonValue::Object(*members),
                    views == member_views(members@),
                    i <= members@.len(),
                    member_views(out@) == (if allows {
                        sanitized_members(views.take(i as int))
                    } else {
                        without_member(sanitized_members(views.take(i as int)), "format"@)
                    }),
                decreases members@.len() - i,
            {
                proof {
                    assert(decreases_to!(*value => value->Object_0));
                    assert(decreases_to!(value->Object_0 => members@[i as int]));
                    assert(decreases_to!(members@[i as int] => members@[i as int].1));
                }
                let keep = allows || !text_equals(members[i].0.as_str(), "format");
                let ghost grown = sanitized_members(views.take(i + 1));
                proof {
                    assert(views.take(i + 1).drop_last() =~= views.take(i as int));
                    assert(views.take(i + 1).last() == views[i as int]);
                    assert(grown.drop_last() =~= sanitized_members(views.take(i as int)));
                }
                if keep {
                    let child = sanitize_schema(&members[i].1);
                    let key = members[i].0.clone();
                    let ghost before = out@;
                    out.push((key, child));
                    assert(member_views(out@) =~= member_views(before).push((key@, json_view(child))));
                } else {
                    assert(views[i as int].0 == "format"@);
                }
                i = i + 1;
            }
            assert(views.take(i as int) =~= views);
            let clean = JsonValue::Object(out);
            proof {
                lemma_object_view(*members);
                lemma_object_view(out);
            }
            clean
        },
    }
}

proof fn lemma_without_member_has_none(members: Seq<(Seq<char>, JsonView)>, key: Seq<char>)
    ensures
        forall|i: int|
            0 <= i < without_member(members, key).len() ==> (#[trigger] without_member(members, key)[i]).0 != key,
    decreases members.len(),
{
    if members.len() > 0 {
        lemma_without_member_has_none(members.drop_last(), key);
        let kept = without_member(members.drop_last(), key);
        if members.last().0 != key {
            assert forall|i: int| 0 <= i < kept.push(members.last()).len() implies (#[trigger] kept.push(
                members.last(),
            )[i]).0 != key by {
                if i < kept.len() {
                    assert(kept.push(members.last())[i] == kept[i]);
                }
            }
        }
    }
}

proof fn lemma_member_value_absent(members: Seq<(Seq<char>, JsonView)>, key: Seq<char>)
    requires
        forall|i: int| 0 <= i < members.len() ==> (#[trigger] members[i]).0 != key,
    ensures
        member_value(members, key) is None,
    decreases members.len(),
{
    if members.len() > 0 {
        assert forall|i: int| 0 <= i < members.drop_first().len() implies (
        #[trigger] members.drop_first()[i]).0 != key by {
            assert(members.drop_first()[i] == members[i + 1]);
        }
        lemma_member_value_absent(members.drop_first(), key);
    }
}

/// After sanitizing, a schema object keeps a `format` only where its own
/// type allows one.
pub proof fn law_sanitized_objects_keep_format_only_for_strings(members: Seq<(Seq<char>, JsonView)>)
    ensures
        sanitized(JsonView::Object(members)) matches JsonView::Object(out) && (member_value(out, "format"@) is Some
            ==> type_allows_format(member_value(members, "type"@))),
{
    let children = sanitized_members(members);
    if !type_allows_format(member_value(members, "type"@)) {
        lemma_without_member_has_none(children, "format"@);
        lemma_member_value_absent(without_member(children, "format"@), "format"@);
    }
}

// ---------------------------------------------------------------------------
// Compact JSON text
// ---------------------------------------------------------------------------

/// The hexadecimal digits, lower case, by value.
pub open spec fn hex_digits() -> Seq<char> {
    "0123456789abcdef"@
}

/// One character of a JSON string as written: the quote and backslash
/// escaped, the control characters escaped by their short form where they
/// have one and as `\u00XX` (lower-case hexadecimal) otherwise, every other
/// character as it is.
pub open spec fn escaped_char(c: char) -> Seq<char> {
    if c == '"' {
        "\\\""@
    } else if c == '\\' {
        "\\\\"@
    } else if c == '\x08' {
        "\\b"@
    } else if c == '\t' {
        "\\t"@
    } else if c == '\n' {
        "\\n"@
    } else if c == '\x0c' {
        "\\f"@
    } else if c == '\r' {
        "\\r"@
    } else if (c as u32) < 0x20 {
        "\\u00"@ + seq![hex_digits()[((c as u32) / 16) as int], hex_digits()[((c as u32) % 16) as int]]
    } else {
        seq![c]
    }
}

/// The characters of a JSON string, each as written.
pub open spec fn escaped(s: Seq<char>) -> Seq<char>
    decreases s.len(),
{
    if s.len() == 0 {
        Seq::empty()
    } else {
        escaped(s.drop_last()) + escaped_char(s.last())
    }
}

/// A JSON string as written, in quotes.
pub open spec fn quoted(s: Seq<char>) -> Seq<char> {
    "\""@ + escaped(s) + "\""@
}

/// The compact JSON text of a value, as `serde_json` writes it: no white
/// space, members in order, strings escaped, numbers by their text.
pub open spec fn json_text(value: JsonView) -> Seq<char>
    decreases value,
{
    match value {
        JsonView::Null => "null"@,
        JsonView::Bool(b) => if b {
            "true"@
        } else {
            "false"@
        },
        JsonView::Number(n) => n,
        JsonView::Text(t) => quoted(t),
        JsonView::Array(items) => "["@ + items_text(items) + "]"@,
        JsonView::Object(members) => "{"@ + members_text(members) + "}"@,
    }
}

/// The items' texts, separated by commas.
pub open spec fn items_text(items: Seq<JsonView>) -> Seq<char>
    decreases items,
{
    if items.len() == 0 {
        Seq::empty()
    } else if items.len() == 1 {
        json_text(items[0])
    } else {
        items_text(items.drop_last()) + ","@ + json_text(items.last())
    }
}

/// The members' texts (`"name":value`), separated by commas.
pub open spec fn members_text(members: Seq<(Seq<char>, JsonView)>) -> Seq<char>
    decreases members,
{
    if members.len() == 0 {
        Seq::empty()
    } else if members.len() == 1 {
        quoted(members[0].0) + ":"@ + json_text(members[0].1)
    } else {
        members_text(members.drop_last()) + ","@ + quoted(members.last().0) + ":"@ + json_text(members.last().1)
    }
}

fn push_hex_digit(out: &mut String, d: u32)
    requires
        d < 16,
    ensures
        final(out)@ == old(out)@.push(hex_digits()[d as int]),
{
    proof {
        reveal_strlit("0123456789abcdef");
    }
    let digits = "0123456789abcdef";
    let digit = digits.substring_char(d as usize, d as usize + 1);
    let ghost before = out@;
    out.append(digit);
    assert(final(out)@ =~= before.push(hex_digits()[d as int]));
}

/// Append `text` written as a JSON string, in quotes.
fn push_quoted(out: &mut String, text: &str)
    ensures
        final(out)@ == old(out)@ + quoted(text@),
{
    let ghost start = out@;
    out.append("\"");
    let n = text.unicode_len();
    let mut i: usize = 0;
    while i < n
        invariant
            n == text@.len(),
            i <= n,
            out@ == start + "\""@ + escaped(text@.take(i as int)),
        decreases n - i,
    {
        let c = text.get_char(i);
        let ghost before = out@;
        if c == '"' {
            out.append("\\\"");
        } else if c == '\\' {
            out.append("\\\\");
        } else if c == '\x08' {
            out.append("\\b");
        } else if c == '\t' {
            out.append("\\t");
        } else if c == '\n' {
            out.append("\\n");
        } else if c == '\x0c' {
            out.append("\\f");
        } else if c == '\r' {
            out.append("\\r");
        } else if (c as u32) < 0x20 {
            out.append("\\u00");
            push_hex_digit(out, (c as u32) / 16);
            push_hex_digit(out, (c as u32) % 16);
        } else {
            out.append(text.substring_char(i, i + 1));
        }
        proof {
            assert(out@ =~= before + escaped_char(c));
            assert(text@.take(i + 1).drop_last() =~= text@.take(i as int));
            assert(text@.take(i + 1).last() == c);
        }
        i = i + 1;
    }
    assert(text@.take(n as int) =~= text@);
    out.append("\"");
    assert(out@ =~= start + quoted(text@));
}

/// Append the compact JSON text of `value`.
pub fn push_json_text(out: &mut String, value: &JsonValue)
    ensures
        final(out)@ == old(out)@ + json_text(json_view(*value)),
    decreases value,
{
    let ghost start = out@;
    match value {
        JsonValue::Null => {
            out.append("null");
        },
        JsonValue::Bool(b) => {
            if *b {
                out.append("true");
            } else {
                out.append("false");
            }
        },
        JsonValue::Number(n) => {
            out.append(n.as_str());
        },
        JsonValue::Text(t) => {
            push_quoted(out, t.as_str());
        },
        JsonValue::Array(items) => {
            let ghost views = item_views(items@);
            proof {
                lemma_array_view(*items);
            }
            out.append("[");
            let mut i: usize = 0;
            while i < items.len()
                invariant
                    *value == JsonValue::Array(*items),
                    views == item_views(items@),
                    json_view(*value) == JsonView::Array(views),
                    i <= items@.len(),
                    out@ == start + "["@ + items_text(views.take(i as int)),
                decreases items@.len() - i,
            {
                proof {
                    assert(decreases_to!(*value => value->Array_0));
                    assert(decreases_to!(value->Array_0 => items@[i as int]));
                }
                let ghost before = out@;
                if i > 0 {
                    out.append(",");
                }
                push_json_text(out, &items[i]);
                proof {
                    let t = views.take(i + 1);
                    assert(t.drop_last() =~= views.take(i as int));
                    assert(t.last() == json_view(items@[i as int]));
                    if i == 0 {
                        assert(t.len() == 1);
                        assert(t[0] == views[0]);
                        assert(views.take(0) =~= Seq::<JsonView>::empty());
                    }
                }
                i = i + 1;
            }
            assert(views.take(i as int) =~= views);
            out.append("]");
        },
        JsonValue::Object(members) => {
            let ghost views = member_views(members@);
            proof {
                lemma_object_view(*members);
            }
            out.append("{");
            let mut i: usize = 0;
            while i < members.len()
                invariant
                    *value == JsonValue::Object(*members),
                    views == member_views(members@),
                    json_view(*value) == JsonView::Object(views),
                    i <= members@.len(),
                    out@ == start + "{"@ + members_text(views.take(i as int)),
                decreases members@.len() - i,
            {
                proof {
                    assert(decreases_to!(*value => value->Object_0));
                    assert(decreases_to!(value->Object_0 => members@[i as int]));
                    assert(decreases_to!(members@[i as int] => members@[i as int].1));
                }
                if i > 0 {
                    out.append(",");
                }
                push_quoted(out, members[i].0.as_str());
                out.append(":");
                push_json_text(out, &members[i].1);
                proof {
                    let t = views.take(i + 1);
                    assert(t.drop_last() =~= views.take(i as int));
                    assert(t.last() == views[i as int]);
                    if i == 0 {
                        assert(t.len() == 1);
                        assert(t[0] == views[0]);
                        assert(views.take(0) =~= Seq::<(Seq<char>, JsonView)>::empty());
                    }
                }
                i = i + 1;
            }
            assert(views.take(i as int) =~= views);
            out.append("}");
        },
    }
    assert(out@ =~= start + json_text(json_view(*value)));
}

/// A JSON object member.
pub fn member(name: &str, value: JsonValue) -> (m: (String, JsonValue))
    ensures
        m.0@ == name@,
        m.1 == value,
{
    (String::from_str(name), value)
}

/// The member `key` of an object's members, the first of that name.
pub fn find_member<'a>(members: &'a Vec<(String, JsonValue)>, key: &str) -> (found: Option<&'a JsonValue>)
    ensures
        match found {
            Some(v) => member_value(member_views(members@), key@) == Some(json_view(*v)),
            None => member_value(member_views(members@), key@) is None,
        },
{
    let ghost views = member_views(members@);
    let mut i: usize = 0;
    assert(views.skip(0) =~= views);
    while i < members.len()
        invariant
            i <= members@.len(),
            views == member_views(members@),
            member_value(views, key@) == member_value(views.skip(i as int), key@),
        decreases members@.len() - i,
    {
        assert(views.skip(i as int)[0] == views[i as int]);
        if text_equals(members[i].0.as_str(), key) {
            return Some(&members[i].1);
        }
        assert(views.skip(i as int).drop_first() =~= views.skip(i + 1));
        i = i + 1;
    }
    None
}

/// The text of the member `key` of an object, where that member is a string.
pub open spec fn text_member(value: JsonView, key: Seq<char>) -> Option<Seq<char>> {
    match value {
        JsonView::Object(members) => match member_value(members, key) {
            Some(JsonView::Text(t)) => Some(t),
            _ => None,
        },
        _ => None,
    }
}

/// The text of the member `key` of `value`, where `value` is an object and
/// that member a string.
pub fn string_member<'a>(value: &'a JsonValue, key: &str) -> (text: Option<&'a String>)
    ensures
        match text {
            Some(t) => text_member(json_view(*value), key@) == Some(t@),
            None => text_member(json_view(*value), key@) is None,
        },
{
    match value {
        JsonValue::Object(members) => {
            proof {
                lemma_object_view(*members);
            }
            match find_member(members, key) {
                Some(JsonValue::Text(t)) => Some(t),
                _ => None,
            }
        },
        _ => None,
    }
}

/// The view of an object built from `members`.
pub proof fn lemma_object_of(members: Vec<(String, JsonValue)>)
    ensures
        json_view(JsonValue::Object(members)) == JsonView::Object(member_views(members@)),
{
    lemma_object_view(members);
}

} // verus!
