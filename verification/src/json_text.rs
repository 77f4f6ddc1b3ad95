//! The compact text form of JSON values.

use crate::decision::number_text;
use crate::json::{json_view, FieldView, Json, JsonField, JsonNumber, JsonView, NumberView};
use crate::number::{decimal_signed_text, decimal_text};
use crate::split::{join_text, lemma_views_push};
use crate::text::{join, opt_view, views};
use vstd::prelude::*;

verus! {

pub open spec fn hex_digit(n: u32) -> char {
    if n < 10 {
        (('0' as u32) + n) as char
    } else {
        (('a' as u32) + (n - 10)) as char
    }
}

/// How a character stands in a JSON string.
pub open spec fn escaped_char(c: char) -> Seq<char> {
    let n = c as u32;
    if c == '"' {
        seq!['\\', '"']
    } else if c == '\\' {
        seq!['\\', '\\']
    } else if n == 0x08 {
        seq!['\\', 'b']
    } else if n == 0x09 {
        seq!['\\', 't']
    } else if n == 0x0A {
        seq!['\\', 'n']
    } else if n == 0x0C {
        seq!['\\', 'f']
    } else if n == 0x0D {
        seq!['\\', 'r']
    } else if n < 0x20 {
        seq!['\\', 'u', '0', '0', hex_digit(n / 16), hex_digit(n % 16)]
    } else {
        seq![c]
    }
}

pub open spec fn escaped(s: Seq<char>) -> Seq<char>
    decreases s.len(),
{
    if s.len() == 0 {
        seq![]
    } else {
        escaped(s.drop_last()) + escaped_char(s.last())
    }
}

/// A text as a JSON string.
pub open spec fn quoted(s: Seq<char>) -> Seq<char> {
    seq!['"'] + escaped(s) + seq!['"']
}

/// The compact text form of a JSON value.
pub open spec fn json_text(value: JsonView) -> Seq<char>
    decreases value, 0int,
{
    match value {
        JsonView::Null => "null"@,
        JsonView::Bool(b) => if b {
            "true"@
        } else {
            "false"@
        },
        JsonView::Number(n) => number_text(n),
        JsonView::Text(s) => quoted(s),
        JsonView::Array(items) => "["@ + join(item_texts(items), ","@) + "]"@,
        JsonView::Object(fields) => "{"@ + join(field_texts(fields), ","@) + "}"@,
    }
}

pub open spec fn item_texts(items: Seq<JsonView>) -> Seq<Seq<char>>
    decreases items, items.len(),
{
    if items.len() == 0 {
        seq![]
    } else {
        item_texts(items.drop_last()).push(json_text(items[items.len() - 1]))
    }
}

pub open spec fn field_texts(fields: Seq<FieldView>) -> Seq<Seq<char>>
    decreases fields, fields.len(),
{
    if fields.len() == 0 {
        seq![]
    } else {
        let field = fields[fields.len() - 1];
        field_texts(fields.drop_last()).push(quoted(field.name) + ":"@ + json_text(field.value))
    }
}

/// Calls `serde_json::to_string` on a text, which gives it as a JSON string: quotes
/// around it, and a backslash escape for each quote, backslash and control
/// character in it.
#[verifier::external_body]
fn quote(s: &str) -> (r: String)
    ensures
        r@ == quoted(s@),
{
    serde_json::to_string(s).unwrap_or_default()
}

/// The compact text form of a JSON value.
pub fn render_json(value: &Json) -> (r: String)
    ensures
        r@ == json_text(value@),
    decreases value,
{
    match value {
        Json::Null => "null".to_owned(),
        Json::Bool(b) => if *b {
            "true".to_owned()
        } else {
            "false".to_owned()
        },
        Json::Number(n) => match n {
            JsonNumber::Unsigned(n) => decimal_text(*n),
            JsonNumber::Negative(n) => decimal_signed_text(*n),
            JsonNumber::Fraction(text) => text.clone(),
        },
        Json::Text(s) => quote(s.as_str()),
        Json::Array(items) => {
            let ghost all = value@->Array_0;
            let mut parts: Vec<String> = Vec::new();
            assert(views(parts@) =~= seq![]);
            let mut i: usize = 0;
            while i < items.len()
                invariant
                    i <= items.len(),
                    *value == Json::Array(*items),
                    all == value@->Array_0,
                    views(parts@) == item_texts(all.take(i as int)),
                decreases items.len() - i,
            {
                let item: &Json = &items[i];
                proof {
                    assert(decreases_to!(value => value->Array_0));
                    assert(decreases_to!(items => items@));
                    assert(decreases_to!(items@ => items@[i as int]));
                    assert(all[i as int] == json_view(items@[i as int]));
                }
                let part: String = render_json(item);
                proof {
                    lemma_views_push(parts@, part);
                    assert(all.take(i + 1).drop_last() =~= all.take(i as int));
                }
                parts.push(part);
                i = i + 1;
            }
            let mut out: String = "[".to_owned();
            let body: String = join_text(&parts, ",");
            out.append(body.as_str());
            out.append("]");
            assert(all.take(all.len() as int) =~= all);
            out
        },
        Json::Object(fields) => {
            let ghost all = value@->Object_0;
            let mut parts: Vec<String> = Vec::new();
            assert(views(parts@) =~= seq![]);
            let mut i: usize = 0;
            while i < fields.len()
                invariant
                    i <= fields.len(),
                    *value == Json::Object(*fields),
                    all == value@->Object_0,
                    views(parts@) == field_texts(all.take(i as int)),
                decreases fields.len() - i,
            {
                let field: &JsonField = &fields[i];
                proof {
                    assert(decreases_to!(value => value->Object_0));
                    assert(decreases_to!(fields => fields@));
                    assert(decreases_to!(fields@ => fields@[i as int]));
                    assert(decreases_to!(fields@[i as int] => fields@[i as int].value));
                    assert(all[i as int].value == json_view(fields@[i as int].value));
                    assert(all[i as int].name == fields@[i as int].name@);
                }
                let text: String = render_json(&field.value);
                let mut part: String = quote(field.name.as_str());
                part.append(":");
                part.append(text.as_str());
                proof {
                    lemma_views_push(parts@, part);
                    assert(all.take(i + 1).drop_last() =~= all.take(i as int));
                }
                parts.push(part);
                i = i + 1;
            }
            let mut out: String = "{".to_owned();
            let body: String = join_text(&parts, ",");
            out.append(body.as_str());
            out.append("}");
            assert(all.take(all.len() as int) =~= all);
            out
        },
    }
}

/// Values without fractions, nested at most `depth` deep, whose objects name no
/// member twice.
pub open spec fn plain(value: JsonView, depth: nat) -> bool
    decreases value,
{
    match value {
        JsonView::Number(NumberView::Unsigned(n)) => n <= u64::MAX,
        JsonView::Number(NumberView::Negative(n)) => i64::MIN <= n < 0,
        JsonView::Number(NumberView::Fraction(_)) => false,
        JsonView::Array(items) => depth > 0 && forall|i: int|
            0 <= i < items.len() ==> #[trigger] plain(items[i], (depth - 1) as nat),
        JsonView::Object(fields) => {
            &&& depth > 0
            &&& forall|i: int|
                0 <= i < fields.len() ==> #[trigger] plain(fields[i].value, (depth - 1) as nat)
            &&& forall|i: int, j: int|
                0 <= i < j < fields.len() ==> (#[trigger] fields[i]).name != (
                #[trigger] fields[j]).name
        },
        _ => true,
    }
}

/// The text that the member of that name holds in the JSON value that a text
/// writes; none where the text is no JSON or there is no such member.
pub uninterp spec fn parsed_member_text(text: Seq<char>, name: Seq<char>) -> Option<Seq<char>>;

/// Calls `serde_json::from_str` to read the text as a JSON value, and
/// `Value::get` and `Value::as_str` to get the member's text from it. The compact
/// form of a value, nested less deep than the parser's limit, reads as that value.
#[verifier::external_body]
fn read_member_text(text: &str, name: &str) -> (r: Option<String>)
    ensures
        opt_view(r) == parsed_member_text(text@, name@),
        forall|value: JsonView|
            text@ == #[trigger] json_text(value) && plain(value, 100) ==> opt_view(r)
                == value.member_text(name@),
{
    match serde_json::from_str::<serde_json::Value>(text) {
        Ok(value) => value.get(name).and_then(|member| member.as_str()).map(|s| s.to_string()),
        Err(_) => None,
    }
}

/// The message of a result, given what its payload holds under `message`: that
/// text, or the payload itself.
pub fn message_or_payload(message: Option<String>, payload: &str) -> (r: String)
    ensures
        r@ == (match message {
            Some(m) => m@,
            None => payload@,
        }),
{
    match message {
        Some(m) => m,
        None => payload.to_owned(),
    }
}

/// The message of a result with that payload.
pub open spec fn result_message(payload: Seq<char>) -> Seq<char> {
    match parsed_member_text(payload, "message"@) {
        Some(message) => message,
        None => payload,
    }
}

/// The message that a payload carries, or the payload itself.
pub fn extract_result_message(payload: &str) -> (r: String)
    ensures
        r@ == result_message(payload@),
        forall|value: JsonView|
            payload@ == #[trigger] json_text(value) && plain(value, 100) ==> r@ == (
            match value.member_text("message"@) {
                Some(message) => message,
                None => payload@,
            }),
{
    let message: Option<String> = read_member_text(payload, "message");
    message_or_payload(message, payload)
}

} // verus!
