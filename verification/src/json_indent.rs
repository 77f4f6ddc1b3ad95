//! The indented text form of JSON values.

use crate::json::{FieldView, Json, JsonView};
use crate::json_build::{ordered, with_field};
use crate::json_text::{json_text, plain, quoted, render_json};
use crate::text::join;
use vstd::prelude::*;

verus! {

/// Two spaces for each level.
pub open spec fn indent(depth: nat) -> Seq<char>
    decreases depth,
{
    if depth == 0 {
        seq![]
    } else {
        indent((depth - 1) as nat) + "  "@
    }
}

/// The parts of a value at that depth, each on a line of its own, one level deeper;
/// nothing where there are none.
pub open spec fn on_lines(parts: Seq<Seq<char>>, depth: nat) -> Seq<char> {
    if parts.len() == 0 {
        seq![]
    } else {
        "\n"@ + indent(depth + 1) + join(parts, ",\n"@ + indent(depth + 1)) + "\n"@ + indent(depth)
    }
}

/// The indented text form of a JSON value that stands at that depth.
pub open spec fn indented(value: JsonView, depth: nat) -> Seq<char>
    decreases value, 0int,
{
    match value {
        JsonView::Array(items) => "["@ + on_lines(indented_items(items, depth + 1), depth) + "]"@,
        JsonView::Object(fields) => "{"@ + on_lines(indented_fields(fields, depth + 1), depth)
            + "}"@,
        _ => json_text(value),
    }
}

pub open spec fn indented_items(items: Seq<JsonView>, depth: nat) -> Seq<Seq<char>>
    decreases items, items.len(),
{
    if items.len() == 0 {
        seq![]
    } else {
        indented_items(items.drop_last(), depth).push(indented(items[items.len() - 1], depth))
    }
}

pub open spec fn indented_fields(fields: Seq<FieldView>, depth: nat) -> Seq<Seq<char>>
    decreases fields, fields.len(),
{
    if fields.len() == 0 {
        seq![]
    } else {
        let field = fields[fields.len() - 1];
        indented_fields(fields.drop_last(), depth).push(
            quoted(field.name) + ": "@ + indented(field.value, depth),
        )
    }
}

/// The members of every object stand in the order of their names.
pub open spec fn sorted(value: JsonView) -> bool
    decreases value,
{
    match value {
        JsonView::Array(items) => forall|i: int|
            0 <= i < items.len() ==> #[trigger] sorted(items[i]),
        JsonView::Object(fields) => {
            &&& ordered(fields)
            &&& forall|i: int| 0 <= i < fields.len() ==> #[trigger] sorted(fields[i].value)
        },
        _ => true,
    }
}

/// The text is the compact form of that value, which reads back as it was written.
pub open spec fn writes(text: Seq<char>, value: JsonView) -> bool {
    text == json_text(value) && plain(value, 100) && sorted(value)
}

/// Calls `serde_json::from_str` to read the text as a JSON value and
/// `serde_json::to_string_pretty` to write the value with indentation. The compact
/// form of a value, nested less deep than the parser's limit and with the members of
/// its objects in order, reads as that value. The indented form puts each item and
/// each member on a line of its own, two spaces deeper than what holds it, with a
/// space behind the colon of a member.
#[verifier::external_body]
fn indent_text(text: &str) -> (r: String)
    requires
        exists|value: JsonView| writes(text@, value),
    ensures
        forall|value: JsonView| #[trigger] writes(text@, value) ==> r@ == indented(value, 0),
{
    match serde_json::from_str::<serde_json::Value>(text) {
        Ok(value) => serde_json::to_string_pretty(&value).unwrap_or_default(),
        Err(_) => String::new(),
    }
}

/// The indented text form of a JSON value.
pub fn indent_json(value: &Json) -> (r: String)
    requires
        plain(value@, 100),
        sorted(value@),
    ensures
        r@ == indented(value@, 0),
{
    let text: String = render_json(value);
    assert(writes(text@, value@));
    indent_text(text.as_str())
}

/// What a field of an object may hold, so that the object can be indented.
pub open spec fn fits(value: JsonView, depth: nat) -> bool {
    plain(value, depth) && sorted(value)
}

/// Setting a field that fits leaves only fields that fit.
pub proof fn lemma_with_field_fits(fields: Seq<FieldView>, f: FieldView, depth: nat)
    requires
        forall|i: int| 0 <= i < fields.len() ==> fits((#[trigger] fields[i]).value, depth),
        fits(f.value, depth),
    ensures
        forall|i: int|
            0 <= i < with_field(fields, f).len() ==> fits(
                (#[trigger] with_field(fields, f)[i]).value,
                depth,
            ),
    decreases fields.len(),
{
    let after = with_field(fields, f);
    if fields.len() > 0 {
        let rest = fields.skip(1);
        lemma_with_field_fits(rest, f, depth);
        assert forall|i: int| 0 <= i < after.len() implies fits(
            (#[trigger] after[i]).value,
            depth,
        ) by {
            if after == seq![f] + rest {
                assert(i == 0 || after[i] == fields[i]);
            } else if after == seq![f] + fields {
                assert(i == 0 || after[i] == fields[i - 1]);
            } else if i == 0 {
                assert(after[0] == fields[0]);
            } else {
                assert(after[i] == with_field(rest, f)[i - 1]);
            }
        }
    }
}

} // verus!
