//! What is read from a JSON value.

use crate::json::{texts_of, FieldView, JsonView, NumberView};
use crate::json_text::{escaped, escaped_char, field_texts, item_texts, json_text, quoted};
use crate::number::decimal;
use crate::text::join;
use vstd::prelude::*;

verus! {

/// A member is the first of its name; only objects have members.
pub proof fn law_members(fields: Seq<FieldView>, f: FieldView, name: Seq<char>, other: JsonView)
    ensures
        JsonView::Object(seq![f] + fields).member(f.name) == Some(f.value),
        f.name != name ==> JsonView::Object(seq![f] + fields).member(name) == JsonView::Object(
            fields,
        ).member(name),
        JsonView::Object(seq![]).member(name) is None,
        !(other is Object) ==> other.member(name) is None,
{
    let all = seq![f] + fields;
    assert(all[0] == f);
    assert(all.skip(1) =~= fields);
}

/// A value is read as what it is: a text, a list, a number that fits.
pub proof fn law_values(text: Seq<char>, items: Seq<JsonView>, n: nat, m: int, value: JsonView)
    ensures
        JsonView::Text(text).text() == Some(text),
        !(value is Text) ==> value.text() is None,
        JsonView::Array(items).items() == Some(items),
        !(value is Array) ==> value.items() is None,
        JsonView::Number(NumberView::Unsigned(n)).unsigned() == Some(n),
        JsonView::Number(NumberView::Negative(m)).unsigned() is None,
        JsonView::Number(NumberView::Negative(m)).signed() == Some(m),
        n <= i64::MAX ==> JsonView::Number(NumberView::Unsigned(n)).signed() == Some(n as int),
        n > i64::MAX ==> JsonView::Number(NumberView::Unsigned(n)).signed() is None,
        !(value is Number) ==> value.unsigned() is None && value.signed() is None,
{
}

/// The members are read under their own name.
pub proof fn law_member_values(value: JsonView, name: Seq<char>)
    ensures
        value.member(name) matches Some(v) ==> value.member_text(name) == v.text()
            && value.member_items(name) == v.items() && value.member_unsigned(name) == v.unsigned()
            && value.member_signed(name) == v.signed(),
        value.member(name) is None ==> value.member_text(name) is None && value.member_items(name)
            is None && value.member_unsigned(name) is None && value.member_signed(name) is None,
{
}

/// The texts of a list are kept in order, and nothing else is.
pub proof fn law_texts_of_a_list(items: Seq<JsonView>, text: Seq<char>, other: JsonView)
    ensures
        texts_of(seq![]).len() == 0,
        texts_of(items.push(JsonView::Text(text))) == texts_of(items).push(text),
        !(other is Text) ==> texts_of(items.push(other)) == texts_of(items),
{
    assert(items.push(JsonView::Text(text)).drop_last() =~= items);
    assert(items.push(other).drop_last() =~= items);
}

/// The short forms of values.
pub proof fn law_json_texts(n: nat, text: Seq<char>)
    ensures
        json_text(JsonView::Null) == "null"@,
        json_text(JsonView::Bool(true)) == "true"@,
        json_text(JsonView::Bool(false)) == "false"@,
        json_text(JsonView::Number(NumberView::Unsigned(n))) == decimal(n),
        json_text(JsonView::Text(text)) == seq!['"'] + escaped(text) + seq!['"'],
        json_text(JsonView::Array(seq![])) == seq!['[', ']'],
        json_text(JsonView::Object(seq![])) == seq!['{', '}'],
{
    reveal_strlit("[");
    reveal_strlit("]");
    reveal_strlit("{");
    reveal_strlit("}");
    assert(json_text(JsonView::Array(seq![])) =~= seq!['[', ']']);
    assert(json_text(JsonView::Object(seq![])) =~= seq!['{', '}']);
}

/// Quotes, backslashes and line feeds are escaped; printed characters are not.
pub proof fn law_escapes(s: Seq<char>, c: char)
    ensures
        escaped(s.push(c)) == escaped(s) + escaped_char(c),
        escaped_char('"') == seq!['\\', '"'],
        escaped_char('\\') == seq!['\\', '\\'],
        escaped_char('\n') == seq!['\\', 'n'],
        escaped_char('\r') == seq!['\\', 'r'],
        escaped_char('\t') == seq!['\\', 't'],
        ' ' <= c && c != '"' && c != '\\' ==> escaped_char(c) == seq![c],
{
    assert(s.push(c).drop_last() =~= s);
}

/// Items are written in order with commas between them, members with their quoted names
/// and a colon.
pub proof fn law_json_lists(a: JsonView, b: JsonView, name: Seq<char>, other: Seq<char>)
    ensures
        json_text(JsonView::Array(seq![a])) == seq!['['] + json_text(a) + seq![']'],
        json_text(JsonView::Array(seq![a, b])) == seq!['['] + json_text(a) + seq![','] + json_text(b)
            + seq![']'],
        json_text(JsonView::Object(seq![FieldView { name, value: a }])) == seq!['{'] + quoted(name)
            + seq![':'] + json_text(a) + seq!['}'],
        json_text(
            JsonView::Object(
                seq![FieldView { name, value: a }, FieldView { name: other, value: b }],
            ),
        ) == seq!['{'] + quoted(name) + seq![':'] + json_text(a) + seq![','] + quoted(other)
            + seq![':'] + json_text(b) + seq!['}'],
{
    reveal_strlit("[");
    reveal_strlit("]");
    reveal_strlit("{");
    reveal_strlit("}");
    reveal_strlit(",");
    reveal_strlit(":");
    assert("["@ =~= seq!['['] && "]"@ =~= seq![']'] && "{"@ =~= seq!['{'] && "}"@ =~= seq!['}']
        && ","@ =~= seq![','] && ":"@ =~= seq![':']);
    reveal_with_fuel(item_texts, 3);
    reveal_with_fuel(field_texts, 3);
    reveal_with_fuel(join, 3);
    let one = seq![a];
    let two = seq![a, b];
    let none = Seq::<JsonView>::empty();
    assert(one.drop_last() =~= none);
    assert(two.drop_last() =~= one);
    let ta = json_text(a);
    let tb = json_text(b);
    assert(item_texts(one) =~= seq![ta]);
    assert(item_texts(two) =~= seq![ta, tb]);
    assert(seq![ta, tb].drop_last() =~= seq![ta]);
    assert(json_text(JsonView::Array(one)) =~= seq!['['] + ta + seq![']']);
    assert(json_text(JsonView::Array(two)) =~= seq!['['] + ta + seq![','] + tb + seq![']']);
    let f = FieldView { name, value: a };
    let g = FieldView { name: other, value: b };
    let fa = quoted(name) + ":"@ + ta;
    let fb = quoted(other) + ":"@ + tb;
    let fone = seq![f];
    let ftwo = seq![f, g];
    let fnone = Seq::<FieldView>::empty();
    assert(fone.drop_last() =~= fnone);
    assert(ftwo.drop_last() =~= fone);
    assert(field_texts(fone) =~= seq![fa]);
    assert(field_texts(ftwo) =~= seq![fa, fb]);
    assert(seq![fa, fb].drop_last() =~= seq![fa]);
    assert(json_text(JsonView::Object(fone)) =~= seq!['{'] + quoted(name) + seq![':'] + ta
        + seq!['}']);
    assert(json_text(JsonView::Object(ftwo)) =~= seq!['{'] + quoted(name) + seq![':'] + ta
        + seq![','] + quoted(other) + seq![':'] + tb + seq!['}']);
}

} // verus!
