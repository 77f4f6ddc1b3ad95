//! What the JSON form of a route decision holds.

use crate::decision::{
    absent_keys, decoded, decoded_bool, decoded_confidence, decoded_family, decoded_risk,
    decoded_text, encoded, required_keys, IntentFamily, RouteDecisionView, RouteRisk,
    SchemaErrorView,
};
use crate::json::{JsonView, NumberView};
use crate::literal::{is_number_literal, is_plain_number};
use crate::number::decimal;
use vstd::prelude::*;

verus! {

/// Each family is written under its own name.
pub proof fn law_family_names()
    ensures
        IntentFamily::Chat.name() == "chat"@,
        IntentFamily::FilesystemRead.name() == "filesystem_read"@,
        IntentFamily::TableRead.name() == "table_read"@,
        IntentFamily::WebLookup.name() == "web_lookup"@,
        IntentFamily::CodeExec.name() == "code_exec"@,
        IntentFamily::TextTransform.name() == "text_transform"@,
        IntentFamily::MultiStep.name() == "multi_step"@,
        IntentFamily::Unknown.name() == "unknown"@,
        RouteRisk::Low.name() == "low"@,
        RouteRisk::Medium.name() == "medium"@,
        RouteRisk::High.name() == "high"@,
{
}

proof fn lemma_absent(value: JsonView, keys: Seq<Seq<char>>)
    ensures
        forall|i: int|
            0 <= i < keys.len() ==> (value.member(#[trigger] keys[i]) is None <==> absent_keys(
                value,
                keys,
            ).contains(keys[i])),
        forall|i: int|
            0 <= i < absent_keys(value, keys).len() ==> value.member(
                #[trigger] absent_keys(value, keys)[i],
            ) is None,
    decreases keys.len(),
{
    if keys.len() > 0 {
        let front = keys.drop_last();
        lemma_absent(value, front);
        let before = absent_keys(value, front);
        let after = absent_keys(value, keys);
        assert forall|i: int| 0 <= i < keys.len() implies (value.member(#[trigger] keys[i]) is None
            <==> after.contains(keys[i])) by {
            if i < front.len() {
                assert(front[i] == keys[i]);
            }
            if value.member(keys[i]) is None {
                if i < front.len() {
                    let k = choose|k: int| 0 <= k < before.len() && before[k] == keys[i];
                    assert(after[k] == keys[i]);
                } else {
                    assert(after[after.len() - 1] == keys[i]);
                }
            } else if after.contains(keys[i]) {
                let k = choose|k: int| 0 <= k < after.len() && after[k] == keys[i];
                if k < before.len() {
                    assert(value.member(before[k]) is None);
                }
            }
        }
        assert forall|i: int| 0 <= i < after.len() implies value.member(#[trigger] after[i])
            is None by {
            if i < before.len() {
                assert(after[i] == before[i]);
            }
        }
    }
}

/// A list of texts as JSON.
pub open spec fn lists(value: Option<JsonView>, texts: Seq<Seq<char>>) -> bool {
    value matches Some(JsonView::Array(items)) && items.len() == texts.len() && forall|i: int|
        0 <= i < texts.len() ==> #[trigger] items[i] == JsonView::Text(texts[i])
}

/// What is read is what stands under each of the eight names.
pub proof fn law_decoded_members(value: JsonView, d: RouteDecisionView)
    requires
        decoded(value) == Ok::<RouteDecisionView, SchemaErrorView>(d),
    ensures
        value is Object,
        value.member("intent_family"@) == Some(JsonView::Text(d.intent_family.name())),
        value.member("risk"@) == Some(JsonView::Text(d.risk.name())),
        value.member("requires_multi_step"@) == Some(JsonView::Bool(d.requires_multi_step)),
        value.member("reason"@) == Some(JsonView::Text(d.reason)),
        lists(value.member("candidate_tools"@), d.candidate_tools),
        lists(value.member("candidate_plugins"@), d.candidate_plugins),
        lists(value.member("missing_arguments"@), d.missing_arguments),
        value.member("confidence"@) matches Some(c) && (match c {
            JsonView::Text(text) => text == d.confidence && is_number_literal(text),
            JsonView::Number(NumberView::Unsigned(n)) => d.confidence == decimal(n),
            JsonView::Number(NumberView::Fraction(text)) => d.confidence == text,
            JsonView::Number(NumberView::Negative(n)) => true,
            _ => false,
        }),
{
    lemma_absent(value, required_keys());
    let keys = required_keys();
    assert(keys[0] == "intent_family"@ && keys[1] == "confidence"@ && keys[2]
        == "requires_multi_step"@ && keys[3] == "risk"@ && keys[4] == "candidate_tools"@ && keys[5]
        == "candidate_plugins"@ && keys[6] == "missing_arguments"@ && keys[7] == "reason"@);
}

/// What cannot be read is refused, with the reason: no object, the names that are
/// missing, or the first member that is of the wrong kind.
pub proof fn law_refused_decisions(value: JsonView)
    ensures
        !(value is Object) ==> decoded(value) == Err::<RouteDecisionView, _>(
            SchemaErrorView::RootNotObject,
        ),
        value is Object && (value.member("intent_family"@) is None || value.member("confidence"@)
            is None || value.member("requires_multi_step"@) is None || value.member("risk"@) is None
            || value.member("candidate_tools"@) is None || value.member("candidate_plugins"@)
            is None || value.member("missing_arguments"@) is None || value.member("reason"@)
            is None) ==> (decoded(value) matches Err(SchemaErrorView::MissingRequiredKeys { keys })
            && (forall|i: int| 0 <= i < keys.len() ==> value.member(#[trigger] keys[i]) is None) && (
        value.member("reason"@) is None ==> keys.contains("reason"@)) && (value.member("risk"@)
            is None ==> keys.contains("risk"@))),
        decoded_bool(value, "requires_multi_step"@) is Ok <==> value is Bool,
        decoded_text(value, "reason"@) is Ok <==> value is Text,
        decoded_risk(value) is Ok <==> value == JsonView::Text("low"@) || value == JsonView::Text(
            "medium"@,
        ) || value == JsonView::Text("high"@),
        decoded_confidence(value) is Ok <==> value is Number || (value matches JsonView::Text(text)
            && is_number_literal(text)),
{
    lemma_absent(value, required_keys());
    let keys = required_keys();
    assert(keys[0] == "intent_family"@ && keys[1] == "confidence"@ && keys[2]
        == "requires_multi_step"@ && keys[3] == "risk"@ && keys[4] == "candidate_tools"@ && keys[5]
        == "candidate_plugins"@ && keys[6] == "missing_arguments"@ && keys[7] == "reason"@);
    let absent = absent_keys(value, keys);
    if value is Object && absent.len() == 0 {
        assert(!absent.contains(keys[0]) && !absent.contains(keys[1]) && !absent.contains(keys[2])
            && !absent.contains(keys[3]) && !absent.contains(keys[4]) && !absent.contains(keys[5])
            && !absent.contains(keys[6]) && !absent.contains(keys[7]));
    }
}

/// An unknown name is refused under the member's own name, with what stands there.
pub proof fn law_unknown_names(name: Seq<char>)
    ensures
        name != "low"@ && name != "medium"@ && name != "high"@ ==> decoded_risk(
            JsonView::Text(name),
        ) == Err::<RouteRisk, _>(
            SchemaErrorView::UnknownEnumValue { field: "risk"@, value: name },
        ),
        decoded_family(JsonView::Text(name)) is Err ==> decoded_family(JsonView::Text(name))
            == Err::<IntentFamily, _>(
            SchemaErrorView::UnknownEnumValue { field: "intent_family"@, value: name },
        ),
        decoded_family(JsonView::Text(name)) matches Ok(family) ==> name == family.name(),
{
}

/// A decision is written with all its members.
pub proof fn law_encoded_members(d: RouteDecisionView)
    ensures
        encoded(d).member("intent_family"@) == Some(JsonView::Text(d.intent_family.name())),
        encoded(d).member("risk"@) == Some(JsonView::Text(d.risk.name())),
        encoded(d).member("reason"@) == Some(JsonView::Text(d.reason)),
        encoded(d).member("requires_multi_step"@) == Some(JsonView::Bool(d.requires_multi_step)),
        lists(encoded(d).member("candidate_tools"@), d.candidate_tools),
        lists(encoded(d).member("candidate_plugins"@), d.candidate_plugins),
        lists(encoded(d).member("missing_arguments"@), d.missing_arguments),
{
    crate::decision::law_decoded_encoded(d);
    law_decoded_members(encoded(d), d);
}

/// Digits are a number, with a point or without.
pub proof fn law_number_literals(digits: Seq<char>, more: Seq<char>)
    requires
        digits.len() > 0,
        more.len() > 0,
        forall|i: int| 0 <= i < digits.len() ==> '0' <= #[trigger] digits[i] <= '9',
        forall|i: int| 0 <= i < more.len() ==> '0' <= #[trigger] more[i] <= '9',
    ensures
        is_plain_number(digits),
        is_plain_number(digits + seq!['.'] + more),
        !is_plain_number(seq![]),
        !is_plain_number(seq!['.']),
        !is_plain_number(digits + seq!['x']),
{
    lemma_digits_end(digits, seq![], 0);
    assert(digits + Seq::<char>::empty() =~= digits);
    let pointed = digits + seq!['.'] + more;
    assert(pointed =~= digits + (seq!['.'] + more));
    lemma_digits_end(digits, seq!['.'] + more, 0);
    lemma_digits_tail(digits + seq!['.'], more, digits.len() as int + 1);
    lemma_digits_end(digits, seq!['x'], 0);
    reveal_with_fuel(crate::literal::digits_end, 2);
}

proof fn lemma_digits_end(digits: Seq<char>, rest: Seq<char>, from: int)
    requires
        0 <= from <= digits.len(),
        forall|i: int| 0 <= i < digits.len() ==> '0' <= #[trigger] digits[i] <= '9',
        rest.len() > 0 ==> !('0' <= rest[0] <= '9'),
    ensures
        crate::literal::digits_end(digits + rest, from) == digits.len(),
    decreases digits.len() - from,
{
    if from < digits.len() {
        assert((digits + rest)[from] == digits[from]);
        lemma_digits_end(digits, rest, from + 1);
    } else if rest.len() > 0 {
        assert((digits + rest)[from] == rest[0]);
    }
}

proof fn lemma_digits_tail(front: Seq<char>, digits: Seq<char>, from: int)
    requires
        front.len() <= from <= front.len() + digits.len(),
        forall|i: int| 0 <= i < digits.len() ==> '0' <= #[trigger] digits[i] <= '9',
    ensures
        crate::literal::digits_end(front + digits, from) == front.len() + digits.len(),
    decreases front.len() + digits.len() - from,
{
    if from < front.len() + digits.len() {
        assert((front + digits)[from] == digits[from - front.len()]);
        lemma_digits_tail(front, digits, from + 1);
    }
}

} // verus!
