//! Building JSON objects and merging them.

use crate::json::{json_view, lookup, FieldView, Json, JsonField, JsonNumber, JsonView, NumberView};
use crate::order::{
    is_before, lemma_before_irreflexive, lemma_before_total, lemma_before_transitive, text_before,
};
use crate::text::{str_eq, views};
use vstd::prelude::*;

verus! {

impl View for JsonField {
    type V = FieldView;

    open spec fn view(&self) -> FieldView {
        FieldView { name: self.name@, value: self.value@ }
    }
}

pub open spec fn fields_view(fields: Seq<JsonField>) -> Seq<FieldView> {
    fields.map_values(|f: JsonField| f@)
}

pub open spec fn field(name: Seq<char>, value: JsonView) -> FieldView {
    FieldView { name, value }
}

pub open spec fn number(n: nat) -> JsonView {
    JsonView::Number(NumberView::Unsigned(n))
}

/// A list of texts as a JSON array.
pub open spec fn text_array(list: Seq<Seq<char>>) -> JsonView {
    JsonView::Array(list.map_values(|s: Seq<char>| JsonView::Text(s)))
}

pub proof fn lemma_object(fields: Vec<JsonField>)
    ensures
        json_view(Json::Object(fields)) == JsonView::Object(fields_view(fields@)),
{
    assert(json_view(Json::Object(fields))->Object_0 =~= fields_view(fields@));
}

pub fn text_value(s: &str) -> (r: Json)
    ensures
        r@ == JsonView::Text(s@),
{
    Json::Text(s.to_owned())
}

pub fn number_value(n: u64) -> (r: Json)
    ensures
        r@ == number(n as nat),
{
    Json::Number(JsonNumber::Unsigned(n))
}

pub fn bool_value(b: bool) -> (r: Json)
    ensures
        r@ == JsonView::Bool(b),
{
    Json::Bool(b)
}

pub fn null_value() -> (r: Json)
    ensures
        r@ == JsonView::Null,
{
    Json::Null
}

pub fn array_value(list: &Vec<String>) -> (r: Json)
    ensures
        r@ == text_array(views(list@)),
{
    let mut items: Vec<Json> = Vec::new();
    let mut i: usize = 0;
    while i < list.len()
        invariant
            i <= list.len(),
            items.len() == i,
            forall|j: int| 0 <= j < i ==> (#[trigger] items@[j])@ == JsonView::Text(list@[j]@),
        decreases list.len() - i,
    {
        items.push(text_value(list[i].as_str()));
        i = i + 1;
    }
    let r: Json = Json::Array(items);
    assert(r@->Array_0 =~= text_array(views(list@))->Array_0) by {
        assert forall|j: int| 0 <= j < items.len() implies #[trigger] r@->Array_0[j]
            == JsonView::Text(list@[j]@) by {
            assert(items@[j]@ == JsonView::Text(list@[j]@));
        }
    }
    r
}

/// Adds a field at the end.
pub fn push_field(fields: &mut Vec<JsonField>, name: &str, value: Json)
    ensures
        fields_view(final(fields)@) == fields_view(old(fields)@).push(field(name@, value@)),
{
    let f: JsonField = JsonField { name: name.to_owned(), value };
    assert(fields_view(fields@.push(f)) =~= fields_view(fields@).push(field(name@, value@)));
    fields.push(f);
}

pub fn object_value(fields: Vec<JsonField>) -> (r: Json)
    ensures
        r@ == JsonView::Object(fields_view(fields@)),
{
    proof {
        lemma_object(fields);
    }
    Json::Object(fields)
}

/// The fields stand in the order of their names, each name once.
pub open spec fn ordered(fields: Seq<FieldView>) -> bool {
    forall|i: int, j: int|
        0 <= i < j < fields.len() ==> text_before(
            (#[trigger] fields[i]).name,
            (#[trigger] fields[j]).name,
        )
}

/// The fields with one set: in the place of the field of that name, or before
/// the first field whose name comes later.
pub open spec fn with_field(fields: Seq<FieldView>, f: FieldView) -> Seq<FieldView>
    decreases fields.len(),
{
    if fields.len() == 0 {
        seq![f]
    } else if fields[0].name == f.name {
        seq![f] + fields.skip(1)
    } else if text_before(f.name, fields[0].name) {
        seq![f] + fields
    } else {
        seq![fields[0]] + with_field(fields.skip(1), f)
    }
}

/// The fields with each of the others set in turn.
pub open spec fn with_fields(fields: Seq<FieldView>, others: Seq<FieldView>) -> Seq<FieldView>
    decreases others.len(),
{
    if others.len() == 0 {
        fields
    } else {
        with_field(with_fields(fields, others.drop_last()), others.last())
    }
}

/// An object with the members of another set in it; what is no object stays as it
/// is, and so does everything where the overlay is no object.
pub open spec fn merged(target: JsonView, overlay: JsonView) -> JsonView {
    match (target, overlay) {
        (JsonView::Object(fields), JsonView::Object(others)) => JsonView::Object(
            with_fields(fields, others),
        ),
        _ => target,
    }
}

proof fn lemma_with_field_split(fields: Seq<FieldView>, f: FieldView, i: int)
    requires
        0 <= i <= fields.len(),
        forall|j: int|
            0 <= j < i ==> (#[trigger] fields[j]).name != f.name && !text_before(
                f.name,
                fields[j].name,
            ),
    ensures
        with_field(fields, f) == fields.take(i) + with_field(fields.skip(i), f),
    decreases i,
{
    if i == 0 {
        assert(fields.skip(0) =~= fields);
        assert(fields.take(0) + with_field(fields, f) =~= with_field(fields, f));
    } else {
        let rest = fields.skip(1);
        assert forall|j: int| 0 <= j < i - 1 implies (#[trigger] rest[j]).name != f.name
            && !text_before(f.name, rest[j].name) by {
            assert(rest[j] == fields[j + 1]);
        }
        assert(fields[0].name != f.name);
        lemma_with_field_split(rest, f, i - 1);
        assert(rest.skip(i - 1) =~= fields.skip(i));
        assert(seq![fields[0]] + (rest.take(i - 1) + with_field(fields.skip(i), f))
            =~= fields.take(i) + with_field(fields.skip(i), f));
    }
}

/// Sets one field.
pub fn set_field(fields: &mut Vec<JsonField>, name: &str, value: Json)
    ensures
        fields_view(final(fields)@) == with_field(fields_view(old(fields)@), field(name@, value@)),
{
    let ghost before = fields_view(fields@);
    let ghost f = field(name@, value@);
    let mut i: usize = 0;
    while i < fields.len() && !str_eq(fields[i].name.as_str(), name) && !is_before(
        name,
        fields[i].name.as_str(),
    )
        invariant
            i <= fields.len(),
            before == fields_view(fields@),
            f.name == name@,
            forall|j: int|
                0 <= j < i ==> (#[trigger] before[j]).name != f.name && !text_before(
                    f.name,
                    before[j].name,
                ),
        decreases fields.len() - i,
    {
        assert(before[i as int].name == fields@[i as int].name@);
        i = i + 1;
    }
    let new: JsonField = JsonField { name: name.to_owned(), value };
    assert(new@ == f);
    proof {
        lemma_with_field_split(before, f, i as int);
        if i < before.len() {
            assert(before[i as int].name == fields@[i as int].name@);
            assert(before.skip(i as int)[0] == before[i as int]);
        }
    }
    if i < fields.len() && str_eq(fields[i].name.as_str(), name) {
        fields.set(i, new);
        assert(fields_view(fields@) =~= before.take(i as int) + (seq![f] + before.skip(
            i as int,
        ).skip(1)));
    } else {
        fields.insert(i, new);
        assert(fields_view(fields@) =~= before.take(i as int) + (seq![f] + before.skip(i as int)));
        proof {
            if i == before.len() {
                assert(before.skip(i as int) =~= seq![]);
                assert(with_field(before.skip(i as int), f) =~= seq![f] + before.skip(i as int));
            }
        }
    }
}

/// Sets the overlay's members in the target, where both are objects.
pub fn merge_json_object(target: &mut Json, overlay: &Json)
    ensures
        final(target)@ == merged(old(target)@, overlay@),
{
    let others: &Vec<JsonField> = match overlay {
        Json::Object(others) => others,
        _ => {
            return ;
        },
    };
    proof {
        lemma_object(*others);
    }
    match target {
        Json::Object(fields) => {
            let ghost start = fields_view(fields@);
            let ghost all = fields_view(others@);
            proof {
                lemma_object(*fields);
            }
            let mut i: usize = 0;
            assert(all.take(0) =~= seq![]);
            while i < others.len()
                invariant
                    i <= others.len(),
                    all == fields_view(others@),
                    fields_view(fields@) == with_fields(start, all.take(i as int)),
                decreases others.len() - i,
            {
                assert(all.take(i + 1).drop_last() =~= all.take(i as int));
                assert(all[i as int] == others@[i as int]@);
                set_field(fields, others[i].name.as_str(), others[i].value.clone());
                i = i + 1;
            }
            assert(all.take(i as int) =~= all);
            proof {
                lemma_object(*fields);
            }
        },
        _ => {},
    }
}

proof fn lemma_with_field_lookup(fields: Seq<FieldView>, f: FieldView, name: Seq<char>)
    requires
        ordered(fields),
    ensures
        lookup(with_field(fields, f), name) == (if name == f.name {
            Some(f.value)
        } else {
            lookup(fields, name)
        }),
    decreases fields.len(),
{
    reveal_with_fuel(lookup, 2);
    let after = with_field(fields, f);
    if fields.len() == 0 {
        assert(after.skip(1) =~= seq![]);
    } else if fields[0].name == f.name {
        assert(after.skip(1) =~= fields.skip(1));
    } else if text_before(f.name, fields[0].name) {
        assert(after.skip(1) =~= fields);
    } else {
        let rest = fields.skip(1);
        assert(ordered(rest)) by {
            assert forall|i: int, j: int| 0 <= i < j < rest.len() implies text_before(
                (#[trigger] rest[i]).name,
                (#[trigger] rest[j]).name,
            ) by {
                assert(rest[i] == fields[i + 1] && rest[j] == fields[j + 1]);
            }
        }
        lemma_with_field_lookup(rest, f, name);
        assert(after.skip(1) =~= with_field(rest, f));
        assert(after[0] == fields[0]);
    }
}

pub proof fn lemma_with_field_ordered(fields: Seq<FieldView>, f: FieldView)
    requires
        ordered(fields),
    ensures
        ordered(with_field(fields, f)),
        forall|i: int|
            0 <= i < with_field(fields, f).len() ==> (#[trigger] with_field(fields, f)[i]).name
                == f.name || exists|j: int|
                0 <= j < fields.len() && (#[trigger] fields[j]).name == with_field(fields, f)[i].name,
    decreases fields.len(),
{
    let after = with_field(fields, f);
    if fields.len() == 0 {
    } else if fields[0].name == f.name {
        assert forall|i: int| 0 <= i < after.len() implies (#[trigger] after[i]).name == f.name
            || exists|j: int| 0 <= j < fields.len() && (#[trigger] fields[j]).name
            == after[i].name by {
            assert(fields[i].name == after[i].name);
        }
        assert forall|i: int, j: int| 0 <= i < j < after.len() implies text_before(
            (#[trigger] after[i]).name,
            (#[trigger] after[j]).name,
        ) by {
            assert(fields[i].name == after[i].name && fields[j].name == after[j].name);
        }
    } else if text_before(f.name, fields[0].name) {
        assert forall|i: int| 0 <= i < after.len() implies (#[trigger] after[i]).name == f.name
            || exists|j: int| 0 <= j < fields.len() && (#[trigger] fields[j]).name
            == after[i].name by {
            if i > 0 {
                assert(fields[i - 1].name == after[i].name);
            }
        }
        assert forall|i: int, j: int| 0 <= i < j < after.len() implies text_before(
            (#[trigger] after[i]).name,
            (#[trigger] after[j]).name,
        ) by {
            assert(after[j] == fields[j - 1]);
            if i > 0 {
                assert(after[i] == fields[i - 1]);
            } else if j > 1 {
                lemma_before_transitive(f.name, fields[0].name, fields[j - 1].name);
            }
        }
    } else {
        let rest = fields.skip(1);
        let inner = with_field(rest, f);
        assert(ordered(rest)) by {
            assert forall|i: int, j: int| 0 <= i < j < rest.len() implies text_before(
                (#[trigger] rest[i]).name,
                (#[trigger] rest[j]).name,
            ) by {
                assert(rest[i] == fields[i + 1] && rest[j] == fields[j + 1]);
            }
        }
        lemma_with_field_ordered(rest, f);
        lemma_before_total(f.name, fields[0].name);
        assert(text_before(fields[0].name, f.name));
        assert forall|i: int| 0 <= i < after.len() implies (#[trigger] after[i]).name == f.name
            || exists|j: int| 0 <= j < fields.len() && (#[trigger] fields[j]).name
            == after[i].name by {
            if i == 0 {
                assert(fields[0].name == after[0].name);
            } else {
                assert(after[i] == inner[i - 1]);
                if inner[i - 1].name != f.name {
                    let j = choose|j: int|
                        0 <= j < rest.len() && (#[trigger] rest[j]).name == inner[i - 1].name;
                    assert(fields[j + 1].name == after[i].name);
                }
            }
        }
        assert forall|i: int, j: int| 0 <= i < j < after.len() implies text_before(
            (#[trigger] after[i]).name,
            (#[trigger] after[j]).name,
        ) by {
            assert(after[j] == inner[j - 1]);
            if i > 0 {
                assert(after[i] == inner[i - 1]);
            } else if inner[j - 1].name != f.name {
                let k = choose|k: int|
                    0 <= k < rest.len() && (#[trigger] rest[k]).name == inner[j - 1].name;
                assert(fields[k + 1] == rest[k]);
            }
        }
    }
}

/// Setting fields keeps an ordered object ordered.
pub proof fn law_merged_ordered(fields: Seq<FieldView>, others: Seq<FieldView>)
    requires
        ordered(fields),
    ensures
        ordered(with_fields(fields, others)),
    decreases others.len(),
{
    if others.len() > 0 {
        law_merged_ordered(fields, others.drop_last());
        lemma_with_field_ordered(with_fields(fields, others.drop_last()), others.last());
    }
}

/// After a merge each name holds the overlay's value where the overlay has one,
/// and the target's where it has none.
pub proof fn law_merged_lookup(fields: Seq<FieldView>, others: Seq<FieldView>, name: Seq<char>)
    requires
        ordered(fields),
        ordered(others),
    ensures
        lookup(with_fields(fields, others), name) == (match lookup(others, name) {
            Some(value) => Some(value),
            None => lookup(fields, name),
        }),
    decreases others.len(),
{
    if others.len() > 0 {
        let init = others.drop_last();
        law_merged_ordered(fields, init);
        law_merged_lookup(fields, init, name);
        lemma_with_field_lookup(with_fields(fields, init), others.last(), name);
        lemma_lookup_last(others, name);
    }
}

proof fn lemma_lookup_last(fields: Seq<FieldView>, name: Seq<char>)
    requires
        ordered(fields),
        fields.len() > 0,
    ensures
        lookup(fields, name) == (if fields.last().name == name {
            Some(fields.last().value)
        } else {
            lookup(fields.drop_last(), name)
        }),
    decreases fields.len(),
{
    if fields.len() == 1 {
        assert(fields.skip(1) =~= seq![]);
        assert(fields.drop_last() =~= seq![]);
    } else {
        let rest = fields.skip(1);
        assert(rest.drop_last() =~= fields.drop_last().skip(1));
        assert(rest.last() == fields.last());
        assert forall|i: int, j: int| 0 <= i < j < rest.len() implies text_before(
            (#[trigger] rest[i]).name,
            (#[trigger] rest[j]).name,
        ) by {
            assert(rest[i] == fields[i + 1] && rest[j] == fields[j + 1]);
        }
        lemma_lookup_last(rest, name);
        assert(text_before(fields[0].name, fields[fields.len() - 1].name));
        lemma_before_irreflexive(fields.last().name);
    }
}

/// Fields each of which comes before the next are in their order.
pub proof fn lemma_ordered_by_neighbours(fields: Seq<FieldView>)
    requires
        forall|i: int|
            0 <= i < fields.len() - 1 ==> text_before(
                (#[trigger] fields[i]).name,
                fields[i + 1].name,
            ),
    ensures
        ordered(fields),
{
    assert forall|i: int, j: int| 0 <= i < j < fields.len() implies text_before(
        (#[trigger] fields[i]).name,
        (#[trigger] fields[j]).name,
    ) by {
        lemma_before_later(fields, i, j);
    }
}

proof fn lemma_before_later(fields: Seq<FieldView>, i: int, j: int)
    requires
        forall|k: int|
            0 <= k < fields.len() - 1 ==> text_before(
                (#[trigger] fields[k]).name,
                fields[k + 1].name,
            ),
        0 <= i < j < fields.len(),
    ensures
        text_before(fields[i].name, fields[j].name),
    decreases j - i,
{
    assert(text_before(fields[i].name, fields[i + 1].name));
    if i + 1 < j {
        lemma_before_later(fields, i + 1, j);
        lemma_before_transitive(fields[i].name, fields[i + 1].name, fields[j].name);
    }
}

} // verus!
