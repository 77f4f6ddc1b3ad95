//! JSON values as plain data.

use crate::split::lemma_views_push;
use crate::text::{opt_str_view, str_eq, views};
use vstd::prelude::*;

verus! {

/// A JSON number. A number that is not an integer of 64 bits is kept as its text.
#[derive(Debug)]
pub enum JsonNumber {
    Unsigned(u64),
    Negative(i64),
    Fraction(String),
}

#[derive(Debug)]
pub struct JsonField {
    pub name: String,
    pub value: Json,
}

#[derive(Debug)]
pub enum Json {
    Null,
    Bool(bool),
    Number(JsonNumber),
    Text(String),
    Array(Vec<Json>),
    Object(Vec<JsonField>),
}

pub enum NumberView {
    Unsigned(nat),
    Negative(int),
    Fraction(Seq<char>),
}

pub struct FieldView {
    pub name: Seq<char>,
    pub value: JsonView,
}

pub enum JsonView {
    Null,
    Bool(bool),
    Number(NumberView),
    Text(Seq<char>),
    Array(Seq<JsonView>),
    Object(Seq<FieldView>),
}

impl View for JsonNumber {
    type V = NumberView;

    open spec fn view(&self) -> NumberView {
        match self {
            JsonNumber::Unsigned(n) => NumberView::Unsigned(*n as nat),
            JsonNumber::Negative(n) => NumberView::Negative(*n as int),
            JsonNumber::Fraction(text) => NumberView::Fraction(text@),
        }
    }
}

/// The contents of a JSON value.
pub open spec fn json_view(value: Json) -> JsonView
    decreases value,
{
    match value {
        Json::Null => JsonView::Null,
        Json::Bool(b) => JsonView::Bool(b),
        Json::Number(n) => JsonView::Number(n@),
        Json::Text(s) => JsonView::Text(s@),
        Json::Array(items) => JsonView::Array(
            Seq::new(
                items@.len(),
                |i: int|
                    if 0 <= i < items@.len() {
                        json_view(items@[i])
                    } else {
                        JsonView::Null
                    },
            ),
        ),
        Json::Object(fields) => JsonView::Object(
            Seq::new(
                fields@.len(),
                |i: int|
                    if 0 <= i < fields@.len() {
                        FieldView { name: fields@[i].name@, value: json_view(fields@[i].value) }
                    } else {
                        FieldView { name: seq![], value: JsonView::Null }
                    },
            ),
        ),
    }
}

impl View for Json {
    type V = JsonView;

    open spec fn view(&self) -> JsonView {
        json_view(*self)
    }
}

/// The value of the first field of that name.
pub open spec fn lookup(fields: Seq<FieldView>, name: Seq<char>) -> Option<JsonView>
    decreases fields.len(),
{
    if fields.len() == 0 {
        None
    } else if fields[0].name == name {
        Some(fields[0].value)
    } else {
        lookup(fields.skip(1), name)
    }
}

impl JsonView {
    /// The member of that name, where the value is an object that has one.
    pub open spec fn member(self, name: Seq<char>) -> Option<JsonView> {
        match self {
            JsonView::Object(fields) => lookup(fields, name),
            _ => None,
        }
    }

    pub open spec fn text(self) -> Option<Seq<char>> {
        match self {
            JsonView::Text(s) => Some(s),
            _ => None,
        }
    }

    /// The text of the member of that name, where it is a text.
    pub open spec fn member_text(self, name: Seq<char>) -> Option<Seq<char>> {
        match self.member(name) {
            Some(v) => v.text(),
            None => None,
        }
    }

    pub open spec fn unsigned(self) -> Option<nat> {
        match self {
            JsonView::Number(NumberView::Unsigned(n)) => Some(n),
            _ => None,
        }
    }

    /// The number as a signed integer of 64 bits, where it is one.
    pub open spec fn signed(self) -> Option<int> {
        match self {
            JsonView::Number(NumberView::Unsigned(n)) => if n <= i64::MAX {
                Some(n as int)
            } else {
                None
            },
            JsonView::Number(NumberView::Negative(n)) => Some(n),
            _ => None,
        }
    }

    pub open spec fn member_unsigned(self, name: Seq<char>) -> Option<nat> {
        match self.member(name) {
            Some(v) => v.unsigned(),
            None => None,
        }
    }

    pub open spec fn member_signed(self, name: Seq<char>) -> Option<int> {
        match self.member(name) {
            Some(v) => v.signed(),
            None => None,
        }
    }

    pub open spec fn items(self) -> Option<Seq<JsonView>> {
        match self {
            JsonView::Array(items) => Some(items),
            _ => None,
        }
    }

    pub open spec fn member_items(self, name: Seq<char>) -> Option<Seq<JsonView>> {
        match self.member(name) {
            Some(v) => v.items(),
            None => None,
        }
    }
}

/// The texts among the values, in order.
pub open spec fn texts_of(items: Seq<JsonView>) -> Seq<Seq<char>>
    decreases items.len(),
{
    if items.len() == 0 {
        seq![]
    } else {
        match items.last() {
            JsonView::Text(s) => texts_of(items.drop_last()).push(s),
            _ => texts_of(items.drop_last()),
        }
    }
}

impl Clone for JsonNumber {
    fn clone(&self) -> (r: Self)
        ensures
            r == *self,
    {
        match self {
            JsonNumber::Unsigned(n) => JsonNumber::Unsigned(*n),
            JsonNumber::Negative(n) => JsonNumber::Negative(*n),
            JsonNumber::Fraction(text) => JsonNumber::Fraction(text.clone()),
        }
    }
}

impl Clone for Json {
    fn clone(&self) -> (r: Self)
        ensures
            r@ == self@,
        decreases self,
    {
        match self {
            Json::Null => Json::Null,
            Json::Bool(b) => Json::Bool(*b),
            Json::Number(n) => Json::Number(n.clone()),
            Json::Text(s) => Json::Text(s.clone()),
            Json::Array(items) => {
                let mut out: Vec<Json> = Vec::new();
                let mut i: usize = 0;
                while i < items.len()
                    invariant
                        i <= items.len(),
                        out.len() == i,
                        *self == Json::Array(*items),
                        forall|j: int| 0 <= j < i ==> #[trigger] json_view(out@[j]) == json_view(
                            items@[j],
                        ),
                    decreases items.len() - i,
                {
                    let item: &Json = &items[i];
                    proof {
                        assert(decreases_to!(self => self->Array_0));
                        assert(decreases_to!(items => items@));
                        assert(decreases_to!(items@ => items@[i as int]));
                    }
                    out.push(item.clone());
                    i = i + 1;
                }
                let r: Json = Json::Array(out);
                assert(r@ == self@) by {
                    let left = json_view(r)->Array_0;
                    let right = json_view(*self)->Array_0;
                    assert(left.len() == right.len());
                    assert forall|j: int| 0 <= j < left.len() implies left[j] == right[j] by {
                        assert(left[j] == json_view(out@[j]));
                        assert(right[j] == json_view(items@[j]));
                    }
                    assert(left == right);
                }
                r
            },
            Json::Object(fields) => {
                let mut out: Vec<JsonField> = Vec::new();
                let mut i: usize = 0;
                while i < fields.len()
                    invariant
                        i <= fields.len(),
                        out.len() == i,
                        *self == Json::Object(*fields),
                        forall|j: int|
                            0 <= j < i ==> #[trigger] json_view(out@[j].value) == json_view(
                                fields@[j].value,
                            ),
                        forall|j: int|
                            0 <= j < i ==> #[trigger] out@[j].name@ == fields@[j].name@,
                    decreases fields.len() - i,
                {
                    let field: &JsonField = &fields[i];
                    proof {
                        assert(decreases_to!(self => self->Object_0));
                        assert(decreases_to!(fields => fields@));
                        assert(decreases_to!(fields@ => fields@[i as int]));
                        assert(decreases_to!(fields@[i as int] => fields@[i as int].value));
                    }
                    let value: Json = field.value.clone();
                    out.push(JsonField { name: field.name.clone(), value });
                    i = i + 1;
                }
                let r: Json = Json::Object(out);
                assert(r@ == self@) by {
                    let left = json_view(r)->Object_0;
                    let right = json_view(*self)->Object_0;
                    assert(left.len() == right.len());
                    assert forall|j: int| 0 <= j < left.len() implies left[j] == right[j] by {
                        assert(left[j].value == json_view(out@[j].value));
                        assert(right[j].value == json_view(fields@[j].value));
                        assert(left[j].name == out@[j].name@);
                    }
                    assert(left == right);
                }
                r
            },
        }
    }
}

pub proof fn lemma_lookup_first(fields: Seq<FieldView>, name: Seq<char>, i: int)
    requires
        0 <= i < fields.len(),
        fields[i].name == name,
        forall|j: int| 0 <= j < i ==> (#[trigger] fields[j]).name != name,
    ensures
        lookup(fields, name) == Some(fields[i].value),
    decreases i,
{
    if i > 0 {
        assert(fields[0].name != name);
        assert forall|j: int| 0 <= j < i - 1 implies (#[trigger] fields.skip(1)[j]).name != name by {
            assert(fields[j + 1].name != name);
        }
        lemma_lookup_first(fields.skip(1), name, i - 1);
    }
}

pub proof fn lemma_lookup_none(fields: Seq<FieldView>, name: Seq<char>)
    requires
        forall|j: int| 0 <= j < fields.len() ==> (#[trigger] fields[j]).name != name,
    ensures
        lookup(fields, name) is None,
    decreases fields.len(),
{
    if fields.len() > 0 {
        assert(fields[0].name != name);
        assert forall|j: int| 0 <= j < fields.len() - 1 implies (#[trigger] fields.skip(1)[j]).name
            != name by {
            assert(fields[j + 1].name != name);
        }
        lemma_lookup_none(fields.skip(1), name);
    }
}

impl Json {
    /// The member of that name, where the value is an object that has one.
    pub fn get(&self, name: &str) -> (r: Option<&Json>)
        ensures
            match r {
                Some(v) => self@.member(name@) == Some(v@),
                None => self@.member(name@) is None,
            },
    {
        match self {
            Json::Object(fields) => {
                let ghost all = self@->Object_0;
                let mut i: usize = 0;
                while i < fields.len()
                    invariant
                        i <= fields.len(),
                        *self == Json::Object(*fields),
                        all == self@->Object_0,
                        forall|j: int| 0 <= j < i ==> (#[trigger] all[j]).name != name@,
                    decreases fields.len() - i,
                {
                    if str_eq(fields[i].name.as_str(), name) {
                        proof {
                            lemma_lookup_first(all, name@, i as int);
                        }
                        return Some(&fields[i].value);
                    }
                    i = i + 1;
                }
                proof {
                    lemma_lookup_none(all, name@);
                }
                None
            },
            _ => None,
        }
    }

    pub fn as_str(&self) -> (r: Option<&str>)
        ensures
            opt_str_view(r) == self@.text(),
    {
        match self {
            Json::Text(s) => Some(s.as_str()),
            _ => None,
        }
    }

    pub fn as_array(&self) -> (r: Option<&Vec<Json>>)
        ensures
            r is None ==> self@.items() is None,
            r is Some ==> *self == Json::Array(*r->0),
    {
        match self {
            Json::Array(items) => Some(items),
            _ => None,
        }
    }

    pub fn as_u64(&self) -> (r: Option<u64>)
        ensures
            match r {
                Some(n) => self@.unsigned() == Some(n as nat),
                None => self@.unsigned() is None,
            },
    {
        match self {
            Json::Number(JsonNumber::Unsigned(n)) => Some(*n),
            _ => None,
        }
    }

    pub fn as_i64(&self) -> (r: Option<i64>)
        ensures
            match r {
                Some(n) => self@.signed() == Some(n as int),
                None => self@.signed() is None,
            },
    {
        match self {
            Json::Number(JsonNumber::Unsigned(n)) => if *n <= 9223372036854775807u64 {
                Some(*n as i64)
            } else {
                None
            },
            Json::Number(JsonNumber::Negative(n)) => Some(*n),
            _ => None,
        }
    }

    /// The text of the member of that name, where it is a text.
    pub fn get_str(&self, name: &str) -> (r: Option<&str>)
        ensures
            opt_str_view(r) == self@.member_text(name@),
    {
        match self.get(name) {
            Some(v) => v.as_str(),
            None => None,
        }
    }

    pub fn get_u64(&self, name: &str) -> (r: Option<u64>)
        ensures
            match r {
                Some(n) => self@.member_unsigned(name@) == Some(n as nat),
                None => self@.member_unsigned(name@) is None,
            },
    {
        match self.get(name) {
            Some(v) => v.as_u64(),
            None => None,
        }
    }

    pub fn get_i64(&self, name: &str) -> (r: Option<i64>)
        ensures
            match r {
                Some(n) => self@.member_signed(name@) == Some(n as int),
                None => self@.member_signed(name@) is None,
            },
    {
        match self.get(name) {
            Some(v) => v.as_i64(),
            None => None,
        }
    }

    pub fn is_object(&self) -> (r: bool)
        ensures
            r == (self@ is Object),
    {
        match self {
            Json::Object(_) => true,
            _ => false,
        }
    }

    /// The texts in the array that the member of that name holds, where it is one.
    pub fn get_texts(&self, name: &str) -> (r: Option<Vec<String>>)
        ensures
            match r {
                Some(list) => self@.member_items(name@) is Some && views(list@)
                    == texts_of(self@.member_items(name@)->0),
                None => self@.member_items(name@) is None,
            },
    {
        match self.get(name) {
            None => None,
            Some(v) => match v.as_array() {
                None => None,
                Some(items) => {
                    let mut out: Vec<String> = Vec::new();
                    let ghost all = v@->Array_0;
                    let mut i: usize = 0;
                    assert(all.take(0) == Seq::<JsonView>::empty());
                    while i < items.len()
                        invariant
                            i <= items.len(),
                            *v == Json::Array(*items),
                            all == v@->Array_0,
                            views(out@) == texts_of(all.take(i as int)),
                        decreases items.len() - i,
                    {
                        assert(all.take(i + 1).drop_last() == all.take(i as int));
                        assert(all.take(i + 1).last() == items@[i as int]@);
                        match items[i].as_str() {
                            Some(s) => {
                                let owned: String = s.to_owned();
                                proof {
                                    lemma_views_push(out@, owned);
                                }
                                out.push(owned);
                            },
                            None => {},
                        }
                        i = i + 1;
                    }
                    assert(all.take(i as int) == all);
                    Some(out)
                },
            },
        }
    }
}

} // verus!
