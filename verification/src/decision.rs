//! Route decisions and their JSON form.

use crate::json::{lemma_lookup_first, FieldView, Json, JsonNumber, JsonView, NumberView};
use crate::literal::{is_number_literal, number_literal};
use crate::number::{decimal, decimal_signed, decimal_signed_text, decimal_text};
use crate::split::{clone_list, lemma_views_push};
use crate::text::{str_eq, views};
use vstd::prelude::*;

verus! {

/// Coarse intent hint that a route decision carries.
#[derive(Debug, Clone, Copy, PartialEq, Eq, Structural)]
pub enum IntentFamily {
    Chat,
    FilesystemRead,
    TableRead,
    WebLookup,
    CodeExec,
    TextTransform,
    MultiStep,
    Unknown,
}

/// Coarse risk hint that a route decision carries.
#[derive(Debug, Clone, Copy, PartialEq, Eq, Structural)]
pub enum RouteRisk {
    Low,
    Medium,
    High,
}

impl IntentFamily {
    /// The name of the family in JSON.
    pub open spec fn name(self) -> Seq<char> {
        match self {
            IntentFamily::Chat => "chat"@,
            IntentFamily::FilesystemRead => "filesystem_read"@,
            IntentFamily::TableRead => "table_read"@,
            IntentFamily::WebLookup => "web_lookup"@,
            IntentFamily::CodeExec => "code_exec"@,
            IntentFamily::TextTransform => "text_transform"@,
            IntentFamily::MultiStep => "multi_step"@,
            IntentFamily::Unknown => "unknown"@,
        }
    }

    pub fn as_str(self) -> (r: &'static str)
        ensures
            r@ == self.name(),
    {
        match self {
            IntentFamily::Chat => "chat",
            IntentFamily::FilesystemRead => "filesystem_read",
            IntentFamily::TableRead => "table_read",
            IntentFamily::WebLookup => "web_lookup",
            IntentFamily::CodeExec => "code_exec",
            IntentFamily::TextTransform => "text_transform",
            IntentFamily::MultiStep => "multi_step",
            IntentFamily::Unknown => "unknown",
        }
    }
}

impl RouteRisk {
    /// The name of the risk in JSON.
    pub open spec fn name(self) -> Seq<char> {
        match self {
            RouteRisk::Low => "low"@,
            RouteRisk::Medium => "medium"@,
            RouteRisk::High => "high"@,
        }
    }
}

/// The classifier's hint on one request.
#[derive(Debug)]
pub struct RouteDecision {
    pub intent_family: IntentFamily,
    /// The confidence as a number literal.
    pub confidence: String,
    pub requires_multi_step: bool,
    pub risk: RouteRisk,
    pub candidate_tools: Vec<String>,
    pub candidate_plugins: Vec<String>,
    pub missing_arguments: Vec<String>,
    pub reason: String,
}

#[verifier::ext_equal]
pub struct RouteDecisionView {
    pub intent_family: IntentFamily,
    pub confidence: Seq<char>,
    pub requires_multi_step: bool,
    pub risk: RouteRisk,
    pub candidate_tools: Seq<Seq<char>>,
    pub candidate_plugins: Seq<Seq<char>>,
    pub missing_arguments: Seq<Seq<char>>,
    pub reason: Seq<char>,
}

impl View for RouteDecision {
    type V = RouteDecisionView;

    open spec fn view(&self) -> RouteDecisionView {
        RouteDecisionView {
            intent_family: self.intent_family,
            confidence: self.confidence@,
            requires_multi_step: self.requires_multi_step,
            risk: self.risk,
            candidate_tools: views(self.candidate_tools@),
            candidate_plugins: views(self.candidate_plugins@),
            missing_arguments: views(self.missing_arguments@),
            reason: self.reason@,
        }
    }
}

impl Clone for RouteDecision {
    fn clone(&self) -> (r: Self)
        ensures
            r@ == self@,
    {
        RouteDecision {
            intent_family: self.intent_family,
            confidence: self.confidence.clone(),
            requires_multi_step: self.requires_multi_step,
            risk: self.risk,
            candidate_tools: clone_list(&self.candidate_tools),
            candidate_plugins: clone_list(&self.candidate_plugins),
            missing_arguments: clone_list(&self.missing_arguments),
            reason: self.reason.clone(),
        }
    }
}

/// Why a JSON value is no route decision.
#[derive(Debug, PartialEq, Eq)]
pub enum RouteDecisionSchemaError {
    RootNotObject,
    MissingRequiredKeys { keys: Vec<String> },
    InvalidType { field: &'static str, expected: &'static str },
    UnknownEnumValue { field: &'static str, value: String },
}

pub enum SchemaErrorView {
    RootNotObject,
    MissingRequiredKeys { keys: Seq<Seq<char>> },
    InvalidType { field: Seq<char>, expected: Seq<char> },
    UnknownEnumValue { field: Seq<char>, value: Seq<char> },
}

impl View for RouteDecisionSchemaError {
    type V = SchemaErrorView;

    open spec fn view(&self) -> SchemaErrorView {
        match self {
            RouteDecisionSchemaError::RootNotObject => SchemaErrorView::RootNotObject,
            RouteDecisionSchemaError::MissingRequiredKeys { keys } =>
                SchemaErrorView::MissingRequiredKeys { keys: views(keys@) },
            RouteDecisionSchemaError::InvalidType { field, expected } =>
                SchemaErrorView::InvalidType { field: field@, expected: expected@ },
            RouteDecisionSchemaError::UnknownEnumValue { field, value } =>
                SchemaErrorView::UnknownEnumValue { field: field@, value: value@ },
        }
    }
}

pub open spec fn invalid_type(field: Seq<char>, expected: Seq<char>) -> SchemaErrorView {
    SchemaErrorView::InvalidType { field, expected }
}

/// The keys that a route decision must have, in order.
pub open spec fn required_keys() -> Seq<Seq<char>> {
    seq![
        "intent_family"@,
        "confidence"@,
        "requires_multi_step"@,
        "risk"@,
        "candidate_tools"@,
        "candidate_plugins"@,
        "missing_arguments"@,
        "reason"@,
    ]
}

/// The keys of the list that the value has no member for, in order.
pub open spec fn absent_keys(value: JsonView, keys: Seq<Seq<char>>) -> Seq<Seq<char>>
    decreases keys.len(),
{
    if keys.len() == 0 {
        seq![]
    } else if value.member(keys.last()) is Some {
        absent_keys(value, keys.drop_last())
    } else {
        absent_keys(value, keys.drop_last()).push(keys.last())
    }
}

pub open spec fn decoded_text(value: JsonView, field: Seq<char>) -> Result<
    Seq<char>,
    SchemaErrorView,
> {
    match value.text() {
        Some(s) => Ok(s),
        None => Err(invalid_type(field, "string"@)),
    }
}

pub open spec fn decoded_family(value: JsonView) -> Result<IntentFamily, SchemaErrorView> {
    match decoded_text(value, "intent_family"@) {
        Err(e) => Err(e),
        Ok(raw) => if raw == "chat"@ {
            Ok(IntentFamily::Chat)
        } else if raw == "filesystem_read"@ {
            Ok(IntentFamily::FilesystemRead)
        } else if raw == "table_read"@ {
            Ok(IntentFamily::TableRead)
        } else if raw == "web_lookup"@ {
            Ok(IntentFamily::WebLookup)
        } else if raw == "code_exec"@ {
            Ok(IntentFamily::CodeExec)
        } else if raw == "text_transform"@ {
            Ok(IntentFamily::TextTransform)
        } else if raw == "multi_step"@ {
            Ok(IntentFamily::MultiStep)
        } else if raw == "unknown"@ {
            Ok(IntentFamily::Unknown)
        } else {
            Err(SchemaErrorView::UnknownEnumValue { field: "intent_family"@, value: raw })
        },
    }
}

pub open spec fn decoded_risk(value: JsonView) -> Result<RouteRisk, SchemaErrorView> {
    match decoded_text(value, "risk"@) {
        Err(e) => Err(e),
        Ok(raw) => if raw == "low"@ {
            Ok(RouteRisk::Low)
        } else if raw == "medium"@ {
            Ok(RouteRisk::Medium)
        } else if raw == "high"@ {
            Ok(RouteRisk::High)
        } else {
            Err(SchemaErrorView::UnknownEnumValue { field: "risk"@, value: raw })
        },
    }
}

/// The literal of a JSON number.
pub open spec fn number_text(n: NumberView) -> Seq<char> {
    match n {
        NumberView::Unsigned(n) => decimal(n),
        NumberView::Negative(n) => decimal_signed(n),
        NumberView::Fraction(text) => text,
    }
}

pub open spec fn decoded_confidence(value: JsonView) -> Result<Seq<char>, SchemaErrorView> {
    match value {
        JsonView::Text(raw) => if is_number_literal(raw) {
            Ok(raw)
        } else {
            Err(invalid_type("confidence"@, "parseable number"@))
        },
        JsonView::Number(n) => Ok(number_text(n)),
        _ => Err(invalid_type("confidence"@, "string or number"@)),
    }
}

pub open spec fn decoded_bool(value: JsonView, field: Seq<char>) -> Result<bool, SchemaErrorView> {
    match value {
        JsonView::Bool(b) => Ok(b),
        _ => Err(invalid_type(field, "boolean"@)),
    }
}

pub open spec fn all_texts(items: Seq<JsonView>) -> bool {
    forall|i: int| 0 <= i < items.len() ==> (#[trigger] items[i]) is Text
}

pub open spec fn decoded_list(value: JsonView, field: Seq<char>) -> Result<
    Seq<Seq<char>>,
    SchemaErrorView,
> {
    match value {
        JsonView::Array(items) => if all_texts(items) {
            Ok(items.map_values(|v: JsonView| v->Text_0))
        } else {
            Err(invalid_type(field, "string"@))
        },
        _ => Err(invalid_type(field, "array<string>"@)),
    }
}

/// The decision that a JSON value holds. The root comes first, then missing keys,
/// then each field in order.
pub open spec fn decoded(value: JsonView) -> Result<RouteDecisionView, SchemaErrorView> {
    let absent = absent_keys(value, required_keys());
    let of = |key: Seq<char>| value.member(key)->0;
    if !(value is Object) {
        Err(SchemaErrorView::RootNotObject)
    } else if absent.len() > 0 {
        Err(SchemaErrorView::MissingRequiredKeys { keys: absent })
    } else {
        match decoded_family(of("intent_family"@)) {
            Err(e) => Err(e),
            Ok(intent_family) => match decoded_confidence(of("confidence"@)) {
                Err(e) => Err(e),
                Ok(confidence) => match decoded_bool(
                    of("requires_multi_step"@),
                    "requires_multi_step"@,
                ) {
                    Err(e) => Err(e),
                    Ok(requires_multi_step) => match decoded_risk(of("risk"@)) {
                        Err(e) => Err(e),
                        Ok(risk) => match decoded_list(
                            of("candidate_tools"@),
                            "candidate_tools"@,
                        ) {
                            Err(e) => Err(e),
                            Ok(candidate_tools) => match decoded_list(
                                of("candidate_plugins"@),
                                "candidate_plugins"@,
                            ) {
                                Err(e) => Err(e),
                                Ok(candidate_plugins) => match decoded_list(
                                    of("missing_arguments"@),
                                    "missing_arguments"@,
                                ) {
                                    Err(e) => Err(e),
                                    Ok(missing_arguments) => match decoded_text(
                                        of("reason"@),
                                        "reason"@,
                                    ) {
                                        Err(e) => Err(e),
                                        Ok(reason) => Ok(
                                            RouteDecisionView {
                                                intent_family,
                                                confidence,
                                                requires_multi_step,
                                                risk,
                                                candidate_tools,
                                                candidate_plugins,
                                                missing_arguments,
                                                reason,
                                            },
                                        ),
                                    },
                                },
                            },
                        },
                    },
                },
            },
        }
    }
}

pub fn parse_string(value: &Json, field: &'static str) -> (r: Result<
    String,
    RouteDecisionSchemaError,
>)
    ensures
        match r {
            Ok(s) => decoded_text(value@, field@) == Ok::<Seq<char>, SchemaErrorView>(s@),
            Err(e) => decoded_text(value@, field@) == Err::<Seq<char>, SchemaErrorView>(e@),
        },
{
    match value.as_str() {
        Some(s) => Ok(s.to_owned()),
        None => Err(RouteDecisionSchemaError::InvalidType { field, expected: "string" }),
    }
}

pub fn parse_intent_family(value: &Json) -> (r: Result<IntentFamily, RouteDecisionSchemaError>)
    ensures
        match r {
            Ok(f) => decoded_family(value@) == Ok::<IntentFamily, SchemaErrorView>(f),
            Err(e) => decoded_family(value@) == Err::<IntentFamily, SchemaErrorView>(e@),
        },
{
    match parse_string(value, "intent_family") {
        Err(e) => Err(e),
        Ok(raw) => {
            let name: &str = raw.as_str();
            if str_eq(name, "chat") {
                Ok(IntentFamily::Chat)
            } else if str_eq(name, "filesystem_read") {
                Ok(IntentFamily::FilesystemRead)
            } else if str_eq(name, "table_read") {
                Ok(IntentFamily::TableRead)
            } else if str_eq(name, "web_lookup") {
                Ok(IntentFamily::WebLookup)
            } else if str_eq(name, "code_exec") {
                Ok(IntentFamily::CodeExec)
            } else if str_eq(name, "text_transform") {
                Ok(IntentFamily::TextTransform)
            } else if str_eq(name, "multi_step") {
                Ok(IntentFamily::MultiStep)
            } else if str_eq(name, "unknown") {
                Ok(IntentFamily::Unknown)
            } else {
                Err(
                    RouteDecisionSchemaError::UnknownEnumValue {
                        field: "intent_family",
                        value: raw,
                    },
                )
            }
        },
    }
}

pub fn parse_route_risk(value: &Json) -> (r: Result<RouteRisk, RouteDecisionSchemaError>)
    ensures
        match r {
            Ok(f) => decoded_risk(value@) == Ok::<RouteRisk, SchemaErrorView>(f),
            Err(e) => decoded_risk(value@) == Err::<RouteRisk, SchemaErrorView>(e@),
        },
{
    match parse_string(value, "risk") {
        Err(e) => Err(e),
        Ok(raw) => {
            let name: &str = raw.as_str();
            if str_eq(name, "low") {
                Ok(RouteRisk::Low)
            } else if str_eq(name, "medium") {
                Ok(RouteRisk::Medium)
            } else if str_eq(name, "high") {
                Ok(RouteRisk::High)
            } else {
                Err(RouteDecisionSchemaError::UnknownEnumValue { field: "risk", value: raw })
            }
        },
    }
}

pub fn parse_confidence(value: &Json) -> (r: Result<String, RouteDecisionSchemaError>)
    ensures
        match r {
            Ok(s) => decoded_confidence(value@) == Ok::<Seq<char>, SchemaErrorView>(s@),
            Err(e) => decoded_confidence(value@) == Err::<Seq<char>, SchemaErrorView>(e@),
        },
{
    match value {
        Json::Text(raw) => if number_literal(raw.as_str()) {
            Ok(raw.clone())
        } else {
            Err(
                RouteDecisionSchemaError::InvalidType {
                    field: "confidence",
                    expected: "parseable number",
                },
            )
        },
        Json::Number(n) => match n {
            JsonNumber::Unsigned(n) => Ok(decimal_text(*n)),
            JsonNumber::Negative(n) => Ok(decimal_signed_text(*n)),
            JsonNumber::Fraction(text) => Ok(text.clone()),
        },
        _ => Err(
            RouteDecisionSchemaError::InvalidType {
                field: "confidence",
                expected: "string or number",
            },
        ),
    }
}

pub fn parse_bool(value: &Json, field: &'static str) -> (r: Result<bool, RouteDecisionSchemaError>)
    ensures
        match r {
            Ok(b) => decoded_bool(value@, field@) == Ok::<bool, SchemaErrorView>(b),
            Err(e) => decoded_bool(value@, field@) == Err::<bool, SchemaErrorView>(e@),
        },
{
    match value {
        Json::Bool(b) => Ok(*b),
        _ => Err(RouteDecisionSchemaError::InvalidType { field, expected: "boolean" }),
    }
}

pub fn parse_string_vec(value: &Json, field: &'static str) -> (r: Result<
    Vec<String>,
    RouteDecisionSchemaError,
>)
    ensures
        match r {
            Ok(list) => decoded_list(value@, field@) == Ok::<Seq<Seq<char>>, SchemaErrorView>(
                views(list@),
            ),
            Err(e) => decoded_list(value@, field@) == Err::<Seq<Seq<char>>, SchemaErrorView>(e@),
        },
{
    match value {
        Json::Array(items) => {
            let ghost all = value@->Array_0;
            let mut out: Vec<String> = Vec::new();
            let mut i: usize = 0;
            while i < items.len()
                invariant
                    i <= items.len(),
                    *value == Json::Array(*items),
                    all == value@->Array_0,
                    all.len() == items.len(),
                    out.len() == i,
                    forall|j: int|
                        0 <= j < i ==> (#[trigger] all[j]) is Text && views(out@)[j]
                            == all[j]->Text_0,
                decreases items.len() - i,
            {
                assert(all[i as int] == items@[i as int]@);
                match parse_string(&items[i], field) {
                    Ok(s) => {
                        proof {
                            lemma_views_push(out@, s);
                        }
                        out.push(s);
                    },
                    Err(e) => {
                        return Err(e);
                    },
                }
                i = i + 1;
            }
            assert(views(out@) =~= all.map_values(|v: JsonView| v->Text_0));
            Ok(out)
        },
        _ => Err(RouteDecisionSchemaError::InvalidType { field, expected: "array<string>" }),
    }
}

/// Appends the key where the value has no member for it.
fn note_absent(value: &Json, absent: &mut Vec<String>, key: &str, keys: Ghost<Seq<Seq<char>>>)
    requires
        views(old(absent)@) == absent_keys(value@, keys@),
    ensures
        views(final(absent)@) == absent_keys(value@, keys@.push(key@)),
{
    proof {
        assert(keys@.push(key@).drop_last() =~= keys@);
    }
    match value.get(key) {
        Some(_) => {},
        None => {
            let owned: String = key.to_owned();
            proof {
                lemma_views_push(absent@, owned);
            }
            absent.push(owned);
        },
    }
}

impl RouteDecision {
    pub fn new(
        intent_family: IntentFamily,
        confidence: &str,
        requires_multi_step: bool,
        risk: RouteRisk,
        candidate_tools: Vec<String>,
        candidate_plugins: Vec<String>,
        missing_arguments: Vec<String>,
        reason: &str,
    ) -> (r: Self)
        ensures
            r@ == (RouteDecisionView {
                intent_family,
                confidence: confidence@,
                requires_multi_step,
                risk,
                candidate_tools: views(candidate_tools@),
                candidate_plugins: views(candidate_plugins@),
                missing_arguments: views(missing_arguments@),
                reason: reason@,
            }),
    {
        RouteDecision {
            intent_family,
            confidence: confidence.to_owned(),
            requires_multi_step,
            risk,
            candidate_tools,
            candidate_plugins,
            missing_arguments,
            reason: reason.to_owned(),
        }
    }

    /// The confidence as a number literal.
    pub fn confidence_score(&self) -> (r: &str)
        ensures
            r@ == self@.confidence,
    {
        self.confidence.as_str()
    }

    /// The decision that a JSON value holds.
    pub fn from_json_value(value: &Json) -> (r: Result<RouteDecision, RouteDecisionSchemaError>)
        ensures
            match r {
                Ok(d) => decoded(value@) == Ok::<RouteDecisionView, SchemaErrorView>(d@),
                Err(e) => decoded(value@) == Err::<RouteDecisionView, SchemaErrorView>(e@),
            },
    {
        if !value.is_object() {
            return Err(RouteDecisionSchemaError::RootNotObject);
        }
        let mut absent: Vec<String> = Vec::new();
        let ghost k0: Seq<Seq<char>> = seq![];
        let ghost k1 = k0.push("intent_family"@);
        let ghost k2 = k1.push("confidence"@);
        let ghost k3 = k2.push("requires_multi_step"@);
        let ghost k4 = k3.push("risk"@);
        let ghost k5 = k4.push("candidate_tools"@);
        let ghost k6 = k5.push("candidate_plugins"@);
        let ghost k7 = k6.push("missing_arguments"@);
        let ghost k8 = k7.push("reason"@);
        assert(views(absent@) =~= absent_keys(value@, k0));
        note_absent(value, &mut absent, "intent_family", Ghost(k0));
        note_absent(value, &mut absent, "confidence", Ghost(k1));
        note_absent(value, &mut absent, "requires_multi_step", Ghost(k2));
        note_absent(value, &mut absent, "risk", Ghost(k3));
        note_absent(value, &mut absent, "candidate_tools", Ghost(k4));
        note_absent(value, &mut absent, "candidate_plugins", Ghost(k5));
        note_absent(value, &mut absent, "missing_arguments", Ghost(k6));
        note_absent(value, &mut absent, "reason", Ghost(k7));
        assert(k8 =~= required_keys());
        assert(views(absent@).len() == absent@.len());
        if absent.len() > 0 {
            return Err(RouteDecisionSchemaError::MissingRequiredKeys { keys: absent });
        }
        proof {
            lemma_none_absent(value@, k8);
            assert(k8[0] == "intent_family"@);
            assert(k8[1] == "confidence"@);
            assert(k8[2] == "requires_multi_step"@);
            assert(k8[3] == "risk"@);
            assert(k8[4] == "candidate_tools"@);
            assert(k8[5] == "candidate_plugins"@);
            assert(k8[6] == "missing_arguments"@);
            assert(k8[7] == "reason"@);
        }
        let intent_family: IntentFamily = match parse_intent_family(
            value.get("intent_family").unwrap(),
        ) {
            Ok(v) => v,
            Err(e) => {
                return Err(e);
            },
        };
        let confidence: String = match parse_confidence(value.get("confidence").unwrap()) {
            Ok(v) => v,
            Err(e) => {
                return Err(e);
            },
        };
        let requires_multi_step: bool = match parse_bool(
            value.get("requires_multi_step").unwrap(),
            "requires_multi_step",
        ) {
            Ok(v) => v,
            Err(e) => {
                return Err(e);
            },
        };
        let risk: RouteRisk = match parse_route_risk(value.get("risk").unwrap()) {
            Ok(v) => v,
            Err(e) => {
                return Err(e);
            },
        };
        let candidate_tools: Vec<String> = match parse_string_vec(
            value.get("candidate_tools").unwrap(),
            "candidate_tools",
        ) {
            Ok(v) => v,
            Err(e) => {
                return Err(e);
            },
        };
        let candidate_plugins: Vec<String> = match parse_string_vec(
            value.get("candidate_plugins").unwrap(),
            "candidate_plugins",
        ) {
            Ok(v) => v,
            Err(e) => {
                return Err(e);
            },
        };
        let missing_arguments: Vec<String> = match parse_string_vec(
            value.get("missing_arguments").unwrap(),
            "missing_arguments",
        ) {
            Ok(v) => v,
            Err(e) => {
                return Err(e);
            },
        };
        let reason: String = match parse_string(value.get("reason").unwrap(), "reason") {
            Ok(v) => v,
            Err(e) => {
                return Err(e);
            },
        };
        Ok(
            RouteDecision {
                intent_family,
                confidence,
                requires_multi_step,
                risk,
                candidate_tools,
                candidate_plugins,
                missing_arguments,
                reason,
            },
        )
    }
}

proof fn lemma_none_absent(value: JsonView, keys: Seq<Seq<char>>)
    requires
        absent_keys(value, keys).len() == 0,
    ensures
        forall|i: int| 0 <= i < keys.len() ==> value.member(#[trigger] keys[i]) is Some,
    decreases keys.len(),
{
    if keys.len() > 0 {
        lemma_none_absent(value, keys.drop_last());
        assert forall|i: int| 0 <= i < keys.len() implies value.member(#[trigger] keys[i]) is Some by {
            if i < keys.len() - 1 {
                assert(keys.drop_last()[i] == keys[i]);
            }
        }
    }
}

/// The JSON form of a decision.
pub open spec fn encoded(d: RouteDecisionView) -> JsonView {
    let list = |items: Seq<Seq<char>>|
        JsonView::Array(items.map_values(|s: Seq<char>| JsonView::Text(s)));
    JsonView::Object(
        seq![
            FieldView {
                name: "intent_family"@,
                value: JsonView::Text(d.intent_family.name()),
            },
            FieldView {
                name: "confidence"@,
                value: JsonView::Number(NumberView::Fraction(d.confidence)),
            },
            FieldView {
                name: "requires_multi_step"@,
                value: JsonView::Bool(d.requires_multi_step),
            },
            FieldView { name: "risk"@, value: JsonView::Text(d.risk.name()) },
            FieldView { name: "candidate_tools"@, value: list(d.candidate_tools) },
            FieldView { name: "candidate_plugins"@, value: list(d.candidate_plugins) },
            FieldView { name: "missing_arguments"@, value: list(d.missing_arguments) },
            FieldView { name: "reason"@, value: JsonView::Text(d.reason) },
        ],
    )
}

/// The texts differ, as their lengths or the named characters show.
proof fn lemma_keys_distinct()
    ensures
        forall|i: int, j: int|
            0 <= i < j < required_keys().len() ==> #[trigger] required_keys()[i]
                != #[trigger] required_keys()[j],
{
    reveal_strlit("intent_family");
    reveal_strlit("confidence");
    reveal_strlit("requires_multi_step");
    reveal_strlit("risk");
    reveal_strlit("candidate_tools");
    reveal_strlit("candidate_plugins");
    reveal_strlit("missing_arguments");
    reveal_strlit("reason");
    let keys = required_keys();
    assert(keys[0].len() != keys[1].len());
    assert(keys[0].len() != keys[2].len());
    assert(keys[0].len() != keys[3].len());
    assert(keys[0].len() != keys[4].len());
    assert(keys[0].len() != keys[5].len());
    assert(keys[0].len() != keys[6].len());
    assert(keys[0].len() != keys[7].len());
    assert(keys[1].len() != keys[2].len());
    assert(keys[1].len() != keys[3].len());
    assert(keys[1].len() != keys[4].len());
    assert(keys[1].len() != keys[5].len());
    assert(keys[1].len() != keys[6].len());
    assert(keys[1].len() != keys[7].len());
    assert(keys[2].len() != keys[3].len());
    assert(keys[2].len() != keys[4].len());
    assert(keys[2].len() != keys[5].len());
    assert(keys[2].len() != keys[6].len());
    assert(keys[2].len() != keys[7].len());
    assert(keys[3].len() != keys[4].len());
    assert(keys[3].len() != keys[5].len());
    assert(keys[3].len() != keys[6].len());
    assert(keys[3].len() != keys[7].len());
    assert(keys[4].len() != keys[5].len());
    assert(keys[4].len() != keys[6].len());
    assert(keys[4].len() != keys[7].len());
    assert(keys[5][0] != keys[6][0]);
    assert(keys[5].len() != keys[7].len());
    assert(keys[6].len() != keys[7].len());
}

proof fn lemma_family_names()
    ensures
        forall|f: IntentFamily|
            decoded_family(JsonView::Text(#[trigger] f.name())) == Ok::<
                IntentFamily,
                SchemaErrorView,
            >(f),
        forall|f: RouteRisk|
            decoded_risk(JsonView::Text(#[trigger] f.name())) == Ok::<RouteRisk, SchemaErrorView>(
                f,
            ),
{
    reveal_strlit("chat");
    reveal_strlit("filesystem_read");
    reveal_strlit("table_read");
    reveal_strlit("web_lookup");
    reveal_strlit("code_exec");
    reveal_strlit("text_transform");
    reveal_strlit("multi_step");
    reveal_strlit("unknown");
    reveal_strlit("low");
    reveal_strlit("medium");
    reveal_strlit("high");
    assert forall|f: IntentFamily| decoded_family(JsonView::Text(#[trigger] f.name())) == Ok::<
        IntentFamily,
        SchemaErrorView,
    >(f) by {
        assert("chat"@.len() != "filesystem_read"@.len());
        assert("chat"@.len() != "table_read"@.len());
        assert("chat"@.len() != "web_lookup"@.len());
        assert("chat"@.len() != "code_exec"@.len());
        assert("chat"@.len() != "text_transform"@.len());
        assert("chat"@.len() != "multi_step"@.len());
        assert("chat"@.len() != "unknown"@.len());
        assert("filesystem_read"@.len() != "table_read"@.len());
        assert("filesystem_read"@.len() != "web_lookup"@.len());
        assert("filesystem_read"@.len() != "code_exec"@.len());
        assert("filesystem_read"@.len() != "text_transform"@.len());
        assert("filesystem_read"@.len() != "multi_step"@.len());
        assert("filesystem_read"@.len() != "unknown"@.len());
        assert("table_read"@[0] != "web_lookup"@[0]);
        assert("table_read"@.len() != "code_exec"@.len());
        assert("table_read"@.len() != "text_transform"@.len());
        assert("table_read"@[0] != "multi_step"@[0]);
        assert("table_read"@.len() != "unknown"@.len());
        assert("web_lookup"@.len() != "code_exec"@.len());
        assert("web_lookup"@.len() != "text_transform"@.len());
        assert("web_lookup"@[0] != "multi_step"@[0]);
        assert("web_lookup"@.len() != "unknown"@.len());
        assert("code_exec"@.len() != "text_transform"@.len());
        assert("code_exec"@.len() != "multi_step"@.len());
        assert("code_exec"@.len() != "unknown"@.len());
        assert("text_transform"@.len() != "multi_step"@.len());
        assert("text_transform"@.len() != "unknown"@.len());
        assert("multi_step"@.len() != "unknown"@.len());
    }
    assert forall|f: RouteRisk| decoded_risk(JsonView::Text(#[trigger] f.name())) == Ok::<
        RouteRisk,
        SchemaErrorView,
    >(f) by {
        assert("low"@.len() != "medium"@.len());
        assert("low"@.len() != "high"@.len());
        assert("medium"@.len() != "high"@.len());
    }
}

proof fn lemma_decoded_list(items: Seq<Seq<char>>, field: Seq<char>)
    ensures
        decoded_list(
            JsonView::Array(items.map_values(|s: Seq<char>| JsonView::Text(s))),
            field,
        ) == Ok::<Seq<Seq<char>>, SchemaErrorView>(items),
{
    let values = items.map_values(|s: Seq<char>| JsonView::Text(s));
    assert(all_texts(values));
    assert(values.map_values(|v: JsonView| v->Text_0) =~= items);
}

proof fn lemma_all_present(value: JsonView, keys: Seq<Seq<char>>)
    requires
        forall|i: int| 0 <= i < keys.len() ==> value.member(#[trigger] keys[i]) is Some,
    ensures
        absent_keys(value, keys).len() == 0,
    decreases keys.len(),
{
    if keys.len() > 0 {
        assert(value.member(keys[keys.len() - 1]) is Some);
        assert forall|i: int| 0 <= i < keys.drop_last().len() implies value.member(
            #[trigger] keys.drop_last()[i],
        ) is Some by {
            assert(value.member(keys[i]) is Some);
        }
        lemma_all_present(value, keys.drop_last());
    }
}

/// Reading the JSON form of a decision gives the decision back.
pub proof fn law_decoded_encoded(d: RouteDecisionView)
    ensures
        decoded(encoded(d)) == Ok::<RouteDecisionView, SchemaErrorView>(d),
{
    let value = encoded(d);
    let fields = value->Object_0;
    let keys = required_keys();
    lemma_keys_distinct();
    assert forall|i: int| 0 <= i < 8 implies value.member(#[trigger] keys[i]) == Some(
        fields[i].value,
    ) by {
        assert(fields[i].name == keys[i]);
        assert forall|j: int| 0 <= j < i implies (#[trigger] fields[j]).name != keys[i] by {
            assert(fields[j].name == keys[j]);
        }
        lemma_lookup_first(fields, keys[i], i);
    }
    lemma_all_present(value, keys);
    lemma_family_names();
    lemma_decoded_list(d.candidate_tools, "candidate_tools"@);
    lemma_decoded_list(d.candidate_plugins, "candidate_plugins"@);
    lemma_decoded_list(d.missing_arguments, "missing_arguments"@);
    assert(value.member(keys[0]) == Some(fields[0].value));
    assert(value.member(keys[1]) == Some(fields[1].value));
    assert(value.member(keys[2]) == Some(fields[2].value));
    assert(value.member(keys[3]) == Some(fields[3].value));
    assert(value.member(keys[4]) == Some(fields[4].value));
    assert(value.member(keys[5]) == Some(fields[5].value));
    assert(value.member(keys[6]) == Some(fields[6].value));
    assert(value.member(keys[7]) == Some(fields[7].value));
}

} // verus!
