//! Results of tool runs.

use crate::json::{texts_of, FieldView, Json, JsonField, JsonView};
use crate::json_build::{
    field, fields_view, number, number_value, object_value, push_field, text_value,
};
use crate::json_text::{json_text, render_json};
use crate::number::{decimal, decimal_text, push_decimal};
use crate::task::{
    evidence, evidence_view, push_evidence, AgentInstanceSpec, EnvelopeView, EvidenceItem,
    EvidenceView, NodeView, ResultEnvelope, ResultStatus, SpecView, TaskNode, RESULT_SCHEMA_VERSION,
};
use crate::text::{opt_str_view, views};
use vstd::prelude::*;

verus! {

#[derive(Debug, Clone, Copy, PartialEq, Eq, Structural)]
pub enum PolicyOutcome {
    Allow,
    Deny,
    RequireApproval,
}

/// What the policy decided of an execution, with the decision as JSON.
#[derive(Debug)]
pub struct PolicyFact {
    pub outcome: PolicyOutcome,
    pub decision: Json,
}

/// An execution in its canonical form, as JSON, with its digest.
#[derive(Debug)]
pub struct CanonicalFact {
    pub digest: String,
    pub execution: Json,
}

#[derive(Debug, Clone, Copy, PartialEq, Eq, Structural)]
pub enum ToolFailureKind {
    ToolNotFound,
    ToolAlreadyRegistered,
    InvalidDescriptor,
    InputSchemaViolation,
    CapabilityDenied,
    Timeout,
    ExecutionFailed { retriable: bool },
}

/// Why a tool run failed.
#[derive(Debug)]
pub struct ToolFailure {
    pub kind: ToolFailureKind,
    pub message: String,
    pub policy: Option<PolicyFact>,
}

#[derive(Debug, Clone, Copy, PartialEq, Eq, Structural)]
pub enum SandboxProfile {
    NoIsolation,
    ReadOnlyFs,
    PythonResearch,
    ContainerRestricted,
}

/// What a tool run gave.
#[derive(Debug)]
pub struct ToolExecution {
    pub output: Json,
    pub attempts: u32,
    pub elapsed_ms: u64,
    pub output_fingerprint: String,
    pub sandbox_profile: SandboxProfile,
}

pub open spec fn policy_code(outcome: PolicyOutcome) -> Seq<char> {
    match outcome {
        PolicyOutcome::Allow => "execution_failed"@,
        PolicyOutcome::Deny => "policy_denied"@,
        PolicyOutcome::RequireApproval => "approval_required"@,
    }
}

/// The code of a failure: that of the policy's decision where there is one.
pub open spec fn failure_code(kind: ToolFailureKind, policy: Option<PolicyOutcome>) -> Seq<char> {
    match policy {
        Some(outcome) => policy_code(outcome),
        None => match kind {
            ToolFailureKind::ToolNotFound => "tool_not_found"@,
            ToolFailureKind::ToolAlreadyRegistered => "tool_already_registered"@,
            ToolFailureKind::InvalidDescriptor => "invalid_descriptor"@,
            ToolFailureKind::InputSchemaViolation => "input_schema_violation"@,
            ToolFailureKind::CapabilityDenied => "capability_denied"@,
            ToolFailureKind::Timeout => "timeout"@,
            ToolFailureKind::ExecutionFailed { retriable } => if retriable {
                "retriable_execution_failed"@
            } else {
                "execution_failed"@
            },
        },
    }
}

impl ToolFailure {
    pub open spec fn outcome(self) -> Option<PolicyOutcome> {
        match self.policy {
            Some(p) => Some(p.outcome),
            None => None,
        }
    }
}

pub fn policy_error_code(outcome: PolicyOutcome) -> (r: &'static str)
    ensures
        r@ == policy_code(outcome),
{
    match outcome {
        PolicyOutcome::Allow => "execution_failed",
        PolicyOutcome::Deny => "policy_denied",
        PolicyOutcome::RequireApproval => "approval_required",
    }
}

pub fn tool_error_code(error: &ToolFailure) -> (r: &'static str)
    ensures
        r@ == failure_code(error.kind, error.outcome()),
{
    if let Some(policy) = &error.policy {
        return policy_error_code(policy.outcome);
    }
    match error.kind {
        ToolFailureKind::ToolNotFound => "tool_not_found",
        ToolFailureKind::ToolAlreadyRegistered => "tool_already_registered",
        ToolFailureKind::InvalidDescriptor => "invalid_descriptor",
        ToolFailureKind::InputSchemaViolation => "input_schema_violation",
        ToolFailureKind::CapabilityDenied => "capability_denied",
        ToolFailureKind::Timeout => "timeout",
        ToolFailureKind::ExecutionFailed { retriable } => if retriable {
            "retriable_execution_failed"
        } else {
            "execution_failed"
        },
    }
}

pub open spec fn sandbox_label(profile: SandboxProfile) -> Seq<char> {
    match profile {
        SandboxProfile::NoIsolation => "no_isolation"@,
        SandboxProfile::ReadOnlyFs => "read_only_fs"@,
        SandboxProfile::PythonResearch => "python_research"@,
        SandboxProfile::ContainerRestricted => "container_restricted"@,
    }
}

pub fn sandbox_profile_label(profile: SandboxProfile) -> (r: &'static str)
    ensures
        r@ == sandbox_label(profile),
{
    match profile {
        SandboxProfile::NoIsolation => "no_isolation",
        SandboxProfile::ReadOnlyFs => "read_only_fs",
        SandboxProfile::PythonResearch => "python_research",
        SandboxProfile::ContainerRestricted => "container_restricted",
    }
}

/// The data of a tool's output: its `data` member, or the output itself.
pub open spec fn output_data(output: JsonView) -> JsonView {
    match output.member("data"@) {
        Some(data) => data,
        None => output,
    }
}

pub fn tool_output_data(output: &Json) -> (r: &Json)
    ensures
        r@ == output_data(output@),
{
    match output.get("data") {
        Some(data) => data,
        None => output,
    }
}

/// One piece of evidence for a text, none where there is none.
pub open spec fn evidence_of_text(kind: Seq<char>, value: Option<Seq<char>>) -> Seq<EvidenceView> {
    match value {
        Some(value) => seq![evidence(kind, value)],
        None => seq![],
    }
}

/// One piece of evidence for each text of an array.
pub open spec fn evidence_of_texts(
    kind: Seq<char>,
    items: Option<Seq<JsonView>>,
) -> Seq<EvidenceView> {
    match items {
        Some(items) => texts_of(items).map_values(|value: Seq<char>| evidence(kind, value)),
        None => seq![],
    }
}

/// What a tool's output says of the run.
pub open spec fn derived_evidence(output: JsonView) -> Seq<EvidenceView> {
    let data = output_data(output);
    evidence_of_text("selected_skill"@, data.member_text("selected_skill"@)) + evidence_of_text(
        "validation_status"@,
        data.member_text("validation_status"@),
    ) + evidence_of_texts("created_path"@, data.member_items("created_paths"@))
        + evidence_of_texts("executed_script"@, data.member_items("executed_scripts"@))
}

fn add_text(items: &mut Vec<EvidenceItem>, kind: &str, value: Option<&str>)
    ensures
        evidence_view(final(items)@) == evidence_view(old(items)@) + evidence_of_text(
            kind@,
            opt_str_view(value),
        ),
{
    let ghost before = evidence_view(items@);
    match value {
        Some(value) => {
            push_evidence(items, kind, value);
            assert(evidence_view(items@) =~= before + seq![evidence(kind@, value@)]);
        },
        None => {
            assert(before =~= before + seq![]);
        },
    }
}

fn add_texts(items: &mut Vec<EvidenceItem>, kind: &str, output: &Json, name: &str)
    ensures
        evidence_view(final(items)@) == evidence_view(old(items)@) + evidence_of_texts(
            kind@,
            output@.member_items(name@),
        ),
{
    let ghost before = evidence_view(items@);
    match output.get_texts(name) {
        Some(list) => {
            let ghost all = views(list@).map_values(|value: Seq<char>| evidence(kind@, value));
            let mut i: usize = 0;
            assert(before =~= before + all.take(0));
            while i < list.len()
                invariant
                    i <= list.len(),
                    all == views(list@).map_values(|value: Seq<char>| evidence(kind@, value)),
                    evidence_view(items@) == before + all.take(i as int),
                decreases list.len() - i,
            {
                assert(all[i as int] == evidence(kind@, list@[i as int]@));
                push_evidence(items, kind, list[i].as_str());
                assert((before + all.take(i as int)).push(all[i as int]) =~= before + all.take(
                    i + 1,
                ));
                i = i + 1;
            }
            assert(all.take(i as int) =~= all);
        },
        None => {
            assert(before =~= before + seq![]);
        },
    }
}

/// Adds what a tool's output says of the run.
pub fn add_derived_evidence(items: &mut Vec<EvidenceItem>, output: &Json)
    ensures
        evidence_view(final(items)@) == evidence_view(old(items)@) + derived_evidence(output@),
{
    let ghost before = evidence_view(items@);
    let data: &Json = tool_output_data(output);
    add_text(items, "selected_skill", data.get_str("selected_skill"));
    add_text(items, "validation_status", data.get_str("validation_status"));
    add_texts(items, "created_path", data, "created_paths");
    add_texts(items, "executed_script", data, "executed_scripts");
    assert(evidence_view(items@) =~= before + derived_evidence(output@));
}

/// The result of a node that its budgets do not let run.
pub open spec fn rejected(spec: SpecView, node: NodeView) -> EnvelopeView {
    EnvelopeView {
        task_id: spec.context.task_id,
        node_id: node.node_id,
        producer: spec.instance_id,
        schema_version: "result.v1"@,
        status: ResultStatus::Error,
        payload: json_text(
            JsonView::Object(
                seq![
                    field("error_code"@, JsonView::Text("policy_bindings_rejected"@)),
                    field("message"@, JsonView::Text("policy bindings rejected execution"@)),
                    field("node_id"@, JsonView::Text(node.node_id)),
                ],
            ),
        ),
        evidence: seq![evidence("policy"@, "budget-exhausted"@)],
        confidence_percent: 0,
    }
}

pub fn policy_rejection_result(spec: &AgentInstanceSpec, node: &TaskNode) -> (r: ResultEnvelope)
    ensures
        r@ == rejected(spec@, node@),
{
    let mut fields: Vec<JsonField> = Vec::new();
    push_field(&mut fields, "error_code", text_value("policy_bindings_rejected"));
    push_field(&mut fields, "message", text_value("policy bindings rejected execution"));
    push_field(&mut fields, "node_id", text_value(node.node_id.as_str()));
    assert(fields_view(fields@) =~= seq![
        field("error_code"@, JsonView::Text("policy_bindings_rejected"@)),
        field("message"@, JsonView::Text("policy bindings rejected execution"@)),
        field("node_id"@, JsonView::Text(node.node_id@)),
    ]);
    let mut items: Vec<EvidenceItem> = Vec::new();
    push_evidence(&mut items, "policy", "budget-exhausted");
    assert(evidence_view(items@) =~= seq![evidence("policy"@, "budget-exhausted"@)]);
    ResultEnvelope {
        task_id: spec.context.task_id.clone(),
        node_id: node.node_id.clone(),
        producer: spec.instance_id.clone(),
        schema_version: RESULT_SCHEMA_VERSION.to_owned(),
        status: ResultStatus::Error,
        payload: render_json(&object_value(fields)),
        evidence: items,
        confidence_percent: 0,
    }
}

/// The message of a tool's output, or the node's description.
pub open spec fn success_message(output: JsonView, node: NodeView) -> Seq<char> {
    match output.member_text("message"@) {
        Some(message) => message,
        None => node.description,
    }
}

pub open spec fn success_payload(
    node: NodeView,
    worker_id: Seq<char>,
    tool_name: Seq<char>,
    output: JsonView,
    attempts: u32,
    elapsed_ms: u64,
) -> JsonView {
    JsonView::Object(
        seq![
            field("attempts"@, number(attempts as nat)),
            field("elapsed_ms"@, number(elapsed_ms as nat)),
            field("message"@, JsonView::Text(success_message(output, node))),
            field("node_id"@, JsonView::Text(node.node_id)),
            field("output"@, output),
            field("summary"@, JsonView::Text(node.description)),
            field("tool_name"@, JsonView::Text(tool_name)),
            field("worker_id"@, JsonView::Text(worker_id)),
        ],
    )
}

/// The result of a tool run that succeeded.
pub open spec fn succeeded(
    spec: SpecView,
    node: NodeView,
    worker_id: Seq<char>,
    tool_name: Seq<char>,
    execution: ToolExecution,
    confidence_percent: u32,
) -> EnvelopeView {
    EnvelopeView {
        task_id: spec.context.task_id,
        node_id: node.node_id,
        producer: spec.instance_id,
        schema_version: "result.v1"@,
        status: ResultStatus::Success,
        payload: json_text(
            success_payload(
                node,
                worker_id,
                tool_name,
                execution.output@,
                execution.attempts,
                execution.elapsed_ms,
            ),
        ),
        evidence: seq![
            evidence("runtime"@, worker_id),
            evidence("tool"@, tool_name),
            evidence("output_fingerprint"@, execution.output_fingerprint@),
            evidence("sandbox_profile"@, sandbox_label(execution.sandbox_profile)),
            evidence("tool_attempts"@, decimal(execution.attempts as nat)),
            evidence(
                "policy"@,
                "budget_tokens="@ + decimal(spec.policy_bindings.budget_tokens as nat)
                    + ",time_budget_ms="@ + decimal(spec.policy_bindings.time_budget_ms as nat),
            ),
        ] + derived_evidence(execution.output@),
        confidence_percent,
    }
}

pub fn tool_success_result(
    spec: &AgentInstanceSpec,
    node: &TaskNode,
    worker_id: &str,
    tool_name: &str,
    execution: &ToolExecution,
    confidence_percent: u32,
) -> (r: ResultEnvelope)
    ensures
        r@ == succeeded(spec@, node@, worker_id@, tool_name@, *execution, confidence_percent),
{
    let message: &str = match execution.output.get_str("message") {
        Some(message) => message,
        None => node.description.as_str(),
    };
    let mut fields: Vec<JsonField> = Vec::new();
    push_field(&mut fields, "attempts", number_value(execution.attempts as u64));
    push_field(&mut fields, "elapsed_ms", number_value(execution.elapsed_ms));
    push_field(&mut fields, "message", text_value(message));
    push_field(&mut fields, "node_id", text_value(node.node_id.as_str()));
    push_field(&mut fields, "output", execution.output.clone());
    push_field(&mut fields, "summary", text_value(node.description.as_str()));
    push_field(&mut fields, "tool_name", text_value(tool_name));
    push_field(&mut fields, "worker_id", text_value(worker_id));
    assert(fields_view(fields@) =~= success_payload(
        node@,
        worker_id@,
        tool_name@,
        execution.output@,
        execution.attempts,
        execution.elapsed_ms,
    )->Object_0);
    let mut budgets: String = "budget_tokens=".to_owned();
    push_decimal(&mut budgets, spec.policy_bindings.budget_tokens);
    budgets.append(",time_budget_ms=");
    push_decimal(&mut budgets, spec.policy_bindings.time_budget_ms);
    let attempts: String = decimal_text(execution.attempts as u64);
    let mut items: Vec<EvidenceItem> = Vec::new();
    push_evidence(&mut items, "runtime", worker_id);
    push_evidence(&mut items, "tool", tool_name);
    push_evidence(&mut items, "output_fingerprint", execution.output_fingerprint.as_str());
    push_evidence(&mut items, "sandbox_profile", sandbox_profile_label(execution.sandbox_profile));
    push_evidence(&mut items, "tool_attempts", attempts.as_str());
    push_evidence(&mut items, "policy", budgets.as_str());
    add_derived_evidence(&mut items, &execution.output);
    let r: ResultEnvelope = ResultEnvelope {
        task_id: spec.context.task_id.clone(),
        node_id: node.node_id.clone(),
        producer: spec.instance_id.clone(),
        schema_version: RESULT_SCHEMA_VERSION.to_owned(),
        status: ResultStatus::Success,
        payload: render_json(&object_value(fields)),
        evidence: items,
        confidence_percent,
    };
    assert(r@ =~= succeeded(
        spec@,
        node@,
        worker_id@,
        tool_name@,
        *execution,
        confidence_percent,
    ));
    r
}

pub open spec fn failure_payload(
    node: NodeView,
    worker_id: Seq<char>,
    tool_name: Seq<char>,
    canonical: Option<CanonicalFact>,
    error: ToolFailure,
) -> JsonView {
    let none = Seq::<FieldView>::empty();
    JsonView::Object(
        (match canonical {
            Some(c) => seq![
                field("canonical_execution"@, c.execution@),
                field("digest"@, JsonView::Text(c.digest@)),
            ],
            None => none,
        }) + seq![
            field("error_code"@, JsonView::Text(failure_code(error.kind, error.outcome()))),
            field("message"@, JsonView::Text(error.message@)),
            field("node_id"@, JsonView::Text(node.node_id)),
        ] + (match error.policy {
            Some(p) => seq![field("policy_decision"@, p.decision@)],
            None => none,
        }) + seq![
            field("tool_name"@, JsonView::Text(tool_name)),
            field("worker_id"@, JsonView::Text(worker_id)),
        ],
    )
}

/// The result of a tool run that failed.
pub open spec fn failed(
    spec: SpecView,
    node: NodeView,
    worker_id: Seq<char>,
    tool_name: Seq<char>,
    canonical: Option<CanonicalFact>,
    error: ToolFailure,
) -> EnvelopeView {
    EnvelopeView {
        task_id: spec.context.task_id,
        node_id: node.node_id,
        producer: spec.instance_id,
        schema_version: "result.v1"@,
        status: ResultStatus::Error,
        payload: json_text(failure_payload(node, worker_id, tool_name, canonical, error)),
        evidence: seq![
            evidence("runtime"@, worker_id),
            evidence("tool"@, tool_name),
            evidence("tool_error"@, failure_code(error.kind, error.outcome())),
        ],
        confidence_percent: 0,
    }
}

pub fn tool_failure_result(
    spec: &AgentInstanceSpec,
    node: &TaskNode,
    worker_id: &str,
    tool_name: &str,
    canonical_execution: &Option<CanonicalFact>,
    error: &ToolFailure,
) -> (r: ResultEnvelope)
    ensures
        r@ == failed(spec@, node@, worker_id@, tool_name@, *canonical_execution, *error),
{
    let error_code: &str = tool_error_code(error);
    let mut fields: Vec<JsonField> = Vec::new();
    if let Some(c) = canonical_execution {
        push_field(&mut fields, "canonical_execution", c.execution.clone());
        push_field(&mut fields, "digest", text_value(c.digest.as_str()));
    }
    push_field(&mut fields, "error_code", text_value(error_code));
    push_field(&mut fields, "message", text_value(error.message.as_str()));
    push_field(&mut fields, "node_id", text_value(node.node_id.as_str()));
    if let Some(p) = &error.policy {
        push_field(&mut fields, "policy_decision", p.decision.clone());
    }
    push_field(&mut fields, "tool_name", text_value(tool_name));
    push_field(&mut fields, "worker_id", text_value(worker_id));
    assert(fields_view(fields@) =~= failure_payload(
        node@,
        worker_id@,
        tool_name@,
        *canonical_execution,
        *error,
    )->Object_0);
    let mut items: Vec<EvidenceItem> = Vec::new();
    push_evidence(&mut items, "runtime", worker_id);
    push_evidence(&mut items, "tool", tool_name);
    push_evidence(&mut items, "tool_error", error_code);
    let r: ResultEnvelope = ResultEnvelope {
        task_id: spec.context.task_id.clone(),
        node_id: node.node_id.clone(),
        producer: spec.instance_id.clone(),
        schema_version: RESULT_SCHEMA_VERSION.to_owned(),
        status: ResultStatus::Error,
        payload: render_json(&object_value(fields)),
        evidence: items,
        confidence_percent: 0,
    };
    assert(r@ =~= failed(spec@, node@, worker_id@, tool_name@, *canonical_execution, *error));
    r
}

} // verus!
