//! Results that a loop makes up itself.

use crate::json::{lookup, Json, JsonField, JsonView};
use crate::json_build::{
    bool_value, field, fields_view, null_value, object_value, push_field, text_value,
};
use crate::json_text::{extract_result_message, json_text, plain, render_json, result_message};
use crate::observation::StepAction;
use crate::route::{DirectRouteExecutionResult, ExecutionView};
use crate::task::{
    evidence, evidence_view, push_evidence, status_node, EnvelopeView, EvidenceItem, ResultEnvelope,
    ResultStatus, TaskNode, RESULT_SCHEMA_VERSION,
};
use vstd::prelude::*;

verus! {

/// The payload of a status: its message.
pub open spec fn status_payload(message: Seq<char>) -> JsonView {
    JsonView::Object(
        seq![
            field("direct_route"@, JsonView::Bool(true)),
            field("message"@, JsonView::Text(message)),
        ],
    )
}

proof fn lemma_status_payload(message: Seq<char>)
    ensures
        plain(status_payload(message), 100),
        status_payload(message).member_text("message"@) == Some(message),
{
    reveal_strlit("direct_route");
    reveal_strlit("message");
    assert("direct_route"@[0] == 'd' && "message"@[0] == 'm');
    reveal_with_fuel(plain, 3);
    reveal_with_fuel(lookup, 3);
    let fields = status_payload(message)->Object_0;
    assert(fields.skip(1)[0] == fields[1]);
}

/// A result that only carries a status and a message.
pub fn synthetic_status_result(
    task_id: &str,
    node_id: &str,
    producer: &str,
    message: &str,
    confidence_percent: u32,
    status: ResultStatus,
) -> (r: DirectRouteExecutionResult)
    ensures
        r@ == (ExecutionView {
            node: status_node(node_id@, message@),
            result: EnvelopeView {
                task_id: task_id@,
                node_id: node_id@,
                producer: producer@,
                schema_version: "result.v1"@,
                status,
                payload: json_text(status_payload(message@)),
                evidence: seq![evidence("runtime"@, "direct-route"@)],
                confidence_percent,
            },
            message: message@,
            terminal_step_action: None,
        }),
{
    let mut fields: Vec<JsonField> = Vec::new();
    push_field(&mut fields, "direct_route", bool_value(true));
    push_field(&mut fields, "message", text_value(message));
    assert(fields_view(fields@) =~= status_payload(message@)->Object_0);
    let mut items: Vec<EvidenceItem> = Vec::new();
    push_evidence(&mut items, "runtime", "direct-route");
    assert(evidence_view(items@) =~= seq![evidence("runtime"@, "direct-route"@)]);
    let result: ResultEnvelope = ResultEnvelope {
        task_id: task_id.to_owned(),
        node_id: node_id.to_owned(),
        producer: producer.to_owned(),
        schema_version: RESULT_SCHEMA_VERSION.to_owned(),
        status,
        payload: render_json(&object_value(fields)),
        evidence: items,
        confidence_percent,
    };
    proof {
        lemma_status_payload(message@);
    }
    let told: String = extract_result_message(result.payload.as_str());
    DirectRouteExecutionResult {
        node: TaskNode::status(node_id, message),
        result,
        message: told,
        terminal_step_action: None,
    }
}

/// The message about a tool that the runtime does not have.
pub open spec fn not_enabled(tool: Seq<char>) -> Seq<char> {
    "tool `"@ + tool + "` is not enabled in the current runtime inventory"@
}

/// The result of a call of a tool that the runtime does not have.
pub fn tool_not_enabled_result(task_id: &str, tool_name: &str) -> (r: DirectRouteExecutionResult)
    ensures
        r@.message == not_enabled(tool_name@),
        r@.node == status_node("runtime-loop:tool"@, not_enabled(tool_name@)),
        r@.result == (EnvelopeView {
            task_id: task_id@,
            node_id: "runtime-loop:tool"@,
            producer: "runtime-loop"@,
            schema_version: "result.v1"@,
            status: ResultStatus::Error,
            payload: json_text(status_payload(not_enabled(tool_name@))),
            evidence: seq![evidence("runtime"@, "direct-route"@)],
            confidence_percent: 0,
        }),
        r@.terminal_step_action is None,
{
    let mut message: String = "tool `".to_owned();
    message.append(tool_name);
    message.append("` is not enabled in the current runtime inventory");
    synthetic_status_result(
        task_id,
        "runtime-loop:tool",
        "runtime-loop",
        message.as_str(),
        0,
        ResultStatus::Error,
    )
}

pub open spec fn trace_or_null(probe_trace: Option<JsonView>) -> JsonView {
    match probe_trace {
        Some(trace) => trace,
        None => JsonView::Null,
    }
}

pub open spec fn opt_json(j: Option<&Json>) -> Option<JsonView> {
    match j {
        Some(j) => Some(j@),
        None => None,
    }
}

/// The payload of the result that a loop ends with.
pub open spec fn terminal_payload(
    loop_name: Seq<char>,
    message: Seq<char>,
    probe_trace: Option<JsonView>,
) -> JsonView {
    JsonView::Object(
        seq![
            field("direct_route"@, JsonView::Bool(true)),
            field("message"@, JsonView::Text(message)),
            field("probe_trace"@, trace_or_null(probe_trace)),
            field("runtime_loop"@, JsonView::Text(loop_name)),
        ],
    )
}

/// The result that a loop ends with.
pub open spec fn terminal_result(
    task_id: Seq<char>,
    loop_name: Seq<char>,
    message: Seq<char>,
    action: StepAction,
    status: ResultStatus,
    probe_trace: Option<JsonView>,
) -> ExecutionView {
    let payload = json_text(terminal_payload(loop_name, message, probe_trace));
    let node_id = "runtime-loop:"@ + loop_name;
    ExecutionView {
        node: status_node(node_id, message),
        result: EnvelopeView {
            task_id,
            node_id,
            producer: "runtime-loop"@,
            schema_version: "result.v1"@,
            status,
            payload,
            evidence: seq![evidence("runtime"@, "runtime-loop"@)],
            confidence_percent: if status == ResultStatus::Success {
                88
            } else {
                0
            },
        },
        message: result_message(payload),
        terminal_step_action: Some(action),
    }
}

proof fn lemma_terminal_payload(
    loop_name: Seq<char>,
    message: Seq<char>,
    probe_trace: Option<JsonView>,
)
    ensures
        plain(trace_or_null(probe_trace), 99) ==> plain(
            terminal_payload(loop_name, message, probe_trace),
            100,
        ),
        terminal_payload(loop_name, message, probe_trace).member_text("message"@) == Some(message),
{
    reveal_strlit("direct_route");
    reveal_strlit("message");
    reveal_strlit("probe_trace");
    reveal_strlit("runtime_loop");
    assert("direct_route"@[0] == 'd' && "message"@[0] == 'm' && "probe_trace"@[0] == 'p'
        && "runtime_loop"@[0] == 'r');
    reveal_with_fuel(plain, 2);
    reveal_with_fuel(lookup, 3);
    let fields = terminal_payload(loop_name, message, probe_trace)->Object_0;
    assert(fields.skip(1)[0] == fields[1]);
}

/// The result that a loop ends with, given the trace of its steps. The message is
/// read back from the payload; it is the one given, where the trace has no
/// fractions, names no member twice and is not too deep.
pub fn synthetic_loop_terminal_result(
    task_id: &str,
    loop_name: &str,
    message: &str,
    terminal_step_action: StepAction,
    status: ResultStatus,
    probe_trace: Option<&Json>,
) -> (r: DirectRouteExecutionResult)
    ensures
        r@ == terminal_result(
            task_id@,
            loop_name@,
            message@,
            terminal_step_action,
            status,
            opt_json(probe_trace),
        ),
        plain(trace_or_null(opt_json(probe_trace)), 99) ==> r@.message == message@,
{
    let mut node_id: String = "runtime-loop:".to_owned();
    node_id.append(loop_name);
    let trace: Json = match probe_trace {
        Some(trace) => trace.clone(),
        None => null_value(),
    };
    let mut fields: Vec<JsonField> = Vec::new();
    push_field(&mut fields, "direct_route", bool_value(true));
    push_field(&mut fields, "message", text_value(message));
    push_field(&mut fields, "probe_trace", trace);
    push_field(&mut fields, "runtime_loop", text_value(loop_name));
    assert(fields_view(fields@) =~= terminal_payload(
        loop_name@,
        message@,
        opt_json(probe_trace),
    )->Object_0);
    let mut items: Vec<EvidenceItem> = Vec::new();
    push_evidence(&mut items, "runtime", "runtime-loop");
    assert(evidence_view(items@) =~= seq![evidence("runtime"@, "runtime-loop"@)]);
    let succeeded: bool = match status {
        ResultStatus::Success => true,
        ResultStatus::Error => false,
    };
    let result: ResultEnvelope = ResultEnvelope {
        task_id: task_id.to_owned(),
        node_id: node_id.clone(),
        producer: "runtime-loop".to_owned(),
        schema_version: RESULT_SCHEMA_VERSION.to_owned(),
        status,
        payload: render_json(&object_value(fields)),
        evidence: items,
        confidence_percent: if succeeded {
            88
        } else {
            0
        },
    };
    proof {
        lemma_terminal_payload(loop_name@, message@, opt_json(probe_trace));
    }
    let told: String = extract_result_message(result.payload.as_str());
    DirectRouteExecutionResult {
        node: TaskNode::status(node_id.as_str(), message),
        result,
        message: told,
        terminal_step_action: Some(terminal_step_action),
    }
}

} // verus!
