use roku_agent_runtime::approval::ApprovalDecision;
use roku_agent_runtime::bytes::truncate;
use roku_agent_runtime::candidates::reply_selects_candidate;
use roku_agent_runtime::events::LoopEvent;
use roku_agent_runtime::grounding::{
    extract_path_candidates, extract_row_limit, extract_sheet_name, extract_table_path,
    extract_web_query,
};
use roku_agent_runtime::json::{Json, JsonField, JsonNumber};
use roku_agent_runtime::json_build::merge_json_object;
use roku_agent_runtime::json_text::{extract_result_message, render_json};
use roku_agent_runtime::loop_event::{short_path, summarize_tool_args, summarize_tool_result};
use roku_agent_runtime::path::file_name_from_path;
use roku_agent_runtime::snippet::{extract_explicit_python_code, extract_explicit_shell_command};
use roku_agent_runtime::stream::{StreamAccumulator, StreamChunk};
use roku_agent_runtime::tokens::{
    extract_skill_source_url, has_shell_command_chain, looks_like_script_reference, normalize,
    skill_source_tokens,
};
use roku_agent_runtime::tool_calls::{dispatch_tool_call, ToolDispatch};
use roku_agent_runtime::trace::{canonical_execution_from_payload, policy_decision_from_payload};

fn object(fields: Vec<(&str, Json)>) -> Json {
    Json::Object(
        fields
            .into_iter()
            .map(|(name, value)| JsonField { name: name.to_string(), value })
            .collect(),
    )
}

fn text(s: &str) -> Json {
    Json::Text(s.to_string())
}

#[test]
fn arguments_are_summarized_by_tool() {
    assert_eq!(
        summarize_tool_args("Read", &object(vec![("path", text("/a/b/c.rs"))])),
        Some("b/c.rs".to_string())
    );
    assert_eq!(
        summarize_tool_args("Bash", &object(vec![("command", text("ls -la"))])),
        Some("ls -la".to_string())
    );
    assert_eq!(
        summarize_tool_args("Grep", &object(vec![("pattern", text("fn main"))])),
        Some("\"fn main\" in .".to_string())
    );
    assert_eq!(summarize_tool_args("Bash", &object(vec![])), None);
    assert_eq!(summarize_tool_args("Unknown", &object(vec![("path", text("x"))])), None);
    let long = summarize_tool_args("Bash", &object(vec![("command", text(&"y".repeat(200)))]))
        .expect("a summary");
    assert_eq!(long.chars().count(), 73);
    assert!(long.ends_with('…'));
}

#[test]
fn results_are_summarized_by_tool() {
    assert_eq!(
        summarize_tool_result(
            "Bash",
            true,
            &object(vec![
                ("exit_code", Json::Number(JsonNumber::Negative(-1))),
                ("stdout", text("a\nb\n")),
            ])
        ),
        Some("exit -1 (2 lines)".to_string())
    );
    assert_eq!(
        summarize_tool_result(
            "Read",
            true,
            &object(vec![
                ("content", text("one\ntwo")),
                ("size", Json::Number(JsonNumber::Unsigned(4096))),
            ])
        ),
        Some("2 lines, 4KB".to_string())
    );
    assert_eq!(
        summarize_tool_result("Read", false, &object(vec![("error", text("gone"))])),
        Some("error: gone".to_string())
    );
    assert_eq!(
        summarize_tool_result("Read", false, &Json::Null),
        Some("error: failed".to_string())
    );
    assert_eq!(summarize_tool_result("Write", true, &Json::Null), Some("written".to_string()));
    assert_eq!(summarize_tool_result("Other", true, &Json::Null), None);
}

#[test]
fn paths_are_shortened() {
    assert_eq!(short_path("a/b/c"), "b/c");
    assert_eq!(short_path("c"), "c");
    assert_eq!(file_name_from_path("/a/b/"), Some("b".to_string()));
    assert_eq!(file_name_from_path("/"), None);
}

#[test]
fn cuts_keep_whole_characters() {
    assert_eq!(truncate("héllo", 2), "h…");
    assert_eq!(truncate("héllo", 3), "hé…");
    assert_eq!(truncate("héllo", 6), "héllo");
    assert_eq!(truncate("", 0), "");
}

#[test]
fn json_is_written_compactly() {
    let value = object(vec![
        ("a", Json::Array(vec![Json::Null, Json::Bool(true)])),
        ("b", text("q\"\\\n\u{1}é")),
        ("c", Json::Number(JsonNumber::Negative(-3))),
    ]);
    assert_eq!(render_json(&value), "{\"a\":[null,true],\"b\":\"q\\\"\\\\\\n\\u0001é\",\"c\":-3}");
    assert_eq!(
        serde_json::from_str::<serde_json::Value>(&render_json(&value))
            .expect("it parses")
            .to_string(),
        render_json(&value)
    );
}

#[test]
fn the_message_of_a_payload_is_read_back() {
    let payload = render_json(&object(vec![("message", text("hi \"you\""))]));
    assert_eq!(extract_result_message(&payload), "hi \"you\"");
    assert_eq!(extract_result_message("plain text"), "plain text");
    assert_eq!(extract_result_message("{\"other\":1}"), "{\"other\":1}");
    assert_eq!(extract_result_message("{\"message\":7}"), "{\"message\":7}");
}

#[test]
fn an_overlay_sets_members_in_order() {
    let mut target = object(vec![("a", text("1")), ("c", text("3"))]);
    merge_json_object(&mut target, &object(vec![("b", text("2")), ("c", text("4"))]));
    assert_eq!(render_json(&target), "{\"a\":\"1\",\"b\":\"2\",\"c\":\"4\"}");
    merge_json_object(&mut target, &Json::Null);
    assert_eq!(render_json(&target), "{\"a\":\"1\",\"b\":\"2\",\"c\":\"4\"}");
}

#[test]
fn goals_are_searched_for_paths_and_numbers() {
    let entries: Vec<String> = Vec::new();
    assert_eq!(
        extract_path_candidates("please read src/lib.rs and `Cargo.toml`", &entries),
        vec!["src/lib.rs".to_string(), "Cargo.toml".to_string()]
    );
    assert_eq!(
        extract_table_path("preview data/sales.csv", &entries),
        Some("data/sales.csv".to_string())
    );
    assert_eq!(extract_table_path("read src/lib.rs", &entries), None);
    assert_eq!(extract_row_limit("show the first 20 rows"), Some(20));
    assert_eq!(extract_row_limit("show rows"), None);
    assert!(extract_web_query("search the web for rust").is_some());
}

#[test]
fn code_in_a_goal_is_found() {
    assert_eq!(
        extract_explicit_python_code("run this:\n```python\nprint(1)\n```"),
        Some("print(1)".to_string())
    );
    assert_eq!(
        extract_explicit_shell_command("```bash\nls -la\n```"),
        Some("ls -la".to_string())
    );
    assert_eq!(extract_explicit_shell_command("tell me a story"), None);
}

#[test]
fn replies_select_among_candidates() {
    let candidates = vec!["/a/x/lib.rs".to_string(), "/a/y/lib.rs".to_string()];
    assert_eq!(
        reply_selects_candidate("/a/y/lib.rs", &candidates, &Vec::new()),
        Some("/a/y/lib.rs".to_string())
    );
    assert_eq!(reply_selects_candidate("neither", &candidates, &Vec::new()), None);
}

#[test]
fn words_are_normalized() {
    assert_eq!(normalize("  Hello-World 2!é "), "helloworld2");
    assert!(looks_like_script_reference(" ./Scripts/run.sh"));
    assert!(!looks_like_script_reference("./run.sh"));
    assert!(has_shell_command_chain("ls && pwd"));
    assert!(!has_shell_command_chain("ls"));
}

#[test]
fn streamed_pieces_make_an_answer() {
    let mut stream = StreamAccumulator::new();
    let mut events: Vec<LoopEvent> = Vec::new();
    let chunks = vec![
        StreamChunk::TextDelta { text: "Hel".to_string() },
        StreamChunk::ToolCallStart { id: "1".to_string(), name: "Read".to_string() },
        StreamChunk::ToolCallStart { id: "2".to_string(), name: "Bash".to_string() },
        StreamChunk::ToolCallDelta { id: "1".to_string(), arguments_chunk: "{\"a\"".to_string() },
        StreamChunk::ToolCallDelta { id: "9".to_string(), arguments_chunk: "lost".to_string() },
        StreamChunk::TextDelta { text: "lo".to_string() },
        StreamChunk::ToolCallDelta { id: "1".to_string(), arguments_chunk: ":1}".to_string() },
        StreamChunk::ToolCallDone { id: "1".to_string() },
        StreamChunk::ToolCallDone { id: "1".to_string() },
        StreamChunk::Done,
    ];
    for chunk in chunks {
        stream.absorb(chunk, 4, &mut events);
    }
    let (text, calls) = stream.finish();
    assert_eq!(text, "Hello");
    assert_eq!(calls.len(), 1);
    assert_eq!(calls[0].name, "Read");
    assert_eq!(calls[0].arguments, "{\"a\":1}");
    assert_eq!(events.len(), 2);
    assert!(matches!(
        &events[0],
        LoopEvent::LlmTextDelta { step: 4, text, agent_id: None } if text == "Hel"
    ));
}

#[test]
fn a_call_that_starts_anew_forgets_its_arguments() {
    let mut stream = StreamAccumulator::new();
    let mut events: Vec<LoopEvent> = Vec::new();
    stream.absorb(
        StreamChunk::ToolCallStart { id: "1".to_string(), name: "A".to_string() },
        1,
        &mut events,
    );
    stream.absorb(
        StreamChunk::ToolCallDelta { id: "1".to_string(), arguments_chunk: "old".to_string() },
        1,
        &mut events,
    );
    stream.absorb(
        StreamChunk::ToolCallStart { id: "1".to_string(), name: "B".to_string() },
        1,
        &mut events,
    );
    stream.absorb(StreamChunk::ToolCallDone { id: "1".to_string() }, 1, &mut events);
    let (_, calls) = stream.finish();
    assert_eq!(calls[0].name, "B");
    assert_eq!(calls[0].arguments, "");
}

#[test]
fn calls_go_where_their_name_says() {
    let yes = ApprovalDecision::Approve;
    assert_eq!(dispatch_tool_call("tool_search", &yes), ToolDispatch::ToolSearch);
    for name in ["task_create", "task_update", "task_list", "task_get"] {
        assert_eq!(dispatch_tool_call(name, &yes), ToolDispatch::TaskTool);
    }
    assert_eq!(dispatch_tool_call("Agent", &yes), ToolDispatch::Agent);
    assert_eq!(dispatch_tool_call("Read", &yes), ToolDispatch::Run);
    assert_eq!(
        dispatch_tool_call("Read", &ApprovalDecision::Deny("no".to_string())),
        ToolDispatch::Denied
    );
}

#[test]
fn sheets_and_limits_are_read_from_a_goal() {
    assert_eq!(extract_sheet_name("open Sheet 'Q3'."), Some("Q3".to_string()));
    assert_eq!(extract_sheet_name("sheet two words"), None);
    assert_eq!(extract_sheet_name("sheet \"\""), None);
    assert_eq!(extract_sheet_name("no table here"), None);
    assert_eq!(extract_row_limit("show 500 rows"), Some(50));
    assert_eq!(extract_row_limit("show 0 rows"), Some(1));
}

#[test]
fn the_first_source_that_can_be_read_is_taken() {
    let tokens = skill_source_tokens("install (https://example.com/a), please.");
    assert_eq!(tokens, ["install", "https://example.com/a", "please"]);
    let parsed: Vec<Option<String>> =
        tokens.iter().map(|t| t.starts_with("https://").then(|| t.clone())).collect();
    assert_eq!(extract_skill_source_url(&parsed), Some("https://example.com/a".to_string()));
    assert_eq!(extract_skill_source_url(&vec![None, None]), None);
}

#[test]
fn payloads_carry_executions_and_decisions() {
    let inner = object(vec![("canonical_execution", text("inner"))]);
    let nested = object(vec![("data", inner.clone()), ("policy_decision", text("allow"))]);
    assert_eq!(
        canonical_execution_from_payload(&nested).and_then(|v| v.as_str()),
        Some("inner")
    );
    assert_eq!(policy_decision_from_payload(&nested).and_then(|v| v.as_str()), Some("allow"));
    let both = object(vec![("canonical_execution", text("outer")), ("data", inner)]);
    assert_eq!(canonical_execution_from_payload(&both).and_then(|v| v.as_str()), Some("outer"));
    assert!(policy_decision_from_payload(&both).is_none());
    assert!(canonical_execution_from_payload(&text("neither")).is_none());
}

#[test]
fn long_paths_are_cut_in_summaries() {
    let deep = format!("/work/{}/{}.rs", "d".repeat(60), "f".repeat(60));
    for (tool, key) in [("Read", "path"), ("Edit", "file_path"), ("Write", "file_path")] {
        let summary = summarize_tool_args(tool, &object(vec![(key, text(&deep))])).expect("one");
        assert_eq!(summary.chars().count(), 80, "{tool}");
        assert!(summary.starts_with("dddd") && summary.ends_with('…'));
        let fits = format!("{}/{}", "d".repeat(39), "é".repeat(40));
        assert_eq!(
            summarize_tool_args(tool, &object(vec![(key, text(&fits))])),
            Some(fits),
            "80 characters fit"
        );
    }
    let grep = object(vec![("pattern", text(&"p".repeat(60))), ("path", text(&deep))]);
    let summary = summarize_tool_args("Grep", &grep).expect("one");
    assert_eq!(summary.chars().count(), 80);
}
