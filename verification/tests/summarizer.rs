use roku_agent_runtime::digest::validate_structured_summary;
use roku_agent_runtime::message::Message;
use roku_agent_runtime::summarizer::{
    begin_structured_summary, compact_messages_with_structured_summary, extract_summary_text,
    remote_succeeded, RemoteReply, StructuredCompactError, StructuredCompactOutcome,
    SummarizerReply, MAX_DROP_OLDEST_RETRIES,
};

fn user(content: &str) -> Message {
    Message::User { content: content.to_string() }
}

fn assistant(text: &str) -> Message {
    Message::Assistant { text: text.to_string(), tool_calls: vec![] }
}

fn valid_structured_summary() -> String {
    "Goal: Finish the task.\n\
     Accomplished:\n- Step A done\n- Step B done\n\
     Key Decisions:\n- Use approach X\n\
     Relevant Files:\n- src/lib.rs\n"
        .to_string()
}

fn ok_response(text: &str) -> SummarizerReply {
    SummarizerReply::Generated { prompt_tokens: 50, output_tokens: 30, text: text.to_string() }
}

fn context_exceeded_error() -> SummarizerReply {
    SummarizerReply::ContextWindowExceeded
}

fn twelve_messages() -> Vec<Message> {
    let mut messages = vec![user("initial goal")];
    for i in 0..5 {
        messages.push(assistant(&format!("step {i}")));
        messages.push(user(&format!("user reply {i}")));
    }
    messages.push(assistant("final step"));
    messages
}

fn summarize(
    messages: &mut Vec<Message>,
    replies: Vec<SummarizerReply>,
) -> StructuredCompactOutcome {
    compact_messages_with_structured_summary(messages, 4, RemoteReply::Unsupported, &replies)
}

fn second(messages: &[Message]) -> &str {
    match &messages[1] {
        Message::User { content } => content,
        _ => panic!("messages[1] should be a User message"),
    }
}

#[test]
fn structured_summary_inserts_summary_on_success() {
    let mut messages = twelve_messages();
    assert_eq!(messages.len(), 12);

    let outcome = summarize(&mut messages, vec![ok_response(&valid_structured_summary())]);

    assert!(outcome.succeeded, "should succeed on valid summary");
    assert_eq!(outcome.error, None);
    assert_eq!(outcome.drop_oldest_retries, 0);
    assert_eq!(messages.len(), 6, "expected 6 messages after compaction");
    assert!(
        second(&messages).contains("[Conversation summary]"),
        "messages[1] should be the summary"
    );
    assert!(
        validate_structured_summary(second(&messages)),
        "summary should contain all required sections"
    );
    assert_eq!((outcome.prompt_tokens, outcome.output_tokens), (50, 30));
}

#[test]
fn structured_summary_falls_back_on_contract_violation() {
    let mut messages = twelve_messages();
    let outcome = summarize(&mut messages, vec![ok_response("I cannot summarize this.")]);

    assert!(!outcome.succeeded);
    assert_eq!(outcome.error, Some(StructuredCompactError::ContractViolation));
    assert_eq!(outcome.drop_oldest_retries, 0);
    assert!(
        second(&messages).contains("messages compacted"),
        "fallback should contain 'messages compacted', got: {}",
        second(&messages)
    );
}

#[test]
fn structured_summary_retries_on_context_window_exceeded() {
    let mut messages = twelve_messages();
    let outcome = summarize(
        &mut messages,
        vec![
            context_exceeded_error(),
            context_exceeded_error(),
            ok_response(&valid_structured_summary()),
        ],
    );

    assert!(outcome.succeeded, "should succeed after retries");
    assert_eq!(outcome.drop_oldest_retries, 2);
    assert!(validate_structured_summary(second(&messages)));
}

#[test]
fn structured_summary_gives_up_after_max_drop_oldest_retries() {
    let mut messages = twelve_messages();
    let outcome = summarize(
        &mut messages,
        vec![
            context_exceeded_error(),
            context_exceeded_error(),
            context_exceeded_error(),
            context_exceeded_error(),
        ],
    );

    assert!(!outcome.succeeded);
    assert_eq!(outcome.error, Some(StructuredCompactError::OverflowAfterRetries));
    assert_eq!(outcome.drop_oldest_retries, MAX_DROP_OLDEST_RETRIES);
    assert!(
        second(&messages).contains("messages compacted"),
        "fallback should be inserted even after overflow, got: {}",
        second(&messages)
    );
}

#[test]
fn remote_compact_error_returns_failed_outcome_without_generate_call() {
    let mut messages = twelve_messages();
    let before_len = messages.len();
    // A reply that would succeed shows that no summary call counts.
    let outcome = compact_messages_with_structured_summary(
        &mut messages,
        4,
        RemoteReply::Failed,
        &vec![ok_response(&valid_structured_summary())],
    );

    assert!(!outcome.succeeded, "remote compact error must yield succeeded=false");
    assert_eq!(
        outcome.prompt_tokens, 0,
        "no prompt_tokens should be charged on remote compact error"
    );
    assert!(
        outcome.error.is_some(),
        "error field must be populated on remote compact error"
    );
    assert!(
        messages.len() < before_len,
        "messages must be shorter after failed remote compact (mechanical fallback inserted)"
    );
}

#[test]
fn remote_compact_empty_output_returns_failed_outcome_without_generate_call() {
    let mut messages = twelve_messages();
    let before_len = messages.len();
    let outcome = compact_messages_with_structured_summary(
        &mut messages,
        4,
        RemoteReply::Output { messages: Vec::new(), prompt_tokens: 9, output_tokens: 9 },
        &vec![ok_response(&valid_structured_summary())],
    );

    assert!(!outcome.succeeded, "empty remote compact output must yield succeeded=false");
    assert_eq!(
        outcome.prompt_tokens, 0,
        "no prompt_tokens should be charged for empty remote compact output"
    );
    assert!(
        outcome.error.is_some(),
        "error field must be populated for empty remote compact output"
    );
    assert!(
        messages.len() < before_len,
        "messages must be shorter after empty remote compact (mechanical fallback inserted)"
    );
}

#[test]
fn remote_compact_success_still_works() {
    let mut messages = twelve_messages();
    let outcome = compact_messages_with_structured_summary(
        &mut messages,
        4,
        RemoteReply::Output {
            messages: vec![user(
                "[Conversation summary]\nGoal: test\nAccomplished:\n- done\nKey Decisions:\n- none\nRelevant Files:\n- src/lib.rs\n",
            )],
            prompt_tokens: 100,
            output_tokens: 20,
        },
        &Vec::new(),
    );

    assert!(outcome.succeeded, "remote compact success must yield succeeded=true");
    assert_eq!(outcome.error, None);
    assert_eq!(outcome.prompt_tokens, 100);
    assert_eq!(outcome.output_tokens, 20);
    assert!(outcome.summary_text.expect("a summary").starts_with("Goal: test"));
}

#[test]
fn non_remote_compact_provider_still_calls_generate() {
    let mut messages = twelve_messages();
    let outcome = summarize(&mut messages, vec![ok_response(&valid_structured_summary())]);
    assert!(
        outcome.succeeded,
        "non-compact provider path must still call generate() and succeed"
    );
}

#[test]
fn extract_summary_text_strips_conversation_summary_marker_and_joins_messages() {
    let messages = vec![user("[Conversation summary]\nGoal: X\nAccomplished: -")];
    let out = extract_summary_text(&messages).expect("summary text present");
    assert_eq!(out, "Goal: X\nAccomplished: -");

    let multi = vec![user("first"), assistant("second")];
    let out = extract_summary_text(&multi).expect("summary text present");
    assert_eq!(out, "first\nsecond");

    let empty = vec![user("")];
    assert!(extract_summary_text(&empty).is_none(), "empty content must yield None");
}

#[test]
fn a_failed_or_blank_summary_is_a_provider_failure() {
    for reply in [SummarizerReply::Failed, ok_response(" \n ")] {
        let mut messages = twelve_messages();
        let outcome = summarize(&mut messages, vec![reply]);
        assert_eq!(outcome.error, Some(StructuredCompactError::ProviderFailure));
        assert_eq!(messages.len(), 6);
    }
}

#[test]
fn a_short_buffer_is_left_alone() {
    let mut messages = vec![user("goal"), assistant("hi")];
    let outcome = summarize(&mut messages, vec![ok_response(&valid_structured_summary())]);
    assert!(!outcome.succeeded);
    assert_eq!(outcome.error, None);
    assert_eq!(outcome.summary_text, None);
    assert_eq!(messages.len(), 2);
}

#[test]
fn the_prompt_covers_what_is_left() {
    let messages = twelve_messages();
    let mut job = begin_structured_summary(&messages, 4).expect("there is something to do");
    let first = job.next_prompt().expect("a prompt");
    assert!(first.contains("step 0"));
    assert!(job.absorb(&context_exceeded_error()).is_none());
    let second = job.next_prompt().expect("a prompt");
    assert!(!second.contains("step 0"), "the oldest half is left out");
    assert!(second.len() < first.len());
}

#[test]
fn thinking_is_not_summarized() {
    let mut messages = twelve_messages();
    messages[1] = assistant("<thinking>secret</thinking>step 0");
    let outcome = summarize(&mut messages, vec![SummarizerReply::Failed]);
    assert_eq!(outcome.thinking_stripped, 1);
    assert!(!second(&messages).contains("secret"));
}

#[test]
fn an_endpoint_without_output_has_failed() {
    assert_eq!(remote_succeeded(&RemoteReply::Unsupported), None);
    assert_eq!(remote_succeeded(&RemoteReply::Failed), Some(false));
    let output = |messages: Vec<Message>| RemoteReply::Output {
        messages,
        prompt_tokens: 1,
        output_tokens: 1,
    };
    assert_eq!(remote_succeeded(&output(Vec::new())), Some(false));
    let summary = Message::User { content: "summary".to_string() };
    assert_eq!(remote_succeeded(&output(vec![summary])), Some(true));
}

fn buffer(count: usize) -> Vec<Message> {
    (0..count).map(|i| user(&format!("message {i}"))).collect()
}

#[test]
fn a_single_message_is_not_replaced() {
    let mut messages = buffer(4);
    let outcome = compact_messages_with_structured_summary(
        &mut messages,
        2,
        RemoteReply::Unsupported,
        &vec![SummarizerReply::Failed],
    );
    assert_eq!(messages.len(), 4);
    assert_eq!(outcome.discarded_count, 0);
    assert!(outcome.error.is_none() && outcome.summary_text.is_none());
}

#[test]
fn a_single_message_gives_way_to_a_summary() {
    let summary = valid_structured_summary();
    let mut messages = buffer(4);
    let outcome = compact_messages_with_structured_summary(
        &mut messages,
        2,
        RemoteReply::Unsupported,
        &vec![ok_response(&summary)],
    );
    assert!(outcome.succeeded);
    assert_eq!(outcome.discarded_count, 1);
    assert_eq!(outcome.summary_text, Some(summary.clone()));
    assert_eq!(messages.len(), 4);
    assert_eq!(second(&messages), format!("[Conversation summary]\n{summary}"));

    let mut messages = buffer(4);
    let remote = RemoteReply::Output {
        messages: vec![user("[Conversation summary]\nso far")],
        prompt_tokens: 5,
        output_tokens: 2,
    };
    let outcome = compact_messages_with_structured_summary(&mut messages, 2, remote, &Vec::new());
    assert!(outcome.succeeded);
    assert_eq!(outcome.summary_text.as_deref(), Some("so far"));
    assert_eq!(messages.len(), 4);
}

#[test]
fn a_single_message_keeps_its_thinking_where_the_summary_fails() {
    let text = "<thinking>why</thinking>because";
    let mut messages = vec![user("goal"), assistant(text), user("a"), user("b")];
    let outcome = compact_messages_with_structured_summary(
        &mut messages,
        2,
        RemoteReply::Unsupported,
        &vec![ok_response("no sections")],
    );
    assert!(!outcome.succeeded && outcome.error.is_none());
    assert_eq!((outcome.prompt_tokens, outcome.output_tokens), (50, 30));
    assert_eq!(outcome.thinking_stripped, 0);
    assert!(matches!(&messages[1], Message::Assistant { text: kept, .. } if kept == text));
}

#[test]
fn every_failure_shrinks_the_buffer() {
    let replies: Vec<(RemoteReply, Vec<SummarizerReply>)> = vec![
        (RemoteReply::Unsupported, vec![SummarizerReply::Failed]),
        (RemoteReply::Unsupported, vec![context_exceeded_error(), context_exceeded_error()]),
        (RemoteReply::Failed, Vec::new()),
    ];
    for (remote, replies) in replies {
        let mut messages = buffer(5);
        let outcome =
            compact_messages_with_structured_summary(&mut messages, 2, remote, &replies);
        assert!(outcome.error.is_some());
        assert_eq!(messages.len(), 4, "two messages gave way to one");
    }
}

#[test]
fn an_endpoint_whose_messages_have_no_text_has_failed() {
    let blank = || RemoteReply::Output {
        messages: vec![user(""), assistant("")],
        prompt_tokens: 9,
        output_tokens: 9,
    };
    assert_eq!(remote_succeeded(&blank()), Some(false));
    let mut messages = buffer(6);
    let outcome = compact_messages_with_structured_summary(&mut messages, 2, blank(), &Vec::new());
    assert!(!outcome.succeeded);
    assert_eq!(outcome.error, Some(StructuredCompactError::ProviderFailure));
    assert_eq!(outcome.discarded_count, 3);
    assert!(outcome.summary_text.expect("the digest").starts_with("[3 messages compacted]"));
    assert_eq!(messages.len(), 4);
}
