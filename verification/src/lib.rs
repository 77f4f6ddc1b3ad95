//! Decision core of the Roku agent runtime.
//!
//! Everything in this crate is deterministic: clocks, files, processes, model
//! calls and tool calls happen in the surrounding program, which hands their
//! results to these functions as plain values.

pub mod action_words;
pub mod approval;
pub mod approval_laws;
pub mod ask_user;
pub mod attempt;
pub mod buffer_laws;
pub mod bytes;
pub mod cache_break;
pub mod candidates;
pub mod catalog;
pub mod classifier;
pub mod classify;
pub mod classify_laws;
pub mod compact;
pub mod compact_laws;
pub mod compaction;
pub mod config;
pub mod config_laws;
pub mod decision;
pub mod decision_laws;
pub mod digest;
pub mod digest_laws;
pub mod digest_line_laws;
pub mod dispatch;
pub mod environment;
pub mod estimate;
pub mod events;
pub mod factory;
pub mod filesystem;
pub mod filesystem_laws;
pub mod filesystem_prompt;
pub mod filesystem_step;
pub mod grounding;
pub mod history;
pub mod history_laws;
pub mod json;
pub mod json_build;
pub mod json_indent;
pub mod json_laws;
pub mod json_text;
pub mod literal;
pub mod loop_event;
pub mod loop_event_laws;
pub mod loop_laws;
pub mod message;
pub mod number;
pub mod observation;
pub mod order;
pub mod path;
pub mod pressure;
pub mod pressure_laws;
pub mod projection;
pub mod question_laws;
pub mod record_laws;
pub mod reference_laws;
pub mod request_laws;
pub mod result;
pub mod resume;
pub mod route;
pub mod route_laws;
pub mod shown_laws;
pub mod snippet;
pub mod split;
pub mod start;
pub mod state;
pub mod status_result;
pub mod stream;
pub mod summarizer;
pub mod summarizer_laws;
pub mod task;
pub mod task_laws;
pub mod task_tools;
pub mod terminal;
pub mod text;
pub mod text_laws;
pub mod tokens;
pub mod tool_call_laws;
pub mod tool_calls;
pub mod tool_loop;
pub mod tool_loop_laws;
pub mod trace;
pub mod trim;
pub mod turn;
pub mod turn_laws;
pub mod visible;
pub mod wording_laws;
pub mod workers;
