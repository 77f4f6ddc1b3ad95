//! The prompt that asks a model for the next step of a loop over the filesystem.

use crate::filesystem_step::{filesystem_required_argument_keys, required_keys};
use crate::json::{FieldView, Json, JsonField, JsonView};
use crate::json_build::{
    array_value, field, fields_view, lemma_with_field_ordered, object_value, ordered, push_field,
    set_field, text_array, with_field,
};
use crate::json_indent::{fits, indent_json, indented, lemma_with_field_fits, sorted};
use crate::json_text::plain;
use crate::order::lemma_before_irreflexive;
use crate::state::LoopState;
use crate::text::{opt_str_view, views};
use vstd::prelude::*;

verus! {

/// What one tool needs.
pub open spec fn requirement(tool: Seq<char>) -> JsonView {
    JsonView::Object(seq![field("required_arguments"@, text_array(required_keys(tool)))])
}

/// What each of the tools needs, by name.
pub open spec fn requirements(tools: Seq<Seq<char>>) -> Seq<FieldView>
    decreases tools.len(),
{
    if tools.len() == 0 {
        seq![]
    } else {
        with_field(
            requirements(tools.drop_last()),
            field(tools.last(), requirement(tools.last())),
        )
    }
}

/// A list of texts can be indented.
proof fn lemma_texts_fit(texts: Seq<Seq<char>>, depth: nat)
    requires
        depth > 0,
    ensures
        fits(text_array(texts), depth),
{
    reveal_with_fuel(plain, 2);
    reveal_with_fuel(sorted, 2);
}

proof fn lemma_requirement_fits(tool: Seq<char>)
    ensures
        fits(requirement(tool), 99),
{
    lemma_texts_fit(required_keys(tool), 98);
    let fields = requirement(tool)->Object_0;
    assert(fields[0].value == text_array(required_keys(tool)));
}

/// The requirements of the tools can be indented: they stand in the order of the
/// tools' names, each name once.
proof fn lemma_requirements_fit(tools: Seq<Seq<char>>)
    ensures
        ordered(requirements(tools)),
        forall|i: int|
            0 <= i < requirements(tools).len() ==> fits(
                (#[trigger] requirements(tools)[i]).value,
                99,
            ),
        fits(JsonView::Object(requirements(tools)), 100),
    decreases tools.len(),
{
    if tools.len() > 0 {
        let before = requirements(tools.drop_last());
        let own = field(tools.last(), requirement(tools.last()));
        lemma_requirements_fit(tools.drop_last());
        lemma_requirement_fits(tools.last());
        lemma_with_field_ordered(before, own);
        lemma_with_field_fits(before, own, 99);
    }
    let fields = requirements(tools);
    assert forall|i: int, j: int| 0 <= i < j < fields.len() implies (#[trigger] fields[i]).name != (
    #[trigger] fields[j]).name by {
        lemma_before_irreflexive(fields[i].name);
    }
    assert forall|i: int| 0 <= i < fields.len() implies #[trigger] plain(fields[i].value, 99) by {
        assert(fits(fields[i].value, 99));
    }
    assert forall|i: int| 0 <= i < fields.len() implies #[trigger] sorted(fields[i].value) by {
        assert(fits(fields[i].value, 99));
    }
}

pub fn filesystem_tool_requirements(visible_tools: &Vec<String>) -> (r: Json)
    ensures
        r@ == JsonView::Object(requirements(views(visible_tools@))),
{
    let ghost all = views(visible_tools@);
    let mut fields: Vec<JsonField> = Vec::new();
    let mut i: usize = 0;
    assert(all.take(0) =~= seq![]);
    assert(fields_view(fields@) =~= seq![]);
    while i < visible_tools.len()
        invariant
            i <= visible_tools.len(),
            all == views(visible_tools@),
            fields_view(fields@) == requirements(all.take(i as int)),
        decreases visible_tools.len() - i,
    {
        assert(all.take(i + 1).drop_last() =~= all.take(i as int));
        assert(all.take(i + 1).last() == visible_tools@[i as int]@);
        let keys: Vec<String> = filesystem_required_argument_keys(visible_tools[i].as_str());
        let mut own: Vec<JsonField> = Vec::new();
        push_field(&mut own, "required_arguments", array_value(&keys));
        assert(fields_view(own@) =~= requirement(all[i as int])->Object_0);
        set_field(&mut fields, visible_tools[i].as_str(), object_value(own));
        i = i + 1;
    }
    assert(all.take(i as int) =~= all);
    object_value(fields)
}

/// What the prompt says before the loop's own state.
pub const PROMPT_RULES: &'static str = "Return only JSON with exactly these keys:
{
  \"action\": \"call_tool | ask_user | final_answer | fail\",
  \"tool_name\": \"visible tool name or null\",
  \"arguments\": { },
  \"reason\": \"short explanation\",
  \"final_message\": \"message or null\"
}

Rules:
- Only use a tool from `visible_tools`.
- `call_tool` is the only action that may set `tool_name`.
- `call_tool` should not use `final_message`; if you include it anyway, the runtime will ignore it.
- Every `call_tool` decision must include all required argument keys for the selected tool.
- Prefer `fs.find` before `fs.read_text` or `fs.exists` when the user only gave a basename and no explicit path.
- Use `ask_user` when the last observation reports multiple candidates.
- Use `final_answer` after a successful filesystem observation that already satisfies the user request.
- Use `final_answer` for user-facing negative results like path_not_found or workspace_violation.

Visible tools:
";

/// How the rules begin.
pub proof fn lemma_rules_begin()
    ensures
        PROMPT_RULES@.len() >= "Return only JSON with exactly these keys:"@.len(),
        PROMPT_RULES@.subrange(0, "Return only JSON with exactly these keys:"@.len() as int)
            == "Return only JSON with exactly these keys:"@,
{
    reveal_strlit("Return only JSON with exactly these keys:");
    reveal_strlit(
        "Return only JSON with exactly these keys:
{
  \"action\": \"call_tool | ask_user | final_answer | fail\",
  \"tool_name\": \"visible tool name or null\",
  \"arguments\": { },
  \"reason\": \"short explanation\",
  \"final_message\": \"message or null\"
}

Rules:
- Only use a tool from `visible_tools`.
- `call_tool` is the only action that may set `tool_name`.
- `call_tool` should not use `final_message`; if you include it anyway, the runtime will ignore it.
- Every `call_tool` decision must include all required argument keys for the selected tool.
- Prefer `fs.find` before `fs.read_text` or `fs.exists` when the user only gave a basename and no explicit path.
- Use `ask_user` when the last observation reports multiple candidates.
- Use `final_answer` after a successful filesystem observation that already satisfies the user request.
- Use `final_answer` for user-facing negative results like path_not_found or workspace_violation.

Visible tools:
",
    );
    assert(PROMPT_RULES@.subrange(0, "Return only JSON with exactly these keys:"@.len() as int)
        =~= "Return only JSON with exactly these keys:"@);
}

pub open spec fn or_null(text: Option<Seq<char>>) -> Seq<char> {
    match text {
        Some(text) => text,
        None => "null"@,
    }
}

/// The prompt for the next step, given the route decision and the last observation
/// as JSON.
pub open spec fn step_prompt(
    state: LoopState,
    reply: Option<Seq<char>>,
    route_decision: Seq<char>,
    last_observation: Option<Seq<char>>,
) -> Seq<char> {
    let tools = views(state.visible_tools@);
    PROMPT_RULES@ + indented(text_array(tools), 0) + "\n\nTool requirements:\n"@ + indented(
        JsonView::Object(requirements(tools)),
        0,
    ) + "\n\nCurrent working directory:\n"@ + state.working_directory@ + "\n\nGoal:\n"@
        + state.goal@ + "\n\nRoute decision:\n"@ + route_decision + "\n\nLast observation:\n"@
        + or_null(last_observation) + "\n\nCurrent user follow-up:\n"@ + or_null(reply)
}

pub fn filesystem_next_step_prompt(
    loop_state: &LoopState,
    user_reply: Option<&str>,
    route_decision: &str,
    last_observation: Option<&str>,
) -> (r: String)
    ensures
        r@ == step_prompt(
            *loop_state,
            opt_str_view(user_reply),
            route_decision@,
            opt_str_view(last_observation),
        ),
{
    proof {
        lemma_texts_fit(views(loop_state.visible_tools@), 100);
        lemma_requirements_fit(views(loop_state.visible_tools@));
    }
    let tools: String = indent_json(&array_value(&loop_state.visible_tools));
    let needs: String = indent_json(&filesystem_tool_requirements(&loop_state.visible_tools));
    let mut out: String = PROMPT_RULES.to_owned();
    out.append(tools.as_str());
    out.append("\n\nTool requirements:\n");
    out.append(needs.as_str());
    out.append("\n\nCurrent working directory:\n");
    out.append(loop_state.working_directory.as_str());
    out.append("\n\nGoal:\n");
    out.append(loop_state.goal.as_str());
    out.append("\n\nRoute decision:\n");
    out.append(route_decision);
    out.append("\n\nLast observation:\n");
    match last_observation {
        Some(text) => out.append(text),
        None => out.append("null"),
    }
    out.append("\n\nCurrent user follow-up:\n");
    match user_reply {
        Some(text) => out.append(text),
        None => out.append("null"),
    }
    out
}

} // verus!
