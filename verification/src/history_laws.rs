//! What every digest of discarded steps promises: one line for each of them.

use crate::bytes::{ellipsized, lemma_floor, prefix_within};
use crate::digest::flattened;
use crate::digest_laws::{law_flattened_on_one_line, lemma_concat_on_one_line, on_one_line};
use crate::history::{
    digest_line, digest_lines, observed_message, outcome_detail, outcome_line, step_tool,
    steps_digest, OUTCOME_CHARS,
};
use crate::number::{decimal, lemma_decimal_digits};
use crate::observation::{StepObservationView, StepView};
use crate::text::{join, split, split_from, starts_with};
use vstd::prelude::*;

verus! {

proof fn lemma_split_plain(s: Seq<char>, current: Seq<char>)
    requires
        on_one_line(s),
    ensures
        split_from(s, '\n', current) == seq![current + s],
    decreases s.len(),
{
    if s.len() == 0 {
        assert(current + s =~= current);
    } else {
        assert(s.contains(s[0]));
        assert forall|i: int| 0 <= i < s.skip(1).len() implies #[trigger] s.skip(1)[i] != '\n' by {
            assert(s.contains(s[i + 1]));
        }
        lemma_split_plain(s.skip(1), current.push(s[0]));
        assert(current.push(s[0]) + s.skip(1) =~= current + s);
    }
}

proof fn lemma_split_concat(a: Seq<char>, b: Seq<char>, current: Seq<char>)
    ensures
        split_from(a + seq!['\n'] + b, '\n', current) == split_from(a, '\n', current) + split(
            b,
            '\n',
        ),
    decreases a.len(),
{
    let whole = a + seq!['\n'] + b;
    if a.len() == 0 {
        assert(whole.skip(1) =~= b);
    } else {
        assert(whole.skip(1) =~= a.skip(1) + seq!['\n'] + b);
        assert(whole[0] == a[0]);
        if a[0] == '\n' {
            lemma_split_concat(a.skip(1), b, seq![]);
            assert(seq![current] + (split_from(a.skip(1), '\n', seq![]) + split(b, '\n')) =~= (
            seq![current] + split_from(a.skip(1), '\n', seq![])) + split(b, '\n'));
        } else {
            lemma_split_concat(a.skip(1), b, current.push(a[0]));
        }
    }
}

/// Lines put together with line feeds come apart into the same lines.
pub proof fn lemma_split_join(parts: Seq<Seq<char>>)
    requires
        parts.len() > 0,
        forall|i: int| 0 <= i < parts.len() ==> on_one_line(#[trigger] parts[i]),
    ensures
        split(join(parts, "\n"@), '\n') == parts,
    decreases parts.len(),
{
    reveal_strlit("\n");
    if parts.len() == 1 {
        lemma_split_plain(parts[0], seq![]);
        assert(seq![Seq::<char>::empty() + parts[0]] =~= parts);
    } else {
        let front = parts.drop_last();
        assert forall|i: int| 0 <= i < front.len() implies on_one_line(#[trigger] front[i]) by {
            assert(front[i] == parts[i]);
        }
        lemma_split_join(front);
        assert("\n"@ =~= seq!['\n']);
        lemma_split_concat(join(front, "\n"@), parts.last(), seq![]);
        lemma_split_plain(parts.last(), seq![]);
        assert(Seq::<char>::empty() + parts.last() =~= parts.last());
        assert(front + seq![parts.last()] =~= parts);
    }
}

proof fn lemma_decimal_on_one_line(n: nat)
    ensures
        on_one_line(decimal(n)),
{
    lemma_decimal_digits(n);
}

proof fn lemma_ellipsized_on_one_line(s: Seq<char>, max: int)
    requires
        on_one_line(s),
    ensures
        on_one_line(ellipsized(s, max)),
{
    reveal_strlit("…");
    lemma_floor(s, max);
    lemma_concat_on_one_line(prefix_within(s, max), "…"@);
}

proof fn lemma_outcome_on_one_line(observation: Option<StepObservationView>)
    ensures
        on_one_line(outcome_line(observation)),
{
    reveal_strlit("ok");
    reveal_strlit("error");
    reveal_strlit(": ");
    reveal_strlit("ask_user: ");
    reveal_strlit("final: ");
    reveal_strlit("no observation");
    reveal_strlit("…");
    if let Some(seen) = observation {
        let line = flattened(observed_message(seen));
        law_flattened_on_one_line(observed_message(seen));
        let detail = outcome_detail(observed_message(seen));
        if line.len() > OUTCOME_CHARS {
            lemma_concat_on_one_line(line.take(OUTCOME_CHARS - 1), "…"@);
        }
        assert(on_one_line(detail));
        match seen {
            StepObservationView::Tool(t) => {
                let status = if t.ok {
                    "ok"@
                } else {
                    "error"@
                };
                lemma_concat_on_one_line(status, ": "@);
                lemma_concat_on_one_line(status + ": "@, detail);
            },
            StepObservationView::AskUser { .. } => {
                lemma_concat_on_one_line("ask_user: "@, detail);
            },
            StepObservationView::FinalMessage { .. } => {
                lemma_concat_on_one_line("final: "@, detail);
            },
        }
    }
}

proof fn lemma_line_on_one_line(step: StepView)
    ensures
        on_one_line(digest_line(step)),
{
    reveal_strlit("Step ");
    reveal_strlit(": ");
    reveal_strlit(" — ");
    let number = decimal(step.step_index as nat);
    let tool = flattened(step_tool(step));
    let reason = ellipsized(flattened(step.decision_reason), 80);
    lemma_decimal_on_one_line(step.step_index as nat);
    law_flattened_on_one_line(step_tool(step));
    law_flattened_on_one_line(step.decision_reason);
    lemma_ellipsized_on_one_line(flattened(step.decision_reason), 80);
    lemma_outcome_on_one_line(step.observation);
    lemma_concat_on_one_line("Step "@, number);
    lemma_concat_on_one_line("Step "@ + number, ": "@);
    lemma_concat_on_one_line("Step "@ + number + ": "@, tool);
    lemma_concat_on_one_line("Step "@ + number + ": "@ + tool, " — "@);
    lemma_concat_on_one_line("Step "@ + number + ": "@ + tool + " — "@, reason);
    lemma_concat_on_one_line("Step "@ + number + ": "@ + tool + " — "@ + reason, " — "@);
    lemma_concat_on_one_line(
        "Step "@ + number + ": "@ + tool + " — "@ + reason + " — "@,
        outcome_line(step.observation),
    );
}

proof fn lemma_digest_lines(count: nat, steps: Seq<StepView>)
    ensures
        digest_lines(count, steps).len() == steps.len() + 1,
        digest_lines(count, steps)[0] == "[Compact summary — "@ + decimal(count)
            + " steps discarded]"@,
        forall|i: int|
            0 <= i < steps.len() ==> #[trigger] digest_lines(count, steps)[i + 1] == digest_line(
                steps[i],
            ),
        forall|i: int|
            0 <= i <= steps.len() ==> on_one_line(#[trigger] digest_lines(count, steps)[i]),
    decreases steps.len(),
{
    if steps.len() == 0 {
        reveal_strlit("[Compact summary — ");
        reveal_strlit(" steps discarded]");
        lemma_decimal_on_one_line(count);
        lemma_concat_on_one_line("[Compact summary — "@, decimal(count));
        lemma_concat_on_one_line("[Compact summary — "@ + decimal(count), " steps discarded]"@);
    } else {
        let front = steps.drop_last();
        lemma_digest_lines(count, front);
        lemma_line_on_one_line(steps.last());
        let before = digest_lines(count, front);
        let all = digest_lines(count, steps);
        assert forall|i: int| 0 <= i < steps.len() implies #[trigger] all[i + 1] == digest_line(
            steps[i],
        ) by {
            if i < front.len() {
                assert(before[i + 1] == digest_line(front[i]));
            }
        }
        assert forall|i: int| 0 <= i <= steps.len() implies on_one_line(#[trigger] all[i]) by {
            if i <= front.len() {
                assert(on_one_line(before[i]));
            }
        }
    }
}

/// The digest of discarded steps is a headline and one line for each step, in their
/// order; the line on a step begins with its number.
pub proof fn law_one_line_for_each_step(steps: Seq<StepView>)
    ensures
        ({
            let lines = split(steps_digest(steps), '\n');
            &&& lines.len() == steps.len() + 1
            &&& lines[0] == "[Compact summary — "@ + decimal(steps.len()) + " steps discarded]"@
            &&& forall|i: int|
                0 <= i < steps.len() ==> #[trigger] lines[i + 1] == digest_line(steps[i])
                    && starts_with(
                    lines[i + 1],
                    "Step "@ + decimal(steps[i].step_index as nat) + ": "@,
                )
        }),
{
    let parts = digest_lines(steps.len(), steps);
    lemma_digest_lines(steps.len(), steps);
    lemma_split_join(parts);
    assert forall|i: int| 0 <= i < steps.len() implies starts_with(
        #[trigger] parts[i + 1],
        "Step "@ + decimal(steps[i].step_index as nat) + ": "@,
    ) by {
        let begin = "Step "@ + decimal(steps[i].step_index as nat) + ": "@;
        assert(parts[i + 1] == digest_line(steps[i]));
        assert(parts[i + 1].subrange(0, begin.len() as int) =~= begin);
    }
}

/// An outcome's message of at most 200 characters stands in the digest whole, and of
/// a longer one no more than 200 characters do.
pub proof fn law_outcome_is_short(message: Seq<char>)
    ensures
        outcome_detail(message).len() <= 200,
        flattened(message).len() <= 200 ==> outcome_detail(message) == flattened(message),
{
    reveal_strlit("…");
}

} // verus!
