//! What holds of every route.

use crate::catalog::{filtered_candidates, with_enabled};
use crate::classifier::ClassifierView;
use crate::classify::{classified, pre_classified, RequestFacts};
use crate::route::{EscalationAction, EscalationReason, RouteResultView};
use vstd::prelude::*;

verus! {

/// Every tool is enabled and none occurs twice.
pub open spec fn enabled_once(tools: Seq<Seq<char>>, enabled: Seq<Seq<char>>) -> bool {
    &&& forall|i: int| 0 <= i < tools.len() ==> enabled.contains(#[trigger] tools[i])
    &&& forall|i: int, j: int|
        0 <= i < j < tools.len() ==> #[trigger] tools[i] != #[trigger] tools[j]
}

proof fn lemma_with_enabled(
    list: Seq<Seq<char>>,
    names: Seq<Seq<char>>,
    enabled: Seq<Seq<char>>,
)
    requires
        enabled_once(list, enabled),
    ensures
        enabled_once(with_enabled(list, names, enabled), enabled),
    decreases names.len(),
{
    if names.len() > 0 {
        lemma_with_enabled(list, names.drop_last(), enabled);
        let before = with_enabled(list, names.drop_last(), enabled);
        let after = with_enabled(list, names, enabled);
        if enabled.contains(names.last()) && !before.contains(names.last()) {
            assert forall|i: int, j: int| 0 <= i < j < after.len() implies #[trigger] after[i]
                != #[trigger] after[j] by {
                assert(after[i] == before[i]);
                if j < before.len() {
                    assert(after[j] == before[j]);
                }
            }
        }
    }
}

proof fn lemma_filtered(
    preferred: Option<Seq<char>>,
    seeds: Seq<Seq<char>>,
    enabled: Seq<Seq<char>>,
)
    ensures
        enabled_once(filtered_candidates(preferred, seeds, enabled), enabled),
{
    let none = Seq::<Seq<char>>::empty();
    assert(enabled_once(none, enabled));
    if let Some(p) = preferred {
        lemma_with_enabled(none, seq![p], enabled);
        lemma_with_enabled(with_enabled(none, seq![p], enabled), seeds, enabled);
    } else {
        lemma_with_enabled(none, seeds, enabled);
    }
}

proof fn lemma_all_filtered(enabled: Seq<Seq<char>>)
    ensures
        forall|preferred: Option<Seq<char>>, seeds: Seq<Seq<char>>|
            enabled_once(#[trigger] filtered_candidates(preferred, seeds, enabled), enabled),
{
    assert forall|preferred: Option<Seq<char>>, seeds: Seq<Seq<char>>| enabled_once(
        #[trigger] filtered_candidates(preferred, seeds, enabled),
        enabled,
    ) by {
        lemma_filtered(preferred, seeds, enabled);
    }
}

/// A route into the tool loop offers only enabled tools, each once; an escalation
/// offers none.
pub proof fn law_candidates_are_enabled(context: ClassifierView, q: RequestFacts)
    ensures
        match classified(context, q) {
            RouteResultView::Direct { decision, .. } => enabled_once(
                decision.candidate_tools,
                context.enabled,
            ),
            RouteResultView::Escalate { decision, .. } => decision.candidate_tools.len() == 0,
        },
{
    lemma_all_filtered(context.enabled);
}

/// Where no model routes, every request is settled.
pub proof fn law_settled_without_router(context: ClassifierView, q: RequestFacts)
    requires
        !context.has_router,
    ensures
        pre_classified(context, q) is Some,
{
}

/// An escalation asks for more where arguments are missing, and falls back to an
/// answer where no tool is enabled; there are no other escalations.
pub proof fn law_escalations(context: ClassifierView, q: RequestFacts)
    ensures
        classified(context, q) matches RouteResultView::Escalate { decision, reason, action } ==> {
            ||| reason == EscalationReason::MissingArguments && action
                == EscalationAction::AskForMoreInfo && decision.missing_arguments.len() > 0
            ||| reason == EscalationReason::NoEnabledRouteTarget && action
                == EscalationAction::FallbackAnswer && decision.missing_arguments.len() == 0
        },
{
}

} // verus!
