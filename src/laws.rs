//! What holds of whole runs, proved over the state machine's model.
use vstd::prelude::*;
use crate::execution::{
    ActionModel, ExecutionModel, action_of, after, event_of, fragment_for, initial, is_finished,
    remaining, trace,
};
use crate::prompt::{cleaned, lemma_collapsed_has_no_double_braces, no_double_braces, trim};
use crate::result::ResultModel;

verus! {

/// Every step from `from` up to (not including) `to` succeeds.
pub open spec fn all_succeed(outcomes: Seq<Option<ResultModel>>, from: int, to: int) -> bool {
    forall|i: int| from <= i < to ==> (#[trigger] outcomes[i]) is Some
}

proof fn lemma_trace_of_successes(s: ExecutionModel, outcomes: Seq<Option<ResultModel>>)
    requires
        !s.failed,
        s.next <= s.total,
        s.total <= outcomes.len(),
        all_succeed(outcomes, s.next as int, s.total as int),
    ensures
        trace(s, outcomes).len() == s.total - s.next + 1,
        forall|i: int|
            0 <= i < s.total - s.next ==> #[trigger] trace(s, outcomes)[i] == (ActionModel::Execute {
                step: (s.next + i) as nat,
                fragment: fragment_for(
                    if i == 0 {
                        s.response
                    } else {
                        outcomes[s.next + i - 1]->0.content
                    },
                ),
            }),
        trace(s, outcomes).last() == ActionModel::Complete(
            if s.next < s.total {
                outcomes[s.total - 1]->0
            } else {
                s.result
            },
        ),
    decreases s.total - s.next,
{
    if s.next < s.total {
        let t = after(s, event_of(outcomes[s.next as int]));
        lemma_trace_of_successes(t, outcomes);
        let tr = trace(s, outcomes);
        let tt = trace(t, outcomes);
        assert(tr == seq![action_of(s)] + tt);
        assert forall|i: int| 0 <= i < s.total - s.next implies #[trigger] tr[i] == (
        ActionModel::Execute {
            step: (s.next + i) as nat,
            fragment: fragment_for(
                if i == 0 {
                    s.response
                } else {
                    outcomes[s.next + i - 1]->0.content
                },
            ),
        }) by {
            if i > 0 {
                assert(tr[i] == tt[i - 1]);
            }
        }
    }
}

/// When every step succeeds, the run executes the steps in order and then
/// completes with the result of the last step; no earlier result is returned.
pub proof fn lemma_all_succeed_returns_last(
    name: Seq<char>,
    outcomes: Seq<Option<ResultModel>>,
)
    requires
        outcomes.len() >= 1,
        all_succeed(outcomes, 0, outcomes.len() as int),
    ensures
        trace(initial(name, outcomes.len()), outcomes).len() == outcomes.len() + 1,
        forall|i: int|
            0 <= i < outcomes.len() ==> (#[trigger] trace(initial(name, outcomes.len()), outcomes)[i]) is Execute,
        trace(initial(name, outcomes.len()), outcomes).last() == ActionModel::Complete(
            outcomes.last()->0,
        ),
{
    lemma_trace_of_successes(initial(name, outcomes.len()), outcomes);
}

/// A run of no steps completes at once with the empty result named after the chain.
pub proof fn lemma_empty_pipeline_completes(name: Seq<char>, outcomes: Seq<Option<ResultModel>>)
    ensures
        trace(initial(name, 0), outcomes) == seq![
            ActionModel::Complete(ResultModel { name, content: Seq::empty() }),
        ],
{
}

/// Step `k` is asked for together with the cleaned output of step `k - 1`,
/// wrapped as a user turn; that fragment holds no `{{` or `}}` of the output.
/// An empty output adds no fragment.
pub proof fn lemma_output_threaded_to_next_step(
    name: Seq<char>,
    outcomes: Seq<Option<ResultModel>>,
    k: int,
)
    requires
        1 <= k < outcomes.len(),
        all_succeed(outcomes, 0, k),
    ensures
        trace(initial(name, outcomes.len()), outcomes)[k] == (ActionModel::Execute {
            step: k as nat,
            fragment: fragment_for(outcomes[k - 1]->0.content),
        }),
        outcomes[k - 1]->0.content.len() > 0 ==> fragment_for(outcomes[k - 1]->0.content) == Some(
            "{{#user}}"@ + cleaned(outcomes[k - 1]->0.content, true) + "{{/user}}"@,
        ),
        no_double_braces(cleaned(outcomes[k - 1]->0.content, true)),
{
    let s = initial(name, outcomes.len());
    lemma_prefix_trace(s, outcomes, k);
    lemma_collapsed_has_no_double_braces(trim(outcomes[k - 1]->0.content));
}

proof fn lemma_prefix_trace(s: ExecutionModel, outcomes: Seq<Option<ResultModel>>, k: int)
    requires
        !s.failed,
        s.next < k < s.total,
        s.total <= outcomes.len(),
        all_succeed(outcomes, s.next as int, k),
    ensures
        trace(s, outcomes).len() > k - s.next,
        trace(s, outcomes)[k - s.next] == (ActionModel::Execute {
            step: k as nat,
            fragment: fragment_for(outcomes[k - 1]->0.content),
        }),
    decreases k - s.next,
{
    let t = after(s, event_of(outcomes[s.next as int]));
    assert(trace(s, outcomes) == seq![action_of(s)] + trace(t, outcomes));
    if t.next < k {
        lemma_prefix_trace(t, outcomes, k);
    }
}

proof fn lemma_trace_to_failure(s: ExecutionModel, outcomes: Seq<Option<ResultModel>>, k: int)
    requires
        !s.failed,
        s.next <= k < s.total,
        s.total <= outcomes.len(),
        all_succeed(outcomes, s.next as int, k),
        outcomes[k] is None,
    ensures
        trace(s, outcomes).len() == k - s.next + 2,
        trace(s, outcomes).last() == (ActionModel::Abort { step: k as nat }),
        forall|i: int|
            0 <= i < trace(s, outcomes).len() && (#[trigger] trace(s, outcomes)[i]) is Execute
                ==> trace(s, outcomes)[i]->Execute_step <= k,
    decreases k - s.next,
{
    let t = after(s, event_of(outcomes[s.next as int]));
    let tr = trace(s, outcomes);
    assert(tr == seq![action_of(s)] + trace(t, outcomes));
    if s.next < k {
        lemma_trace_to_failure(t, outcomes, k);
    } else {
        assert(trace(t, outcomes) == seq![action_of(t)]);
    }
    assert forall|i: int| 0 <= i < tr.len() && (#[trigger] tr[i]) is Execute implies tr[i]->Execute_step
        <= k by {
        if i > 0 {
            assert(tr[i] == trace(t, outcomes)[i - 1]);
        }
    }
}

/// When step `k` fails after the steps before it succeeded, the run ends by
/// reporting that failure, and no step after `k` is ever executed.
pub proof fn lemma_failure_stops_pipeline(
    name: Seq<char>,
    outcomes: Seq<Option<ResultModel>>,
    k: int,
)
    requires
        0 <= k < outcomes.len(),
        all_succeed(outcomes, 0, k),
        outcomes[k] is None,
    ensures
        trace(initial(name, outcomes.len()), outcomes).last() == (ActionModel::Abort {
            step: k as nat,
        }),
        forall|i: int|
            0 <= i < trace(initial(name, outcomes.len()), outcomes).len() && (#[trigger] trace(
                initial(name, outcomes.len()),
                outcomes,
            )[i]) is Execute ==> trace(initial(name, outcomes.len()), outcomes)[i]->Execute_step
                <= k,
{
    lemma_trace_to_failure(initial(name, outcomes.len()), outcomes, k);
}

proof fn lemma_trace_reads_own_outcomes(
    s: ExecutionModel,
    o1: Seq<Option<ResultModel>>,
    o2: Seq<Option<ResultModel>>,
)
    requires
        forall|i: int| 0 <= i < s.total ==> #[trigger] o1[i] == o2[i],
    ensures
        trace(s, o1) == trace(s, o2),
    decreases remaining(s),
{
    if !is_finished(s) {
        let t = after(s, event_of(o1[s.next as int]));
        lemma_trace_reads_own_outcomes(t, o1, o2);
    }
}

/// Two runs of the same chain whose steps give the same outcomes ask for the
/// same actions and end the same way: a run keeps nothing from an earlier one.
pub proof fn lemma_rerun_gives_same_result(
    name: Seq<char>,
    total: nat,
    first: Seq<Option<ResultModel>>,
    second: Seq<Option<ResultModel>>,
)
    requires
        forall|i: int| 0 <= i < total ==> #[trigger] first[i] == second[i],
    ensures
        trace(initial(name, total), first) == trace(initial(name, total), second),
{
    lemma_trace_reads_own_outcomes(initial(name, total), first, second);
}

} // verus!
