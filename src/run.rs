//! A whole run of the action loop, as the step functions of `conversation`
//! make it, over a series of replies, and what such runs come to.
use vstd::prelude::*;
use crate::conversation::turn_verdict;
use crate::conversation::Verdict;
use crate::error::API_REPORTED_ERROR;
use crate::error::REMOTE_UNREACHABLE;
use crate::error::UNKNOWN_ACTION;
use crate::error::STEP_LIMIT_EXCEEDED;
use crate::response::reply_types_differ;
use crate::response::ResponseView;

verus! {

/// How a run ends.
pub enum RunOutcome {
    /// The run ended well with this context.
    Returned(serde_json::Value),
    /// The run failed with this code.
    Failed(u32),
}

/// The outcome of a run with `steps` steps left, the live `context`, and the
/// replies still to come, where `handler` gives the context that an action
/// returns for the context it is given; with it, the names of the actions run,
/// in order. Replies that run out count as a service that cannot be reached.
pub open spec fn run_model(
    steps: int,
    context: serde_json::Value,
    replies: Seq<Option<ResponseView>>,
    names: Seq<Seq<char>>,
    handler: spec_fn(Seq<char>, serde_json::Value) -> serde_json::Value,
) -> (RunOutcome, Seq<Seq<char>>)
    decreases replies.len(),
{
    if steps < 0 {
        (RunOutcome::Failed(STEP_LIMIT_EXCEEDED), seq![])
    } else if replies.len() == 0 {
        (RunOutcome::Failed(REMOTE_UNREACHABLE), seq![])
    } else {
        let rest = replies.drop_first();
        match turn_verdict(replies[0], names) {
            Verdict::Finish => (RunOutcome::Returned(context), seq![]),
            Verdict::Fail(code) => (RunOutcome::Failed(code), seq![]),
            Verdict::Send => run_model(steps - 1, context, rest, names, handler),
            Verdict::Call(a) => {
                let (outcome, calls) = run_model(steps - 1, handler(a, context), rest, names, handler);
                (outcome, seq![a] + calls)
            },
        }
    }
}

/// A reply that asks for the action `a`.
pub open spec fn action_reply(a: Seq<char>) -> ResponseView {
    ResponseView { kind: Some("action"@), action: Some(a), msg: seq![], quickreplies: None }
}

/// A reply that ends the conversation.
pub open spec fn stop_reply() -> ResponseView {
    ResponseView { kind: Some("stop"@), action: None, msg: seq![], quickreplies: None }
}

/// Replies that ask for each of `actions` in turn, then stop.
pub open spec fn chain_replies(actions: Seq<Seq<char>>) -> Seq<Option<ResponseView>> {
    actions.map_values(|a: Seq<char>| Some(action_reply(a))).push(Some(stop_reply()))
}

/// The context after running each of `actions` in turn from `context`.
pub open spec fn fold_handlers(
    actions: Seq<Seq<char>>,
    context: serde_json::Value,
    handler: spec_fn(Seq<char>, serde_json::Value) -> serde_json::Value,
) -> serde_json::Value
    decreases actions.len(),
{
    if actions.len() == 0 {
        context
    } else {
        fold_handlers(actions.drop_first(), handler(actions[0], context), handler)
    }
}

/// A chain of registered actions followed by a stop, with `steps` steps left:
/// with enough steps every action runs once, in order, and the run returns
/// the last handler's context; otherwise the first `steps + 1` actions run
/// and the run fails with `STEP_LIMIT_EXCEEDED` before the stop is read.
pub proof fn chain_outcome(
    steps: int,
    context: serde_json::Value,
    actions: Seq<Seq<char>>,
    names: Seq<Seq<char>>,
    handler: spec_fn(Seq<char>, serde_json::Value) -> serde_json::Value,
)
    requires
        steps >= 0,
        forall|i: int| 0 <= i < actions.len() ==> names.contains(#[trigger] actions[i]),
    ensures
        run_model(steps, context, chain_replies(actions), names, handler) == if steps
            >= actions.len() {
            (RunOutcome::Returned(fold_handlers(actions, context, handler)), actions)
        } else {
            (RunOutcome::Failed(STEP_LIMIT_EXCEEDED), actions.take(steps + 1))
        },
    decreases actions.len(),
{
    reply_types_differ();
    let replies = chain_replies(actions);
    if actions.len() == 0 {
        assert(replies[0] == Some(stop_reply()));
    } else {
        let a = actions[0];
        let tail = actions.drop_first();
        assert(replies[0] == Some(action_reply(a)));
        assert(names.contains(a)) by {
            assert(names.contains(actions[0]));
        }
        assert(turn_verdict(replies[0], names) == Verdict::Call(a));
        assert(replies.drop_first() =~= chain_replies(tail));
        let next = handler(a, context);
        if steps == 0 {
            assert(run_model(-1, next, chain_replies(tail), names, handler) == (
            RunOutcome::Failed(STEP_LIMIT_EXCEEDED), Seq::<Seq<char>>::empty()));
            assert(seq![a] + Seq::<Seq<char>>::empty() =~= actions.take(1));
        } else {
            assert forall|i: int| 0 <= i < tail.len() implies names.contains(#[trigger] tail[i]) by {
                assert(tail[i] == actions[i + 1]);
            }
            chain_outcome(steps - 1, next, tail, names, handler);
            if steps >= actions.len() {
                assert(seq![a] + tail =~= actions);
            } else {
                assert(seq![a] + tail.take(steps) =~= actions.take(steps + 1));
            }
        }
    }
}

/// With `N + 1` steps for `N` registered actions and a stop, the run succeeds,
/// runs each action once in order, and returns the last handler's context.
pub proof fn chain_within_budget(
    context: serde_json::Value,
    actions: Seq<Seq<char>>,
    names: Seq<Seq<char>>,
    handler: spec_fn(Seq<char>, serde_json::Value) -> serde_json::Value,
)
    requires
        forall|i: int| 0 <= i < actions.len() ==> names.contains(#[trigger] actions[i]),
    ensures
        run_model(actions.len() + 1 as int, context, chain_replies(actions), names, handler) == (
        RunOutcome::Returned(fold_handlers(actions, context, handler)), actions),
{
    chain_outcome(actions.len() + 1 as int, context, actions, names, handler);
}

/// With `N - 1` steps for `N` registered actions and a stop, the run fails
/// with `STEP_LIMIT_EXCEEDED` after running the actions, without reading the
/// stop.
pub proof fn chain_over_budget(
    context: serde_json::Value,
    actions: Seq<Seq<char>>,
    names: Seq<Seq<char>>,
    handler: spec_fn(Seq<char>, serde_json::Value) -> serde_json::Value,
)
    requires
        actions.len() >= 1,
        forall|i: int| 0 <= i < actions.len() ==> names.contains(#[trigger] actions[i]),
    ensures
        run_model(actions.len() - 1, context, chain_replies(actions), names, handler) == (
        RunOutcome::Failed(STEP_LIMIT_EXCEEDED), actions),
{
    chain_outcome(actions.len() - 1, context, actions, names, handler);
    assert(actions.take(actions.len() as int) =~= actions);
}

/// A first reply with no `type`, or of type `stop`, ends the run with the
/// context it had; one of type `error` fails it with `API_REPORTED_ERROR`;
/// one that asks for an unregistered action fails it with `UNKNOWN_ACTION`.
/// No action runs in any of these cases.
pub proof fn first_reply_ends_run(
    steps: int,
    context: serde_json::Value,
    first: ResponseView,
    rest: Seq<Option<ResponseView>>,
    names: Seq<Seq<char>>,
    handler: spec_fn(Seq<char>, serde_json::Value) -> serde_json::Value,
)
    requires
        steps >= 0,
    ensures
        ({
            let run = run_model(steps, context, seq![Some(first)] + rest, names, handler);
            &&& first.kind is None ==> run == (RunOutcome::Returned(context), Seq::<Seq<char>>::empty())
            &&& first.kind == Some("stop"@) ==> run == (RunOutcome::Returned(context), Seq::<Seq<char>>::empty())
            &&& first.kind == Some("error"@) ==> run == (RunOutcome::Failed(API_REPORTED_ERROR), Seq::<Seq<char>>::empty())
            &&& (first.kind == Some("action"@) && first.action is Some && !names.contains(first.action->Some_0))
                ==> run == (RunOutcome::Failed(UNKNOWN_ACTION), Seq::<Seq<char>>::empty())
        }),
{
    reply_types_differ();
    let replies = seq![Some(first)] + rest;
    assert(replies[0] == Some(first));
}

} // verus!
