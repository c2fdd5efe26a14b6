//! The action loop, as a state machine. Each turn: `begin_turn` guards the
//! step budget, the transport exchanges one request (see
//! `Client::converse_request`), `decide` reads the reply, and the caller runs
//! the chosen handler and reports back with `after_message` or
//! `after_action`.
use vstd::prelude::*;
use crate::client::Client;
use crate::client::SEND_ACTION;
use crate::error::ExecutionError;
use crate::error::ACTION_NAME_MISSING;
use crate::error::API_REPORTED_ERROR;
use crate::error::REMOTE_UNREACHABLE;
use crate::error::STEP_LIMIT_EXCEEDED;
use crate::error::UNKNOWN_RESPONSE_TYPE;
use crate::http::HttpError;
use crate::response::normalized;
use crate::response::Response;
use crate::response::ResponseView;

verus! {

/// The step budget when the caller gives none.
pub const DEFAULT_MAX_STEPS: i64 = 5;

/// What a handler is given: the conversation's session, its current context
/// and the user's utterance.
pub struct OutboundRequest {
    pub session_id: String,
    pub context: serde_json::Value,
    pub text: String,
}

/// What the `"send"` handler is given besides the request: the message's
/// text and its quick replies.
pub struct MessagePayload {
    pub text: String,
    pub quickreplies: Option<serde_json::Value>,
}

/// What to do after one reply.
pub enum Step {
    /// The conversation is over: return the current context.
    Finish,
    /// The conversation failed.
    Fail(ExecutionError),
    /// Hand the message to the `"send"` handler, at this position of the
    /// registry; the context stays.
    Send(usize, MessagePayload),
    /// Run the handler at this position of the registry; its result is the
    /// next context.
    Invoke(usize),
}

/// What a reply decides, in terms of the registry's names.
pub enum Verdict {
    Finish,
    Fail(u32),
    Send,
    Call(Seq<char>),
}

/// What one reply decides; `None` stands for a reply that never came.
pub open spec fn turn_verdict(reply: Option<ResponseView>, names: Seq<Seq<char>>) -> Verdict {
    match reply {
        None => Verdict::Fail(REMOTE_UNREACHABLE),
        Some(v) => if v.kind is None {
            Verdict::Finish
        } else {
            let n = normalized(v);
            let k = n.kind->Some_0;
            if k == "error"@ {
                Verdict::Fail(API_REPORTED_ERROR)
            } else if k == "stop"@ {
                Verdict::Finish
            } else if k == "msg"@ {
                Verdict::Send
            } else if k == "action"@ {
                match n.action {
                    None => Verdict::Fail(ACTION_NAME_MISSING),
                    Some(a) => if names.contains(a) {
                        Verdict::Call(a)
                    } else {
                        Verdict::Fail(crate::error::UNKNOWN_ACTION)
                    },
                }
            } else {
                Verdict::Fail(UNKNOWN_RESPONSE_TYPE)
            }
        },
    }
}

/// The reply as `turn_verdict` reads it.
pub open spec fn reply_view(reply: Result<Response, HttpError>) -> Option<ResponseView> {
    match reply {
        Ok(r) => Some(r@),
        Err(_) => None,
    }
}

/// The verdict that a step carries out.
pub open spec fn step_verdict(s: Step, names: Seq<Seq<char>>) -> Verdict {
    match s {
        Step::Finish => Verdict::Finish,
        Step::Fail(e) => Verdict::Fail(e.code),
        Step::Send(_, _) => Verdict::Send,
        Step::Invoke(i) => Verdict::Call(names[i as int]),
    }
}

/// An `UNKNOWN_ACTION` failure names the action that the reply asked for.
pub open spec fn names_offender(e: ExecutionError, reply: Result<Response, HttpError>) -> bool {
    e.code == crate::error::UNKNOWN_ACTION ==> match reply {
        Ok(r) => e.message@ == "unknown action: "@ + normalized(r@).action->Some_0,
        Err(_) => false,
    }
}

/// Reads one reply and decides what comes next.
pub fn decide<H>(client: &Client<H>, reply: Result<Response, HttpError>) -> (s: Step)
    requires
        client.wf(),
    ensures
        step_verdict(s, client.names()) == turn_verdict(reply_view(reply), client.names()),
        s matches Step::Invoke(i) ==> i < client.names().len()
            && forall|j: int| 0 <= j < i ==> client.names()[j] != client.names()[i as int],
        s matches Step::Send(i, p) ==> reply matches Ok(r) && i < client.names().len()
            && client.names()[i as int] == SEND_ACTION@ && p.text@ == r@.msg
            && p.quickreplies == r@.quickreplies,
        s matches Step::Fail(e) ==> names_offender(e, reply),
{
    let r = match reply {
        Err(_) => {
            return Step::Fail(ExecutionError::new(REMOTE_UNREACHABLE, "could not reach the service"));
        },
        Ok(r) => r,
    };
    if r.kind.is_none() {
        return Step::Finish;
    }
    let n = r.normalize();
    let kind = match &n.kind {
        Some(k) => k.clone(),
        None => String::new(),
    };
    if kind == String::from_str("error") {
        Step::Fail(ExecutionError::new(API_REPORTED_ERROR, "the service reported an error"))
    } else if kind == String::from_str("stop") {
        Step::Finish
    } else if kind == String::from_str("msg") {
        let send = match client.find_action(SEND_ACTION) {
            Some(i) => i,
            None => {
                proof {
                    client.lemma_send_registered();
                }
                0
            },
        };
        Step::Send(send, MessagePayload { text: n.msg, quickreplies: n.quickreplies })
    } else if kind == String::from_str("action") {
        match &n.action {
            None => Step::Fail(
                ExecutionError::new(ACTION_NAME_MISSING, "an action reply named no action"),
            ),
            Some(a) => match client.find_action(a.as_str()) {
                Some(i) => Step::Invoke(i),
                None => Step::Fail(ExecutionError::unknown_action(a.as_str())),
            },
        }
    } else {
        Step::Fail(ExecutionError::new(UNKNOWN_RESPONSE_TYPE, "the reply's type is unknown"))
    }
}

/// One run of the action loop: the session and utterance, which stay fixed,
/// the live context, and the steps left.
pub struct Conversation {
    pub session_id: String,
    pub text: String,
    pub context: serde_json::Value,
    pub steps_left: i64,
}

impl Conversation {
    /// Starts a run with a step budget.
    pub fn new(session_id: &str, text: &str, context: serde_json::Value, max_steps: i64) -> (r:
        Conversation)
        ensures
            r.session_id@ == session_id@,
            r.text@ == text@,
            r.context == context,
            r.steps_left == max_steps,
    {
        Conversation {
            session_id: String::from_str(session_id),
            text: String::from_str(text),
            context,
            steps_left: max_steps,
        }
    }

    /// The guard before each exchange: fails with `STEP_LIMIT_EXCEEDED`
    /// exactly when the budget is spent.
    pub fn begin_turn(&self) -> (r: Result<(), ExecutionError>)
        ensures
            r is Ok <==> self.steps_left >= 0,
            r matches Err(e) ==> e.code == STEP_LIMIT_EXCEEDED,
    {
        if self.steps_left < 0 {
            Err(ExecutionError::new(STEP_LIMIT_EXCEEDED, "the conversation ran out of steps"))
        } else {
            Ok(())
        }
    }

    /// What the handlers of this turn are given.
    pub fn outbound(&self) -> (r: OutboundRequest)
        ensures
            r.session_id@ == self.session_id@,
            r.context == self.context,
            r.text@ == self.text@,
    {
        OutboundRequest {
            session_id: self.session_id.clone(),
            context: self.context.clone(),
            text: self.text.clone(),
        }
    }

    /// Ends a turn whose message was sent: the context stays.
    pub fn after_message(&mut self)
        requires
            old(self).steps_left >= 0,
        ensures
            final(self).steps_left == old(self).steps_left - 1,
            final(self).context == old(self).context,
            final(self).session_id == old(self).session_id,
            final(self).text == old(self).text,
    {
        self.steps_left = self.steps_left - 1;
    }

    /// Ends a turn whose action ran: its result is the new context.
    pub fn after_action(&mut self, context: serde_json::Value)
        requires
            old(self).steps_left >= 0,
        ensures
            final(self).steps_left == old(self).steps_left - 1,
            final(self).context == context,
            final(self).session_id == old(self).session_id,
            final(self).text == old(self).text,
    {
        self.steps_left = self.steps_left - 1;
        self.context = context;
    }
}

} // verus!
