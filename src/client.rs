//! The client: the token, the registry of actions, and the requests it asks
//! the transport to make.
use vstd::prelude::*;
use crate::error::ExecutionError;
use crate::error::INVALID_ACTIONS;
use crate::http::HttpRequest;
use crate::http::pairs_view;
use crate::http::Method;

verus! {

/// The action that delivers the service's messages to the user.
pub const SEND_ACTION: &'static str = "send";

/// The names of a registry's entries, in order.
pub open spec fn action_names<H>(actions: Seq<(String, H)>) -> Seq<Seq<char>> {
    actions.map_values(|p: (String, H)| p.0@)
}

/// The handlers of a registry's entries, in order.
pub open spec fn action_handlers<H>(actions: Seq<(String, H)>) -> Seq<H> {
    actions.map_values(|p: (String, H)| p.1)
}

/// Talks to the service for one application. The action registry is fixed
/// at construction and always holds a `"send"` action.
pub struct Client<H> {
    pub token: String,
    actions: Vec<(String, H)>,
}

impl<H> Client<H> {
    /// The names of the registered actions, in order.
    pub closed spec fn names(&self) -> Seq<Seq<char>> {
        action_names(self.actions@)
    }

    /// The registered handlers, in the order of `names`.
    pub closed spec fn handlers(&self) -> Seq<H> {
        action_handlers(self.actions@)
    }

    /// The token's text.
    pub closed spec fn token_view(&self) -> Seq<char> {
        self.token@
    }

    /// The registry always holds a `"send"` action.
    pub closed spec fn wf(&self) -> bool {
        self.names().contains(SEND_ACTION@)
    }

    /// A well-formed registry has a `"send"` action.
    pub proof fn lemma_send_registered(&self)
        requires
            self.wf(),
        ensures
            self.names().contains(SEND_ACTION@),
    {
    }

    /// Builds a client from a token and a registry of actions; fails with
    /// `INVALID_ACTIONS` exactly when no action is named `"send"`.
    pub fn new(token: &str, actions: Vec<(String, H)>) -> (r: Result<Client<H>, ExecutionError>)
        ensures
            r is Ok <==> action_names(actions@).contains(SEND_ACTION@),
            r matches Ok(c) ==> c.token_view() == token@ && c.names() == action_names(actions@)
                && c.handlers() == action_handlers(actions@) && c.wf(),
            r matches Err(e) ==> e.code == INVALID_ACTIONS,
    {
        let found = find_name(&actions, SEND_ACTION);
        match found {
            Some(_) => Ok(Client { token: String::from_str(token), actions }),
            None => Err(ExecutionError::new(INVALID_ACTIONS, "the actions lack a \"send\" action")),
        }
    }

    /// The number of registered actions.
    pub fn action_count(&self) -> (r: usize)
        ensures
            r == self.names().len(),
            r == self.handlers().len(),
    {
        self.actions.len()
    }

    /// The position of the first action with the given name, if any.
    pub fn find_action(&self, name: &str) -> (r: Option<usize>)
        ensures
            r matches Some(i) ==> i < self.names().len() && self.names()[i as int] == name@
                && forall|j: int| 0 <= j < i ==> self.names()[j] != name@,
            r is None ==> !self.names().contains(name@),
    {
        find_name(&self.actions, name)
    }

    /// The handler at a position of the registry.
    pub fn handler(&self, i: usize) -> (r: &H)
        requires
            i < self.names().len(),
        ensures
            *r == self.handlers()[i as int],
    {
        &self.actions[i].1
    }

    /// The request that asks how the service understands one utterance:
    /// `GET /message?q=<text>`.
    pub fn message_request(&self, text: &str) -> (r: HttpRequest)
        ensures
            r.method == Method::Get,
            r.path@ == "/message"@,
            pairs_view(r.query@) == seq![("q"@, text@)],
            r.body is None,
    {
        let mut query: Vec<(String, String)> = Vec::new();
        query.push((String::from_str("q"), String::from_str(text)));
        proof {
            assert(pairs_view(query@) =~= seq![("q"@, text@)]);
        }
        HttpRequest { method: Method::Get, path: String::from_str("/message"), query, body: None }
    }

    /// The request for one turn of a conversation:
    /// `POST /converse?q=<text>&session_id=<id>[&reset=true]`, with the
    /// context as body.
    pub fn converse_request(
        &self,
        session_id: &str,
        text: &str,
        context: &serde_json::Value,
        reset: bool,
    ) -> (r: HttpRequest)
        ensures
            r.method == Method::Post,
            r.path@ == "/converse"@,
            pairs_view(r.query@) == if reset {
                seq![("q"@, text@), ("session_id"@, session_id@), ("reset"@, "true"@)]
            } else {
                seq![("q"@, text@), ("session_id"@, session_id@)]
            },
            r.body == Some(*context),
    {
        let mut query: Vec<(String, String)> = Vec::new();
        query.push((String::from_str("q"), String::from_str(text)));
        query.push((String::from_str("session_id"), String::from_str(session_id)));
        if reset {
            query.push((String::from_str("reset"), String::from_str("true")));
        }
        proof {
            if reset {
                assert(pairs_view(query@) =~= seq![
                    ("q"@, text@),
                    ("session_id"@, session_id@),
                    ("reset"@, "true"@),
                ]);
            } else {
                assert(pairs_view(query@) =~= seq![("q"@, text@), ("session_id"@, session_id@)]);
            }
        }
        HttpRequest {
            method: Method::Post,
            path: String::from_str("/converse"),
            query,
            body: Some(context.clone()),
        }
    }
}

/// The position of the first entry with the given name, if any.
fn find_name<H>(actions: &Vec<(String, H)>, name: &str) -> (r: Option<usize>)
    ensures
        r matches Some(i) ==> i < actions@.len() && action_names(actions@)[i as int] == name@
            && forall|j: int| 0 <= j < i ==> action_names(actions@)[j] != name@,
        r is None ==> !action_names(actions@).contains(name@),
{
    let target = String::from_str(name);
    let mut i: usize = 0;
    while i < actions.len()
        invariant
            i <= actions@.len(),
            target@ == name@,
            forall|j: int| 0 <= j < i ==> action_names(actions@)[j] != name@,
        decreases actions@.len() - i,
    {
        if actions[i].0 == target {
            return Some(i);
        }
        i = i + 1;
    }
    proof {
        assert forall|j: int| 0 <= j < action_names(actions@).len() implies action_names(actions@)[j] != name@ by {}
    }
    None
}

} // verus!
