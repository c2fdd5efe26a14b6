//! A client for a remote language-understanding service: the requests it
//! makes, how it reads the replies, and the bounded loop that runs the
//! caller's actions until the service stops.
use vstd::prelude::*;

pub mod client;
pub mod conversation;
pub mod error;
pub mod http;
pub mod json;
pub mod response;
pub mod run;

pub use serde_json::Value;
pub use client::Client;
pub use error::ExecutionError;

verus! {

/// Builds a client from a token and a registry of actions; the same as
/// `Client::new`.
pub fn client<H>(token: &str, actions: Vec<(String, H)>) -> (r: Result<Client<H>, ExecutionError>)
    ensures
        r is Ok <==> client::action_names(actions@).contains(client::SEND_ACTION@),
        r matches Ok(c) ==> c.token_view() == token@ && c.names() == client::action_names(actions@)
            && c.handlers() == client::action_handlers(actions@) && c.wf(),
        r matches Err(e) ==> e.code == error::INVALID_ACTIONS,
{
    Client::new(token, actions)
}

} // verus!
