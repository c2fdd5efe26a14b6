use serde_json::Value;
use witty::client::Client;
use witty::conversation::decide;
use witty::conversation::Conversation;
use witty::conversation::Step;
use witty::conversation::DEFAULT_MAX_STEPS;
use witty::error;
use witty::http::HttpError;
use witty::response::Response;

fn reply(fields: &[(&str, Value)]) -> Response {
    let mut m = serde_json::Map::new();
    for (k, v) in fields {
        m.insert(k.to_string(), v.clone());
    }
    Response::from_value(&Value::Object(m))
}

fn text(s: &str) -> Value {
    Value::String(s.to_string())
}

fn context(n: i64) -> Value {
    let mut m = serde_json::Map::new();
    m.insert("step".to_string(), Value::from(n));
    Value::Object(m)
}

/// Each registry entry is tagged by the number that its handler writes into
/// the context.
fn registry(names: &[&str]) -> Vec<(String, i64)> {
    let mut v = vec![("send".to_string(), -1)];
    for (i, n) in names.iter().enumerate() {
        v.push((n.to_string(), i as i64 + 1));
    }
    v
}

struct Trace {
    actions: Vec<String>,
    sent: Vec<(String, Value, String, String, Option<Value>)>,
}

/// Runs the loop over scripted replies; a handler's new context records its tag.
fn drive(
    client: &Client<i64>,
    mut conv: Conversation,
    replies: Vec<Result<Response, HttpError>>,
) -> (Result<Value, error::ExecutionError>, Trace) {
    let mut trace = Trace { actions: vec![], sent: vec![] };
    let mut replies = replies.into_iter();
    loop {
        if let Err(e) = conv.begin_turn() {
            return (Err(e), trace);
        }
        let r = match replies.next() {
            Some(r) => r,
            None => panic!("the script ran out of replies"),
        };
        match decide(client, r) {
            Step::Finish => return (Ok(conv.context.clone()), trace),
            Step::Fail(e) => return (Err(e), trace),
            Step::Send(i, p) => {
                assert_eq!(*client.handler(i), -1);
                let req = conv.outbound();
                trace.sent.push((req.session_id, req.context, req.text, p.text, p.quickreplies));
                conv.after_message();
            },
            Step::Invoke(i) => {
                let tag = *client.handler(i);
                trace.actions.push(format!("{}", tag));
                conv.after_action(context(tag));
            },
        }
    }
}

#[test]
fn construction_requires_send_action() {
    let actions = vec![("merge".to_string(), 1), ("fetch".to_string(), 2)];
    let r = Client::new("tok", actions);
    assert_eq!(r.err().unwrap().code, error::INVALID_ACTIONS);
    let r = Client::<i64>::new("tok", vec![]);
    assert_eq!(r.err().unwrap().code, error::INVALID_ACTIONS);
}

#[test]
fn construction_accepts_send_with_other_actions() {
    let c = Client::new("tok", registry(&["merge", "fetch"])).ok().unwrap();
    assert_eq!(c.token, "tok");
    assert_eq!(c.action_count(), 3);
    assert_eq!(c.find_action("fetch"), Some(2));
    assert_eq!(c.find_action("nothing"), None);
    assert_eq!(*c.handler(1), 1);
    let c2 = witty::client("tok2", registry(&[])).ok().unwrap();
    assert_eq!(c2.token, "tok2");
}

#[test]
fn normalize_rewrites_merge() {
    let r = reply(&[("type", text("merge")), ("msg", text("m"))]).normalize();
    assert_eq!(r.kind.as_deref(), Some("action"));
    assert_eq!(r.action.as_deref(), Some("merge"));
    assert_eq!(r.msg, "m");
}

#[test]
fn normalize_leaves_other_replies() {
    let r = reply(&[("type", text("msg")), ("msg", text("hi"))]).normalize();
    assert_eq!(r.kind.as_deref(), Some("msg"));
    assert_eq!(r.action, None);
    let r = reply(&[]).normalize();
    assert_eq!(r.kind, None);
}

#[test]
fn normalize_twice_is_once() {
    let once = reply(&[("type", text("merge"))]).normalize();
    let twice = reply(&[("type", text("merge"))]).normalize().normalize();
    assert_eq!(once.kind, twice.kind);
    assert_eq!(once.action, twice.action);
    assert_eq!(once.msg, twice.msg);
}

#[test]
fn reply_without_type_returns_context() {
    let c = Client::new("tok", registry(&["fetch"])).ok().unwrap();
    let conv = Conversation::new("s1", "hi", context(7), DEFAULT_MAX_STEPS);
    let (r, t) = drive(&c, conv, vec![Ok(reply(&[("msg", text("ignored"))]))]);
    assert_eq!(r.ok().unwrap(), context(7));
    assert!(t.actions.is_empty());
    assert!(t.sent.is_empty());
}

#[test]
fn stop_reply_returns_context() {
    let c = Client::new("tok", registry(&[])).ok().unwrap();
    let conv = Conversation::new("s1", "hi", context(3), DEFAULT_MAX_STEPS);
    let (r, _) = drive(&c, conv, vec![Ok(reply(&[("type", text("stop"))]))]);
    assert_eq!(r.ok().unwrap(), context(3));
}

#[test]
fn error_reply_fails() {
    let c = Client::new("tok", registry(&[])).ok().unwrap();
    let conv = Conversation::new("s1", "hi", context(0), DEFAULT_MAX_STEPS);
    let (r, _) = drive(&c, conv, vec![Ok(reply(&[("type", text("error"))]))]);
    assert_eq!(r.err().unwrap().code, error::API_REPORTED_ERROR);
}

#[test]
fn unregistered_action_fails_with_its_name() {
    let c = Client::new("tok", registry(&["fetch"])).ok().unwrap();
    let conv = Conversation::new("s1", "hi", context(0), DEFAULT_MAX_STEPS);
    let r1 = reply(&[("type", text("action")), ("action", text("X"))]);
    let (r, t) = drive(&c, conv, vec![Ok(r1)]);
    let e = r.err().unwrap();
    assert_eq!(e.code, error::UNKNOWN_ACTION);
    assert_eq!(e.message, "unknown action: X");
    assert!(t.actions.is_empty());
}

#[test]
fn action_without_name_fails() {
    let c = Client::new("tok", registry(&[])).ok().unwrap();
    let conv = Conversation::new("s1", "hi", context(0), DEFAULT_MAX_STEPS);
    let (r, _) = drive(&c, conv, vec![Ok(reply(&[("type", text("action"))]))]);
    assert_eq!(r.err().unwrap().code, error::ACTION_NAME_MISSING);
}

#[test]
fn unknown_type_fails() {
    let c = Client::new("tok", registry(&[])).ok().unwrap();
    let conv = Conversation::new("s1", "hi", context(0), DEFAULT_MAX_STEPS);
    let (r, _) = drive(&c, conv, vec![Ok(reply(&[("type", text("dance"))]))]);
    assert_eq!(r.err().unwrap().code, error::UNKNOWN_RESPONSE_TYPE);
    let conv = Conversation::new("s1", "hi", context(0), DEFAULT_MAX_STEPS);
    let (r, _) = drive(&c, conv, vec![Ok(reply(&[("type", Value::from(4))]))]);
    assert_eq!(r.err().unwrap().code, error::UNKNOWN_RESPONSE_TYPE);
}

#[test]
fn transport_failure_is_unreachable() {
    let c = Client::new("tok", registry(&[])).ok().unwrap();
    let conv = Conversation::new("s1", "hi", context(0), DEFAULT_MAX_STEPS);
    let e = HttpError { message: "down".to_string(), status: 0, code: witty::http::HTTP_UNREACHABLE };
    let (r, _) = drive(&c, conv, vec![Err(e)]);
    assert_eq!(r.err().unwrap().code, error::REMOTE_UNREACHABLE);
}

fn chain(names: &[&str]) -> Vec<Result<Response, HttpError>> {
    let mut v: Vec<Result<Response, HttpError>> = names
        .iter()
        .map(|n| Ok(reply(&[("type", text("action")), ("action", text(n))])))
        .collect();
    v.push(Ok(reply(&[("type", text("stop"))])));
    v
}

#[test]
fn action_chain_within_budget() {
    let c = Client::new("tok", registry(&["a", "b", "c"])).ok().unwrap();
    let conv = Conversation::new("s1", "hi", context(0), 4);
    let (r, t) = drive(&c, conv, chain(&["a", "b", "c"]));
    assert_eq!(r.ok().unwrap(), context(3));
    assert_eq!(t.actions, vec!["1", "2", "3"]);
}

#[test]
fn action_chain_over_budget() {
    let c = Client::new("tok", registry(&["a", "b", "c"])).ok().unwrap();
    let conv = Conversation::new("s1", "hi", context(0), 2);
    let (r, t) = drive(&c, conv, chain(&["a", "b", "c"]));
    assert_eq!(r.err().unwrap().code, error::STEP_LIMIT_EXCEEDED);
    assert_eq!(t.actions, vec!["1", "2", "3"]);
}

#[test]
fn merge_reply_runs_merge_action() {
    let c = Client::new("tok", registry(&["merge"])).ok().unwrap();
    let conv = Conversation::new("s1", "hi", context(0), DEFAULT_MAX_STEPS);
    let replies = vec![Ok(reply(&[("type", text("merge"))])), Ok(reply(&[("type", text("stop"))]))];
    let (r, t) = drive(&c, conv, replies);
    assert_eq!(r.ok().unwrap(), context(1));
    assert_eq!(t.actions, vec!["1"]);
}

#[test]
fn message_reply_calls_send_once() {
    let c = Client::new("tok", registry(&[])).ok().unwrap();
    let conv = Conversation::new("s9", "hello there", context(5), DEFAULT_MAX_STEPS);
    let qr = Value::Array(vec![text("yes"), text("no")]);
    let replies = vec![
        Ok(reply(&[("type", text("msg")), ("msg", text("hello")), ("quickreplies", qr.clone())])),
        Ok(reply(&[("type", text("stop"))])),
    ];
    let (r, t) = drive(&c, conv, replies);
    assert_eq!(r.ok().unwrap(), context(5));
    assert!(t.actions.is_empty());
    assert_eq!(t.sent.len(), 1);
    let (sid, ctx, utterance, msg, quick) = &t.sent[0];
    assert_eq!(sid, "s9");
    assert_eq!(*ctx, context(5));
    assert_eq!(utterance, "hello there");
    assert_eq!(msg, "hello");
    assert_eq!(quick.as_ref(), Some(&qr));
}

#[test]
fn budget_guard_runs_before_exchange() {
    let conv = Conversation::new("s", "t", context(0), -1);
    assert_eq!(conv.begin_turn().err().unwrap().code, error::STEP_LIMIT_EXCEEDED);
    let mut conv = Conversation::new("s", "t", context(0), 0);
    assert!(conv.begin_turn().is_ok());
    conv.after_message();
    assert_eq!(conv.steps_left, -1);
    assert!(conv.begin_turn().is_err());
}

#[test]
fn every_turn_costs_one_step() {
    let c = Client::new("tok", registry(&[])).ok().unwrap();
    let conv = Conversation::new("s", "t", context(0), 1);
    let m = || Ok(reply(&[("type", text("msg")), ("msg", text("x"))]));
    let (r, t) = drive(&c, conv, vec![m(), m(), m()]);
    assert_eq!(r.err().unwrap().code, error::STEP_LIMIT_EXCEEDED);
    assert_eq!(t.sent.len(), 2);
}
