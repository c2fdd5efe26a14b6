//! One reply of the service, as the engine reads it, and the rewrite of the
//! legacy reply shapes.
use vstd::prelude::*;
use crate::json::string_member;
use crate::json::member;
use crate::json::json_member;
use crate::json::string_member_spec;
use crate::json::text_view;

verus! {

/// The fields of a reply that decide what happens next. A field that must
/// hold a string and holds something else reads as an empty string.
pub struct Response {
    /// The discriminator (`msg`, `action`, `stop`, `error`, `merge`, ...).
    pub kind: Option<String>,
    /// The action to run, for `type = "action"`.
    pub action: Option<String>,
    /// The text to send, for `type = "msg"` (empty when absent).
    pub msg: String,
    /// The quick replies offered with a message, passed on as they came.
    pub quickreplies: Option<serde_json::Value>,
}

/// What a reply says, over the texts of its fields.
pub struct ResponseView {
    pub kind: Option<Seq<char>>,
    pub action: Option<Seq<char>>,
    pub msg: Seq<char>,
    pub quickreplies: Option<serde_json::Value>,
}

impl View for Response {
    type V = ResponseView;

    open spec fn view(&self) -> ResponseView {
        ResponseView {
            kind: text_view(self.kind),
            action: text_view(self.action),
            msg: self.msg@,
            quickreplies: self.quickreplies,
        }
    }
}

/// The current vocabulary for a reply: a legacy `merge` reply becomes a call
/// of the action named `merge`; every other reply stays as it is.
pub open spec fn normalized(v: ResponseView) -> ResponseView {
    if v.kind == Some("merge"@) {
        ResponseView { kind: Some("action"@), action: Some("merge"@), ..v }
    } else {
        v
    }
}

/// The five reply types are five different texts.
pub proof fn reply_types_differ()
    ensures
        "merge"@ != "error"@,
        "merge"@ != "stop"@,
        "merge"@ != "msg"@,
        "merge"@ != "action"@,
        "error"@ != "stop"@,
        "error"@ != "msg"@,
        "error"@ != "action"@,
        "stop"@ != "msg"@,
        "stop"@ != "action"@,
        "msg"@ != "action"@,
{
    reveal_strlit("merge");
    reveal_strlit("error");
    reveal_strlit("stop");
    reveal_strlit("msg");
    reveal_strlit("action");
    assert("merge"@[0] != "error"@[0]);
    assert("merge"@[0] != "stop"@[0]);
    assert("merge"@[1] != "msg"@[1]);
    assert("merge"@[0] != "action"@[0]);
    assert("error"@[0] != "stop"@[0]);
    assert("error"@[0] != "msg"@[0]);
    assert("error"@[0] != "action"@[0]);
    assert("stop"@[0] != "msg"@[0]);
    assert("stop"@[0] != "action"@[0]);
    assert("msg"@[0] != "action"@[0]);
}

/// Normalizing twice is normalizing once.
pub proof fn normalize_idempotent(v: ResponseView)
    ensures
        normalized(normalized(v)) == normalized(v),
{
    reply_types_differ();
}

/// A `merge` reply becomes an `action` reply naming `merge`, keeping its
/// other fields; any other reply is left unchanged.
pub proof fn normalize_rewrites_only_merge(v: ResponseView)
    ensures
        v.kind == Some("merge"@) ==> normalized(v) == (ResponseView {
            kind: Some("action"@),
            action: Some("merge"@),
            msg: v.msg,
            quickreplies: v.quickreplies,
        }),
        v.kind != Some("merge"@) ==> normalized(v) == v,
{
}

impl Response {
    /// Reads the deciding fields out of a decoded reply.
    pub fn from_value(v: &serde_json::Value) -> (r: Response)
        ensures
            r@.kind == string_member_spec(*v, "type"@),
            r@.action == string_member_spec(*v, "action"@),
            Some(r@.msg) == match string_member_spec(*v, "msg"@) {
                Some(t) => Some(t),
                None => Some(Seq::<char>::empty()),
            },
            r@.quickreplies == json_member(*v, "quickreplies"@),
    {
        let msg = match string_member(v, "msg") {
            Some(m) => m,
            None => String::new(),
        };
        Response {
            kind: string_member(v, "type"),
            action: string_member(v, "action"),
            msg,
            quickreplies: member(v, "quickreplies"),
        }
    }

    /// Rewrites a legacy reply shape into the current vocabulary.
    pub fn normalize(self) -> (r: Response)
        ensures
            r@ == normalized(self@),
    {
        let is_merge = match &self.kind {
            Some(k) => *k == String::from_str("merge"),
            None => false,
        };
        if is_merge {
            Response {
                kind: Some(String::from_str("action")),
                action: Some(String::from_str("merge")),
                ..self
            }
        } else {
            self
        }
    }
}

} // verus!
