//! The failures that construction and the action loop report.
use vstd::prelude::*;

verus! {

/// The action registry has no `"send"` handler.
pub const INVALID_ACTIONS: u32 = 100;

/// The loop ran out of steps.
pub const STEP_LIMIT_EXCEEDED: u32 = 101;

/// The service answered with `type = "error"`.
pub const API_REPORTED_ERROR: u32 = 102;

/// An `"action"` reply named no action.
pub const ACTION_NAME_MISSING: u32 = 103;

/// An `"action"` reply named an action that is not registered.
pub const UNKNOWN_ACTION: u32 = 104;

/// The reply's `type` is none of the known ones.
pub const UNKNOWN_RESPONSE_TYPE: u32 = 105;

/// The service could not be reached.
pub const REMOTE_UNREACHABLE: u32 = 106;

/// A failure of construction or of the action loop: a readable message and
/// one of the codes above.
#[derive(Debug)]
pub struct ExecutionError {
    pub message: String,
    pub code: u32,
}

impl ExecutionError {
    pub fn new(code: u32, message: &str) -> (r: ExecutionError)
        ensures
            r.code == code,
            r.message@ == message@,
    {
        ExecutionError { message: String::from_str(message), code }
    }

    /// The failure for an action that is not registered; its message ends
    /// with the action's name.
    pub fn unknown_action(name: &str) -> (r: ExecutionError)
        ensures
            r.code == UNKNOWN_ACTION,
            r.message@ == "unknown action: "@ + name@,
    {
        let mut message = String::from_str("unknown action: ");
        message.append(name);
        ExecutionError { message, code: UNKNOWN_ACTION }
    }
}

} // verus!
