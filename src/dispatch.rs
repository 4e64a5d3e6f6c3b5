use vstd::prelude::*;

use crate::runtime::{CallbackId, CallbackMessage};

verus! {

/// A call into the script-side dispatcher: the global function to look up,
/// the id, and the body or error text for a fetch.
#[derive(Debug, Clone, PartialEq, Eq)]
pub struct DispatchCall {
    pub function: String,
    pub id: CallbackId,
    pub text: Option<String>,
}

/// The global name of the dispatcher for a completion.
pub open spec fn dispatcher_of(msg: CallbackMessage) -> Seq<char> {
    match msg {
        CallbackMessage::ExecuteTimeout(_) => "__executeTimer"@,
        CallbackMessage::ExecuteInterval(_) => "__executeTimer"@,
        CallbackMessage::FetchSuccess(_, _) => "__executeFetchSuccess"@,
        CallbackMessage::FetchError(_, _) => "__executeFetchError"@,
    }
}

pub open spec fn id_of(msg: CallbackMessage) -> CallbackId {
    match msg {
        CallbackMessage::ExecuteTimeout(id) => id,
        CallbackMessage::ExecuteInterval(id) => id,
        CallbackMessage::FetchSuccess(id, _) => id,
        CallbackMessage::FetchError(id, _) => id,
    }
}

/// The body or error text passed to the dispatcher after the id, if any.
pub open spec fn text_of(msg: CallbackMessage) -> Option<Seq<char>> {
    match msg {
        CallbackMessage::FetchSuccess(_, body) => Some(body@),
        CallbackMessage::FetchError(_, error) => Some(error@),
        _ => None,
    }
}

pub open spec fn text_view(t: Option<String>) -> Option<Seq<char>> {
    match t {
        Some(s) => Some(s@),
        None => None,
    }
}

/// Whether `call` is the dispatcher call for `msg`.
pub open spec fn is_call_for(call: DispatchCall, msg: CallbackMessage) -> bool {
    &&& call.function@ == dispatcher_of(msg)
    &&& call.id == id_of(msg)
    &&& text_view(call.text) == text_of(msg)
}

/// The dispatcher call that a completion turns into.
pub fn dispatch_call(msg: &CallbackMessage) -> (r: DispatchCall)
    ensures
        is_call_for(r, *msg),
{
    match msg {
        CallbackMessage::ExecuteTimeout(id) => {
            proof { reveal_strlit("__executeTimer"); }
            DispatchCall { function: String::from_str("__executeTimer"), id: *id, text: None }
        },
        CallbackMessage::ExecuteInterval(id) => {
            proof { reveal_strlit("__executeTimer"); }
            DispatchCall { function: String::from_str("__executeTimer"), id: *id, text: None }
        },
        CallbackMessage::FetchSuccess(id, body) => {
            proof { reveal_strlit("__executeFetchSuccess"); }
            DispatchCall {
                function: String::from_str("__executeFetchSuccess"),
                id: *id,
                text: Some(body.clone()),
            }
        },
        CallbackMessage::FetchError(id, error) => {
            proof { reveal_strlit("__executeFetchError"); }
            DispatchCall {
                function: String::from_str("__executeFetchError"),
                id: *id,
                text: Some(error.clone()),
            }
        },
    }
}

/// One pass of the dispatch loop over the completions drained at call time:
/// one dispatcher call per completion, in the order they were received.
pub fn plan_dispatch(pending: &Vec<CallbackMessage>) -> (r: Vec<DispatchCall>)
    ensures
        r@.len() == pending@.len(),
        forall|i: int| 0 <= i < pending@.len() ==> is_call_for(#[trigger] r@[i], pending@[i]),
{
    let mut calls: Vec<DispatchCall> = Vec::new();
    let mut i: usize = 0;
    while i < pending.len()
        invariant
            i <= pending@.len(),
            calls@.len() == i,
            forall|j: int| 0 <= j < i ==> is_call_for(#[trigger] calls@[j], pending@[j]),
        decreases pending@.len() - i,
    {
        let call = dispatch_call(&pending[i]);
        calls.push(call);
        i += 1;
    }
    calls
}

/// The completion a finished fetch sends back, as `fetch_completion` states it.
pub open spec fn completion_of(id: CallbackId, outcome: Result<String, String>) -> CallbackMessage {
    match outcome {
        Ok(body) => CallbackMessage::FetchSuccess(id, body),
        Err(error) => CallbackMessage::FetchError(id, error),
    }
}

/// A finished fetch reaches the script unchanged: the dispatcher call made
/// for its completion passes the fetch's id, and the full body to the success
/// dispatcher, or the failure's text to the error dispatcher.
pub proof fn lemma_fetch_outcome_reaches_script(id: CallbackId, outcome: Result<String, String>, call: DispatchCall)
    requires
        is_call_for(call, completion_of(id, outcome)),
    ensures
        call.id == id,
        match outcome {
            Ok(body) => call.function@ == "__executeFetchSuccess"@ && text_view(call.text) == Some(body@),
            Err(error) => call.function@ == "__executeFetchError"@ && text_view(call.text) == Some(error@),
        },
{
}

/// The completion a finished fetch sends back: the body on success, the
/// failure's text otherwise.
pub fn fetch_completion(id: CallbackId, outcome: Result<String, String>) -> (r: CallbackMessage)
    ensures
        r == completion_of(id, outcome),
{
    match outcome {
        Ok(body) => CallbackMessage::FetchSuccess(id, body),
        Err(error) => CallbackMessage::FetchError(id, error),
    }
}

} // verus!
