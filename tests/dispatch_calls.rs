use toyjs::dispatch::{dispatch_call, fetch_completion, plan_dispatch, DispatchCall};
use toyjs::runtime::CallbackMessage;

fn call(function: &str, id: u64, text: Option<&str>) -> DispatchCall {
    DispatchCall { function: function.to_string(), id, text: text.map(|t| t.to_string()) }
}

#[test]
fn timers_and_intervals_go_to_the_timer_dispatcher() {
    assert_eq!(dispatch_call(&CallbackMessage::ExecuteTimeout(3)), call("__executeTimer", 3, None));
    assert_eq!(dispatch_call(&CallbackMessage::ExecuteInterval(9)), call("__executeTimer", 9, None));
}

#[test]
fn fetch_results_carry_their_text() {
    assert_eq!(
        dispatch_call(&CallbackMessage::FetchSuccess(4, "body".to_string())),
        call("__executeFetchSuccess", 4, Some("body"))
    );
    assert_eq!(
        dispatch_call(&CallbackMessage::FetchError(5, "connection refused".to_string())),
        call("__executeFetchError", 5, Some("connection refused"))
    );
}

#[test]
fn a_pass_keeps_arrival_order() {
    let pending = vec![
        CallbackMessage::ExecuteInterval(2),
        CallbackMessage::FetchSuccess(1, "{}".to_string()),
        CallbackMessage::ExecuteTimeout(7),
        CallbackMessage::ExecuteInterval(2),
    ];
    let calls = plan_dispatch(&pending);
    assert_eq!(
        calls,
        vec![
            call("__executeTimer", 2, None),
            call("__executeFetchSuccess", 1, Some("{}")),
            call("__executeTimer", 7, None),
            call("__executeTimer", 2, None),
        ]
    );
    assert!(plan_dispatch(&Vec::new()).is_empty());
}

#[test]
fn fetch_outcome_becomes_a_completion() {
    assert_eq!(
        fetch_completion(8, Ok("hello".to_string())),
        CallbackMessage::FetchSuccess(8, "hello".to_string())
    );
    assert_eq!(
        fetch_completion(8, Err("error sending request".to_string())),
        CallbackMessage::FetchError(8, "error sending request".to_string())
    );
}
