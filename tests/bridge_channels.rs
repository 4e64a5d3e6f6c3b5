use toyjs::bridge::Bridge;
use toyjs::runtime::{CallbackMessage, SchedulerMessage};

#[test]
fn executor_ends_are_handed_out_once() {
    let mut bridge = Bridge::new();
    assert!(bridge.take_executor_ends().is_some());
    assert!(bridge.take_executor_ends().is_none());
}

#[test]
fn requests_arrive_in_order_and_shutdown_is_sent() {
    let mut bridge = Bridge::new();
    let (mut requests, _completions) = bridge.take_executor_ends().unwrap();
    assert!(bridge.request(SchedulerMessage::ScheduleTimeout(1, 10)));
    assert!(bridge.request(SchedulerMessage::ClearTimer(1)));
    bridge.shutdown();
    assert_eq!(requests.try_recv().unwrap(), SchedulerMessage::ScheduleTimeout(1, 10));
    assert_eq!(requests.try_recv().unwrap(), SchedulerMessage::ClearTimer(1));
    assert_eq!(requests.try_recv().unwrap(), SchedulerMessage::Shutdown);
    assert!(requests.try_recv().is_err());
}

#[test]
fn request_reports_a_closed_scheduler() {
    let mut bridge = Bridge::new();
    let ends = bridge.take_executor_ends();
    drop(ends);
    assert!(!bridge.request(SchedulerMessage::ClearTimer(1)));
}

#[test]
fn drain_takes_what_is_queued_in_order() {
    let mut bridge = Bridge::new();
    let (_requests, completions) = bridge.take_executor_ends().unwrap();
    assert!(bridge.drain_completions().is_empty());
    completions.send(CallbackMessage::ExecuteTimeout(1)).unwrap();
    completions.send(CallbackMessage::FetchSuccess(2, "ok".to_string())).unwrap();
    completions.send(CallbackMessage::ExecuteInterval(3)).unwrap();
    assert_eq!(
        bridge.drain_completions(),
        vec![
            CallbackMessage::ExecuteTimeout(1),
            CallbackMessage::FetchSuccess(2, "ok".to_string()),
            CallbackMessage::ExecuteInterval(3),
        ]
    );
    assert!(bridge.drain_completions().is_empty());
    completions.send(CallbackMessage::ExecuteInterval(3)).unwrap();
    assert_eq!(bridge.drain_completions(), vec![CallbackMessage::ExecuteInterval(3)]);
}

#[test]
fn request_sender_feeds_the_same_channel() {
    let bridge = Bridge::new();
    let tx = bridge.request_sender();
    tx.send(SchedulerMessage::Fetch(5, "http://example.invalid/".to_string())).unwrap();
    let mut bridge = bridge;
    let (mut requests, _) = bridge.take_executor_ends().unwrap();
    assert_eq!(requests.try_recv().unwrap(), SchedulerMessage::Fetch(5, "http://example.invalid/".to_string()));
}
