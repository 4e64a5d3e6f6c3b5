use toyjs::runtime::SchedulerMessage;
use toyjs::timers::TimerRegistry;

#[test]
fn ids_start_at_one_and_grow() {
    let mut timers: TimerRegistry<&str> = TimerRegistry::new();
    let (a, ma) = timers.set_timeout("a", 100);
    let (b, mb) = timers.set_interval("b", 50);
    let (c, mc) = timers.set_timeout("c", 0);
    assert_eq!((a, b, c), (1, 2, 3));
    assert_eq!(ma, SchedulerMessage::ScheduleTimeout(1, 100));
    assert_eq!(mb, SchedulerMessage::ScheduleInterval(2, 50));
    assert_eq!(mc, SchedulerMessage::ScheduleTimeout(3, 0));
}

#[test]
fn cleared_timeout_never_runs() {
    let mut timers: TimerRegistry<&str> = TimerRegistry::new();
    let (id, _) = timers.set_timeout("f", 1000);
    assert_eq!(timers.clear(id), SchedulerMessage::ClearTimer(id));
    // A completion that was already on its way finds nothing to run.
    assert_eq!(timers.callback(id), None);
    let (next, _) = timers.set_timeout("g", 10);
    assert_ne!(next, id);
    assert_eq!(timers.callback(id), None);
    assert_eq!(timers.callback(next), Some(&"g"));
}

#[test]
fn timeout_runs_once() {
    let mut timers: TimerRegistry<&str> = TimerRegistry::new();
    let (id, _) = timers.set_timeout("once", 5);
    assert_eq!(timers.callback(id), Some(&"once"));
    timers.finish(id);
    assert_eq!(timers.callback(id), None);
}

#[test]
fn interval_stays_until_cleared() {
    let mut timers: TimerRegistry<&str> = TimerRegistry::new();
    let (id, _) = timers.set_interval("tick", 5);
    for _ in 0..3 {
        assert_eq!(timers.callback(id), Some(&"tick"));
        timers.finish(id);
    }
    timers.clear(id);
    assert_eq!(timers.callback(id), None);
}

#[test]
fn clearing_an_unknown_id_is_harmless() {
    let mut timers: TimerRegistry<&str> = TimerRegistry::new();
    let (id, _) = timers.set_timeout("kept", 5);
    assert_eq!(timers.clear(42), SchedulerMessage::ClearTimer(42));
    assert_eq!(timers.callback(id), Some(&"kept"));
}

#[test]
fn a_fresh_registry_can_allocate() {
    let timers: TimerRegistry<&str> = TimerRegistry::new();
    assert!(timers.can_allocate());
}
