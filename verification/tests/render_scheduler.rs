use cinema_engine::device_profiler::profile::ThermalLevel;
use cinema_engine::event_bus::{CinemaEvent, EventBus, Subscriptions};
use cinema_engine::render_scheduler::{JobPriority, RenderScheduler, ScheduledJob};

#[test]
fn playback_beats_export() {
    let mut sched = RenderScheduler::new();
    sched.enqueue(ScheduledJob { id: 1, priority: JobPriority::Export, label: "export".to_string() });
    sched.enqueue(ScheduledJob { id: 2, priority: JobPriority::Playback, label: "playback".to_string() });
    let first = sched.pop_highest().unwrap();
    assert_eq!(first.priority, JobPriority::Playback);
}

#[test]
fn thermal_pauses_export() {
    let mut sched = RenderScheduler::new();
    sched.adapt_to_thermal(ThermalLevel::Hot);
    sched.enqueue(ScheduledJob { id: 1, priority: JobPriority::Export, label: "export".to_string() });
    assert_eq!(sched.pending_count(), 0);
}

#[test]
fn equal_priorities_come_out_in_arrival_order() {
    let mut sched = RenderScheduler::new();
    sched.enqueue(ScheduledJob { id: 1, priority: JobPriority::Proxy, label: "a".to_string() });
    sched.enqueue(ScheduledJob { id: 2, priority: JobPriority::Proxy, label: "b".to_string() });
    sched.enqueue(ScheduledJob { id: 3, priority: JobPriority::Preview, label: "c".to_string() });
    assert_eq!(sched.pop_highest().unwrap().id, 3);
    assert_eq!(sched.pop_highest().unwrap().id, 1);
    assert_eq!(sched.pop_highest().unwrap().id, 2);
    assert!(sched.pop_highest().is_none());
}

#[test]
fn critical_pauses_proxy_too() {
    let mut sched = RenderScheduler::new();
    sched.adapt_to_thermal(ThermalLevel::Critical);
    sched.enqueue(ScheduledJob { id: 1, priority: JobPriority::Proxy, label: "p".to_string() });
    sched.enqueue(ScheduledJob { id: 2, priority: JobPriority::Playback, label: "q".to_string() });
    assert_eq!(sched.pending_count(), 1);
}

#[test]
fn emit_reaches_subscribers() {
    let mut bus = EventBus::new();
    let mut subs = Subscriptions::new();
    let id = subs.subscribe(bus.len());
    bus.emit(CinemaEvent::ProjectCreated { project_id: 1, name: "Test".to_string() });
    assert_eq!(bus.event_log().len(), 1);
    // The one subscriber receives exactly the one event.
    assert_eq!(subs.deliveries(bus.len()), vec![(0, id)]);
    assert!(subs.deliveries(bus.len()).is_empty());
}

#[test]
fn deliveries_follow_emit_and_subscribe_order() {
    let mut bus = EventBus::new();
    let mut subs = Subscriptions::new();
    let first = subs.subscribe(bus.len());
    bus.emit(CinemaEvent::UndoApplied { project_id: 1 });
    let second = subs.subscribe(bus.len());
    bus.emit(CinemaEvent::RedoApplied { project_id: 1 });
    bus.emit(CinemaEvent::UndoApplied { project_id: 1 });
    assert_eq!(subs.deliveries(bus.len()), vec![(0, first), (1, first), (1, second), (2, first), (2, second)]);
}
