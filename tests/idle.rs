use raa::idle::{IdleMonitor, IdleState, IdleTransition};
use raa::webhook::{DispatchError, EventCategory, WebhookSender};

const TS: &str = "2024-01-01T00:00:00+00:00";

fn sender() -> WebhookSender {
    WebhookSender::new(
        "dev".to_string(),
        "https://hooks.example/system".to_string(),
        "https://hooks.example/usb".to_string(),
        "https://hooks.example/idle".to_string(),
    )
}

fn fields(body: &str) -> Vec<(String, String)> {
    let v: serde_json::Value = serde_json::from_str(body).unwrap();
    v["embeds"][0]["fields"]
        .as_array()
        .unwrap()
        .iter()
        .map(|f| (f["name"].as_str().unwrap().to_string(), f["value"].as_str().unwrap().to_string()))
        .collect()
}

#[test]
fn new_monitor_is_active_and_stopped() {
    let m = IdleMonitor::new(sender(), 5, 100);
    assert_eq!(m.state(), IdleState::Active);
    assert!(!m.is_running());
    assert_eq!(m.idle_threshold_secs(), 300);
    assert_eq!(m.check_interval_secs(), 60);
}

#[test]
fn start_and_stop_toggle_running() {
    let mut m = IdleMonitor::new(sender(), 5, 0);
    m.start();
    assert!(m.is_running());
    m.stop();
    assert!(!m.is_running());
    assert_eq!(m.state(), IdleState::Active);
}

#[test]
fn idle_announced_once_at_threshold() {
    let mut m = IdleMonitor::new(sender(), 5, 0);
    m.start();
    for t in 1..5u64 {
        assert!(m.tick(t * 60, TS).is_none(), "no notification at minute {}", t);
    }
    let out = m.tick(300, TS).unwrap().unwrap();
    assert_eq!(out.category, EventCategory::Idle);
    assert_eq!(out.title, "System Idle");
    assert_eq!(out.url, "https://hooks.example/idle");
    let f = fields(&out.body);
    assert_eq!(f[0], ("Message".to_string(), "System has been idle for 5 minutes".to_string()));
    assert_eq!(f[1], ("Idle Time".to_string(), "5 minutes".to_string()));
    assert_eq!(m.state(), IdleState::Idle);
}

#[test]
fn idle_not_repeated_while_idle() {
    let mut m = IdleMonitor::new(sender(), 5, 0);
    assert_eq!(m.poll(300), Some(IdleTransition::BecameIdle { idle_minutes: 5 }));
    for t in 6..30u64 {
        assert_eq!(m.poll(t * 60), None);
    }
    assert_eq!(m.state(), IdleState::Idle);
}

#[test]
fn first_poll_past_threshold_reports_elapsed_minutes() {
    let mut m = IdleMonitor::new(sender(), 3, 0);
    assert_eq!(m.poll(119), None);
    assert_eq!(m.poll(250), Some(IdleTransition::BecameIdle { idle_minutes: 4 }));
    assert_eq!(m.poll(10_000), None);
}

#[test]
fn activity_while_idle_returns_to_active_once() {
    let mut m = IdleMonitor::new(sender(), 5, 0);
    assert_eq!(m.poll(300), Some(IdleTransition::BecameIdle { idle_minutes: 5 }));
    assert_eq!(m.poll(360), None);
    m.update_activity(600);
    assert_eq!(m.state(), IdleState::Idle);
    let out = m.tick(620, TS).unwrap().unwrap();
    assert_eq!(out.title, "System Active");
    let f = fields(&out.body);
    assert_eq!(f[0], ("Message".to_string(), "System has returned from idle state".to_string()));
    assert_eq!(f[1], ("Was Idle For".to_string(), "10 minutes".to_string()));
    assert_eq!(m.state(), IdleState::Active);
    assert!(m.tick(680, TS).is_none());
    assert!(m.tick(740, TS).is_none());
}

#[test]
fn idle_duration_runs_to_first_activity() {
    let mut m = IdleMonitor::new(sender(), 5, 0);
    assert!(m.poll(300).is_some());
    m.update_activity(420);
    m.update_activity(900);
    assert_eq!(m.poll(910), Some(IdleTransition::BecameActive { idle_minutes: 7 }));
}

#[test]
fn steady_active_polls_report_nothing() {
    let mut m = IdleMonitor::new(sender(), 5, 0);
    for t in 0..20u64 {
        m.update_activity(t * 60);
        assert_eq!(m.poll(t * 60 + 30), None);
    }
    assert_eq!(m.state(), IdleState::Active);
}

#[test]
fn clock_before_last_activity_counts_as_no_inactivity() {
    let mut m = IdleMonitor::new(sender(), 1, 1000);
    assert_eq!(m.poll(10), None);
    assert_eq!(m.poll(1060), Some(IdleTransition::BecameIdle { idle_minutes: 1 }));
}

#[test]
fn zero_threshold_goes_idle_at_first_poll() {
    let mut m = IdleMonitor::new(sender(), 0, 0);
    assert_eq!(m.poll(0), Some(IdleTransition::BecameIdle { idle_minutes: 0 }));
    m.update_activity(30);
    assert_eq!(m.poll(30), None);
}

#[test]
fn transition_kept_when_destination_missing() {
    let w = WebhookSender::with_destinations("dev".to_string(), None, None, None);
    let mut m = IdleMonitor::new(w, 5, 0);
    let r = m.tick(300, TS).unwrap();
    assert_eq!(r, Err(DispatchError::UnconfiguredCategory(EventCategory::Idle)));
    assert_eq!(m.state(), IdleState::Idle);
    assert!(m.tick(360, TS).is_none());
}

#[test]
fn stop_does_not_disturb_state_machine() {
    let mut m = IdleMonitor::new(sender(), 5, 0);
    m.start();
    assert!(m.poll(300).is_some());
    m.stop();
    assert!(!m.is_running());
    assert_eq!(m.state(), IdleState::Idle);
}
