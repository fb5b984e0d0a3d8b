use raa::heartbeat::{send_heartbeat, HeartbeatScheduler};
use raa::system::{boot_info, get_system_info, send_boot_notification, SystemSnapshot};
use raa::webhook::{EventCategory, WebhookSender};

const TS: &str = "2024-01-01T00:15:00+00:00";

fn sender() -> WebhookSender {
    WebhookSender::new(
        "dev".to_string(),
        "https://hooks.example/system".to_string(),
        "https://hooks.example/usb".to_string(),
        "https://hooks.example/idle".to_string(),
    )
}

fn snapshot() -> SystemSnapshot {
    SystemSnapshot {
        os_name: Some("Darwin".to_string()),
        os_version: Some("14.1".to_string()),
        kernel_version: Some("23.1.0".to_string()),
        host_name: Some("mac-mini".to_string()),
        total_memory: 16 * 1024 * 1024 * 1024,
        used_memory: 3 * 1024 * 1024 * 1024 + 5,
        cpu_count: 8,
        uptime: 4242,
    }
}

fn fields(body: &str) -> Vec<(String, String)> {
    let v: serde_json::Value = serde_json::from_str(body).unwrap();
    v["embeds"][0]["fields"]
        .as_array()
        .unwrap()
        .iter()
        .map(|f| (f["name"].as_str().unwrap().to_string(), f["value"].as_str().unwrap().to_string()))
        .collect()
}

fn pair(a: &str, b: &str) -> (String, String) {
    (a.to_string(), b.to_string())
}

#[test]
fn cron_expression_every_fifteen_minutes() {
    let h = HeartbeatScheduler::new(sender(), 15);
    assert_eq!(h.interval_minutes(), 15);
    assert_eq!(h.cron_expression(), "0 */15 * * * *");
}

#[test]
fn every_fire_dispatches_heartbeat_with_hostname() {
    let h = HeartbeatScheduler::new(sender(), 15);
    for _ in 0..3 {
        let out = h.fire(&snapshot(), TS).unwrap();
        assert_eq!(out.category, EventCategory::System);
        assert_eq!(out.title, "Heartbeat");
        assert_eq!(out.url, "https://hooks.example/system");
        let f = fields(&out.body);
        assert!(f.len() > 1);
        assert!(f.contains(&pair("Hostname", "mac-mini")));
    }
}

#[test]
fn heartbeat_fields_in_order() {
    assert_eq!(
        get_system_info(&snapshot()),
        vec![
            pair("OS", "Darwin"),
            pair("OS Version", "14.1"),
            pair("Kernel", "23.1.0"),
            pair("Hostname", "mac-mini"),
            pair("Total Memory", "16384 MB"),
            pair("Used Memory", "3072 MB"),
            pair("CPU Count", "8"),
        ]
    );
}

#[test]
fn heartbeat_fields_default_to_unknown() {
    let s = SystemSnapshot {
        os_name: None,
        os_version: None,
        kernel_version: None,
        host_name: None,
        total_memory: 0,
        used_memory: 0,
        cpu_count: 0,
        uptime: 0,
    };
    let f = get_system_info(&s);
    assert_eq!(f[0], pair("OS", "Unknown"));
    assert_eq!(f[3], pair("Hostname", "Unknown"));
    assert_eq!(f[4], pair("Total Memory", "0 MB"));
}

#[test]
fn send_heartbeat_message() {
    let out = send_heartbeat(&sender(), &snapshot(), TS).unwrap();
    let f = fields(&out.body);
    assert_eq!(f[0], pair("Message", "Regular system heartbeat check-in"));
    assert_eq!(f[1..].to_vec(), get_system_info(&snapshot()));
}

#[test]
fn boot_notification_fields() {
    let out = send_boot_notification(&sender(), &snapshot(), TS).unwrap();
    assert_eq!(out.title, "System Started");
    assert_eq!(out.category, EventCategory::System);
    let f = fields(&out.body);
    assert_eq!(f[0], pair("Message", "The system has been started or RAA has been launched."));
    assert_eq!(f[1], pair("OS", "Darwin 14.1"));
    assert_eq!(f[2], pair("Kernel", "23.1.0"));
    assert_eq!(f[3], pair("Host", "mac-mini"));
    assert_eq!(f[4], pair("Uptime", "4242 seconds"));
}

#[test]
fn boot_fields_default_to_unknown() {
    let s = SystemSnapshot {
        os_name: None,
        os_version: None,
        kernel_version: None,
        host_name: None,
        total_memory: 0,
        used_memory: 0,
        cpu_count: 0,
        uptime: 0,
    };
    assert_eq!(
        boot_info(&s),
        vec![
            pair("OS", "Unknown OS Unknown version"),
            pair("Kernel", "Unknown kernel"),
            pair("Host", "Unknown hostname"),
            pair("Uptime", "0 seconds"),
        ]
    );
}
