use raa::text::decimal_string;
use raa::webhook::{DispatchError, EventCategory, WebhookSender};

const TS: &str = "2024-01-01T00:00:00+00:00";

fn sender() -> WebhookSender {
    WebhookSender::new(
        "dev".to_string(),
        "https://hooks.example/system".to_string(),
        "https://hooks.example/usb".to_string(),
        "https://hooks.example/idle".to_string(),
    )
}

#[test]
fn send_renders_exact_body() {
    let out = sender().send(EventCategory::System, "T", "M", vec![], TS).unwrap();
    assert_eq!(out.url, "https://hooks.example/system");
    assert_eq!(out.category, EventCategory::System);
    assert_eq!(out.title, "T");
    assert_eq!(
        out.body,
        "{\"username\":\"RAA - dev\",\"content\":\"\",\"avatar_url\":\"https://i.imgur.com/example.png\",\"embeds\":[{\"title\":\"T\",\"color\":3447003,\"timestamp\":\"2024-01-01T00:00:00+00:00\",\"fields\":[{\"name\":\"Message\",\"value\":\"M\",\"inline\":false}],\"footer\":{\"text\":\"RAA v0.1.0 | Device: dev\"}}]}"
    );
}

#[test]
fn send_puts_message_first_then_extra_fields_inline() {
    let fields = vec![
        ("A".to_string(), "1".to_string()),
        ("B".to_string(), "2".to_string()),
    ];
    let out = sender().send(EventCategory::Usb, "Title", "hello", fields, TS).unwrap();
    assert_eq!(out.url, "https://hooks.example/usb");
    let v: serde_json::Value = serde_json::from_str(&out.body).unwrap();
    let embed = &v["embeds"][0];
    assert_eq!(embed["title"], "Title");
    assert_eq!(embed["color"], 15158332);
    assert_eq!(embed["timestamp"], TS);
    let f = embed["fields"].as_array().unwrap();
    assert_eq!(f.len(), 3);
    assert_eq!(f[0]["name"], "Message");
    assert_eq!(f[0]["value"], "hello");
    assert_eq!(f[0]["inline"], false);
    assert_eq!(f[1]["name"], "A");
    assert_eq!(f[1]["value"], "1");
    assert_eq!(f[1]["inline"], true);
    assert_eq!(f[2]["name"], "B");
    assert_eq!(f[2]["value"], "2");
    assert_eq!(v["username"], "RAA - dev");
    assert_eq!(embed["footer"]["text"], "RAA v0.1.0 | Device: dev");
}

#[test]
fn send_escapes_json_strings() {
    let msg = "a\"b\\c\nd\te\r\u{1}f\u{1f}é";
    let out = sender().send(EventCategory::Idle, "x", msg, vec![], TS).unwrap();
    assert!(out.body.contains("a\\\"b\\\\c\\nd\\te\\r\\u0001f\\u001fé"));
    let v: serde_json::Value = serde_json::from_str(&out.body).unwrap();
    assert_eq!(v["embeds"][0]["fields"][0]["value"], msg);
    assert_eq!(v["embeds"][0]["color"], 15844367);
}

#[test]
fn unconfigured_category_is_rejected() {
    let w = WebhookSender::with_destinations(
        "dev".to_string(),
        Some("https://hooks.example/system".to_string()),
        None,
        Some("https://hooks.example/idle".to_string()),
    );
    let r = w.send(EventCategory::Usb, "t", "m", vec![], TS);
    assert_eq!(r, Err(DispatchError::UnconfiguredCategory(EventCategory::Usb)));
    assert!(w.destination(EventCategory::Usb).is_none());
    assert!(w.send(EventCategory::System, "t", "m", vec![], TS).is_ok());
}

#[test]
fn category_colors_and_names() {
    assert_eq!(EventCategory::System.color(), 0x3498db);
    assert_eq!(EventCategory::Usb.color(), 0xe74c3c);
    assert_eq!(EventCategory::Idle.color(), 0xf1c40f);
    assert_eq!(EventCategory::System.name(), "system");
    assert_eq!(EventCategory::Usb.name(), "usb");
    assert_eq!(EventCategory::Idle.name(), "idle");
}

#[test]
fn decimal_rendering() {
    assert_eq!(decimal_string(0), "0");
    assert_eq!(decimal_string(7), "7");
    assert_eq!(decimal_string(10), "10");
    assert_eq!(decimal_string(3447003), "3447003");
    assert_eq!(decimal_string(u64::MAX), "18446744073709551615");
}
