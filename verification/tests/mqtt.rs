use ews_scale_sim::mqtt::{
    apply_command, apply_command_text, command_filter, command_serial, credentials, on_connection_event, outgoing,
    publish_topic, transport_for, ConnectionEvent, MqttStatus, TransportKind,
};
use ews_scale_sim::state::AppState;

#[test]
fn parses_serial_from_command_topic() {
    assert_eq!(command_serial("scale/SIM-001/command", "scale"), Some("SIM-001"));
}

#[test]
fn rejects_non_command_and_mismatched_topics() {
    // Publish topic, not a command topic.
    assert_eq!(command_serial("scale/SIM-001", "scale"), None);
    // Wrong prefix.
    assert_eq!(command_serial("other/SIM-001/command", "scale"), None);
    // Missing serial.
    assert_eq!(command_serial("scale//command", "scale"), None);
    // Prefix-only false match (no trailing slash).
    assert_eq!(command_serial("scaleX/SIM-001/command", "scale"), None);
}

#[test]
fn rejects_serials_spanning_levels() {
    assert_eq!(command_serial("scale/a/b/command", "scale"), None);
    assert_eq!(command_serial("site/1/a/command", "site/1"), Some("a"));
}

#[test]
fn command_topic_round_trips_through_publish_topic() {
    let topic = format!("{}/command", publish_topic("plant/line", "S-9"));
    assert_eq!(command_serial(&topic, "plant/line"), Some("S-9"));
}

#[test]
fn topics_are_built_from_the_prefix() {
    assert_eq!(publish_topic("scale", "SIM-001"), "scale/SIM-001");
    assert_eq!(command_filter("scale"), "scale/+/command");
}

#[test]
fn status_reads_as_its_name() {
    assert_eq!(MqttStatus::Connecting.describe(), "Connecting");
    assert_eq!(MqttStatus::Connected.describe(), "Connected");
    assert_eq!(MqttStatus::Disconnected.describe(), "Disconnected");
    assert_eq!(MqttStatus::Error("refused".to_string()).describe(), "Error: refused");
}

fn two_scales() -> AppState {
    let mut app = AppState::default();
    app.add_scale("A".to_string(), "kg".to_string());
    app.add_scale("B".to_string(), "kg".to_string());
    app.scales[0].set_weight(1500);
    app.scales[1].set_weight(2500);
    app
}

#[test]
fn zero_command_zeroes_the_named_scale() {
    let mut app = two_scales();
    assert!(apply_command(&mut app, "scale/B/command", "scale", b"  Z\n"));
    assert_eq!(app.scales[0].weight_value, 1500);
    assert_eq!(app.scales[1].weight_value, 0);
}

#[test]
fn other_messages_change_nothing() {
    let mut app = two_scales();
    assert!(!apply_command(&mut app, "scale/B/command", "scale", b"tare"));
    assert!(!apply_command(&mut app, "scale/B", "scale", b"Z"));
    assert!(!apply_command(&mut app, "scale/B/command", "scale", b"zero{Z}"));
    assert!(!apply_command(&mut app, "scale/C/command", "scale", b"Z"));
    assert!(!apply_command(&mut app, "scale/B/command", "scale", &[0xff, 0xfe]));
    assert_eq!(app.scales[0].weight_value, 1500);
    assert_eq!(app.scales[1].weight_value, 2500);
}

#[test]
fn connection_events_drive_the_status() {
    let mut app = two_scales();
    let mut status = MqttStatus::Connecting;
    assert!(on_connection_event(&mut app, &mut status, "scale", &ConnectionEvent::ConnAck));
    assert_eq!(status.describe(), "Connected");
    let fail = ConnectionEvent::Failure("broken pipe".to_string());
    assert!(!on_connection_event(&mut app, &mut status, "scale", &fail));
    assert_eq!(status.describe(), "Error: broken pipe");
    let publish = ConnectionEvent::Publish {
        topic: "scale/A/command".to_string(),
        payload: b"Z".to_vec(),
    };
    assert!(!on_connection_event(&mut app, &mut status, "scale", &publish));
    assert_eq!(app.scales[0].weight_value, 0);
    assert_eq!(status.describe(), "Error: broken pipe");
    assert!(!on_connection_event(&mut app, &mut status, "scale", &ConnectionEvent::Other));
    assert_eq!(app.scales[1].weight_value, 2500);
}

#[test]
fn outgoing_lists_every_scale_in_order() {
    let app = two_scales();
    let out = outgoing(&app, "scale");
    assert_eq!(
        out,
        vec![
            ("scale/A".to_string(), "A".to_string()),
            ("scale/B".to_string(), "B".to_string())
        ]
    );
    assert!(outgoing(&AppState::default(), "scale").is_empty());
}

#[test]
fn broker_address_picks_the_transport() {
    assert_eq!(transport_for("wss://broker.example:443/mqtt"), TransportKind::Wss);
    assert_eq!(transport_for("ws://broker.example:80/mqtt"), TransportKind::Ws);
    assert_eq!(transport_for("localhost"), TransportKind::Tcp);
    assert_eq!(transport_for("wsx://odd"), TransportKind::Tcp);
}

#[test]
fn credentials_need_both_parts() {
    let u = Some("user".to_string());
    let p = Some("SECRET-REDACTED".to_string());
    assert_eq!(
        credentials(u.clone(), p.clone()),
        Some(("user".to_string(), "SECRET-REDACTED".to_string()))
    );
    assert_eq!(credentials(u, None), None);
    assert_eq!(credentials(None, p), None);
    assert_eq!(credentials(None, None), None);
}

#[test]
fn zero_command_text_applies_to_the_named_scale() {
    let mut app = two_scales();
    assert!(apply_command_text(&mut app, "scale/A/command", "scale", "Z"));
    assert_eq!(app.scales[0].weight_value, 0);
    assert!(!apply_command_text(&mut app, "scale/B/command", "scale", "zero"));
    assert_eq!(app.scales[1].weight_value, 2500);
}
