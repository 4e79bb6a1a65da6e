use ews_scale_sim::mqtt::MqttStatus;
use ews_scale_sim::state::{AddScaleInput, AppState, InputStage, WeightInput};
use ews_scale_sim::ui::{
    centered_rect, footer_status_text, footer_topic_text, form_hint, reading_cell, scales_title,
    selected_serial, serial_cell, serial_field, status_color, unit_choice_text, units_hint,
    weight_color, weight_field, weight_form_scale_line, Color, DisplayConfig, Rect,
};

#[test]
fn reading_colours_follow_the_sign() {
    assert_eq!(weight_color(-43), Color::Yellow);
    assert_eq!(weight_color(1), Color::Green);
    assert_eq!(weight_color(0), Color::White);
}

#[test]
fn status_colours() {
    assert_eq!(status_color(&MqttStatus::Connected), Color::Green);
    assert_eq!(status_color(&MqttStatus::Connecting), Color::Yellow);
    assert_eq!(status_color(&MqttStatus::Disconnected), Color::Red);
    assert_eq!(status_color(&MqttStatus::Error("x".to_string())), Color::Red);
}

#[test]
fn popup_is_centred_and_clipped() {
    let area = Rect { x: 2, y: 1, width: 80, height: 24 };
    assert_eq!(centered_rect(46, 8, area), Rect { x: 19, y: 9, width: 46, height: 8 });
    let small = Rect { x: 0, y: 0, width: 30, height: 5 };
    assert_eq!(centered_rect(46, 8, small), Rect { x: 0, y: 0, width: 30, height: 5 });
}

#[test]
fn list_cells_are_padded() {
    assert_eq!(serial_cell("SIM-001"), "SIM-001       ");
    assert_eq!(serial_cell("A-VERY-LONG-SERIAL"), "A-VERY-LONG-SERIAL");
    assert_eq!(reading_cell(-43, "kg"), "    -0.043 kg ");
    assert_eq!(reading_cell(1235, "oz"), format!("{:>10.3} {:<3}", 1.235f64, "oz"));
}

#[test]
fn form_fields_show_the_cursor_and_selected_serial() {
    let mut form = AddScaleInput::default();
    form.serial = "S1".to_string();
    assert_eq!(serial_field(&form), "S1_");
    form.stage = InputStage::Unit;
    assert_eq!(serial_field(&form), "S1");
    let mut app = AppState::default();
    assert_eq!(selected_serial(&app), "");
    app.add_scale("S1".to_string(), "kg".to_string());
    assert_eq!(selected_serial(&app), "S1");
}

#[test]
fn footer_lines_name_the_connection() {
    let cfg = DisplayConfig {
        broker: "localhost".to_string(),
        port: 1883,
        topic_prefix: "scale".to_string(),
        interval_ms: 100,
    };
    assert_eq!(
        footer_status_text(&MqttStatus::Connected, &cfg),
        " Connected    Broker: localhost:1883"
    );
    assert_eq!(
        footer_status_text(&MqttStatus::Error("timeout".to_string()), &cfg),
        " Error: timeout    Broker: localhost:1883"
    );
    assert_eq!(footer_topic_text(&cfg), "  Topic: scale/<serial>    Interval: 100ms");
    assert_eq!(scales_title(0), " Scales (0) ");
    assert_eq!(scales_title(12), " Scales (12) ");
}

#[test]
fn popup_text_follows_the_form() {
    let mut form = AddScaleInput::default();
    assert_eq!(unit_choice_text(&form), "< kg >");
    form.cycle_unit(false);
    assert_eq!(unit_choice_text(&form), "< oz >");
    assert_eq!(units_hint(), "  (of kg, g, lb, oz)");
    assert_eq!(form_hint(InputStage::Serial), "  type serial · Enter next · Esc cancel");
    assert_eq!(form_hint(InputStage::Unit), "  ←/→ unit · Enter add · Esc cancel");
    let w = WeightInput { buffer: "-2.5".to_string() };
    assert_eq!(weight_field(&w), "-2.5_");
    let mut app = AppState::default();
    assert_eq!(weight_form_scale_line(&app), "  Scale  : ");
    app.add_scale("SIM-7".to_string(), "kg".to_string());
    assert_eq!(weight_form_scale_line(&app), "  Scale  : SIM-7");
}
