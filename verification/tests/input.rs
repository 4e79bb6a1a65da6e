use ews_scale_sim::input::{format_weight, handle_key, Action, KeyCode, KeyEvent, KeyEventKind};
use ews_scale_sim::state::{AppState, InputStage};

fn press(code: KeyCode) -> KeyEvent {
    KeyEvent { code, kind: KeyEventKind::Press }
}

fn key(app: &mut AppState, code: KeyCode) -> Action {
    handle_key(app, press(code), None)
}

fn type_text(app: &mut AppState, text: &str) {
    for c in text.chars() {
        key(app, KeyCode::Char(c));
    }
}

#[test]
fn weight_text_has_three_decimals() {
    assert_eq!(format_weight(-43), "-0.043");
    assert_eq!(format_weight(0), "0.000");
    assert_eq!(format_weight(1000), "1.000");
    assert_eq!(format_weight(1235), "1.235");
    assert_eq!(format_weight(-12500), "-12.500");
    assert_eq!(format_weight(i64::MIN), "-9223372036854775.808");
}

#[test]
fn adding_a_scale_through_the_form() {
    let mut app = AppState::default();
    assert_eq!(key(&mut app, KeyCode::Char('a')), Action::Continue);
    type_text(&mut app, "SIM-01x");
    key(&mut app, KeyCode::Backspace);
    type_text(&mut app, "2");
    assert_eq!(app.input.as_ref().unwrap().serial, "SIM-012");
    key(&mut app, KeyCode::Enter);
    assert_eq!(app.input.as_ref().unwrap().stage, InputStage::Unit);
    key(&mut app, KeyCode::Right);
    key(&mut app, KeyCode::Right);
    key(&mut app, KeyCode::Left);
    key(&mut app, KeyCode::Enter);
    assert!(app.input.is_none());
    assert_eq!(app.scales.len(), 1);
    assert_eq!(app.scales[0].serial_number, "SIM-012");
    assert_eq!(app.scales[0].unit, "g");
}

#[test]
fn blank_serial_stays_on_the_serial_field() {
    let mut app = AppState::default();
    key(&mut app, KeyCode::Char('A'));
    type_text(&mut app, "   ");
    key(&mut app, KeyCode::Enter);
    assert_eq!(app.input.as_ref().unwrap().stage, InputStage::Serial);
}

#[test]
fn duplicate_serial_reopens_the_form() {
    let mut app = AppState::default();
    app.add_scale("S1".to_string(), "kg".to_string());
    key(&mut app, KeyCode::Char('a'));
    type_text(&mut app, "S1");
    key(&mut app, KeyCode::Enter);
    key(&mut app, KeyCode::Enter);
    let form = app.input.as_ref().unwrap();
    assert_eq!(form.stage, InputStage::Serial);
    assert_eq!(form.serial, "S1");
    assert_eq!(app.scales.len(), 1);
    key(&mut app, KeyCode::Esc);
    assert!(app.input.is_none());
}

#[test]
fn keys_move_and_nudge_the_selected_scale() {
    let mut app = AppState::default();
    app.add_scale("A".to_string(), "kg".to_string());
    app.add_scale("B".to_string(), "kg".to_string());
    key(&mut app, KeyCode::Down);
    assert_eq!(app.selected, 0);
    key(&mut app, KeyCode::Right);
    key(&mut app, KeyCode::PageUp);
    assert_eq!(app.scales[0].weight_value, 101);
    key(&mut app, KeyCode::Left);
    key(&mut app, KeyCode::PageDown);
    key(&mut app, KeyCode::PageDown);
    assert_eq!(app.scales[0].weight_value, -100);
    key(&mut app, KeyCode::Up);
    assert_eq!(app.selected, 1);
    key(&mut app, KeyCode::Right);
    key(&mut app, KeyCode::Char('Z'));
    assert_eq!(app.scales[1].weight_value, 0);
    assert_eq!(app.scales[0].weight_value, -100);
}

#[test]
fn set_weight_form_applies_a_typed_reading() {
    let mut app = AppState::default();
    app.add_scale("A".to_string(), "kg".to_string());
    app.scales[0].set_weight(-43);
    key(&mut app, KeyCode::Char('w'));
    assert_eq!(app.weight_input.as_ref().unwrap().buffer, "-0.043");
    for _ in 0..6 {
        key(&mut app, KeyCode::Backspace);
    }
    type_text(&mut app, "2x.5");
    assert_eq!(app.weight_input.as_ref().unwrap().buffer, "2.5");
    // Text that reads as no number keeps the form open.
    handle_key(&mut app, press(KeyCode::Enter), None);
    assert!(app.weight_input.is_some());
    handle_key(&mut app, press(KeyCode::Enter), Some(2500));
    assert!(app.weight_input.is_none());
    assert_eq!(app.scales[0].weight_value, 2500);
}

#[test]
fn set_weight_form_needs_a_scale_and_esc_cancels_it() {
    let mut app = AppState::default();
    key(&mut app, KeyCode::Char('W'));
    assert!(app.weight_input.is_none());
    app.add_scale("A".to_string(), "kg".to_string());
    key(&mut app, KeyCode::Char('W'));
    assert_eq!(key(&mut app, KeyCode::Esc), Action::Continue);
    assert!(app.weight_input.is_none());
    assert_eq!(app.scales[0].weight_value, 0);
}

#[test]
fn quit_keys_and_releases() {
    let mut app = AppState::default();
    assert_eq!(key(&mut app, KeyCode::Char('q')), Action::Quit);
    assert_eq!(key(&mut app, KeyCode::Char('Q')), Action::Quit);
    assert_eq!(key(&mut app, KeyCode::Esc), Action::Quit);
    assert_eq!(key(&mut app, KeyCode::Char('x')), Action::Continue);
    let release = KeyEvent { code: KeyCode::Char('q'), kind: KeyEventKind::Release };
    assert_eq!(handle_key(&mut app, release, None), Action::Continue);
    let repeat = KeyEvent { code: KeyCode::Char('a'), kind: KeyEventKind::Repeat };
    handle_key(&mut app, repeat, None);
    assert!(app.input.is_none());
}
