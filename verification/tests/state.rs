use std::time::Instant;

use ews_scale_sim::state::{AddScaleInput, AppState, InputStage, Scale, WeightInput, UNITS};

/// A reading in thousandths, as the application rounds typed and nudged
/// weights to three decimals.
fn thousandths(v: f64) -> i64 {
    (v * 1000.0).round() as i64
}

#[test]
fn new_scale_has_defaults() {
    let s = Scale::new("SIM-001".to_string(), "kg".to_string());
    assert_eq!(s.serial_number, "SIM-001");
    assert_eq!(s.weight_value, 0);
    assert_eq!(s.unit, "kg");
    assert_eq!(s.tare_value, 0);
    assert!(s.last_publish.is_none());
}

#[test]
fn adjust_weight_rounds_and_handles_drift() {
    let mut s = Scale::new("SIM-001".to_string(), "kg".to_string());
    for _ in 0..10 {
        s.adjust_weight(thousandths(0.1));
    }
    assert_eq!(s.weight_value, thousandths(1.0));
    s.adjust_weight(thousandths(-1.043));
    assert_eq!(s.weight_value, thousandths(-0.043));
}

#[test]
fn zero_resets_weight() {
    let mut s = Scale::new("SIM-001".to_string(), "g".to_string());
    s.adjust_weight(thousandths(1.234));
    s.zero();
    assert_eq!(s.weight_value, 0);
}

#[test]
fn zero_by_serial_targets_named_scale() {
    let mut app = AppState::default();
    app.add_scale("A".to_string(), "kg".to_string());
    app.add_scale("B".to_string(), "kg".to_string());
    app.scales[0].adjust_weight(thousandths(1.5));
    app.scales[1].adjust_weight(thousandths(2.5));

    assert!(app.zero_by_serial("A"));
    assert_eq!(app.scales[0].weight_value, 0);
    assert_eq!(app.scales[1].weight_value, thousandths(2.5));

    assert!(!app.zero_by_serial("MISSING"));
}

#[test]
fn add_scale_rejects_blank_and_duplicate() {
    let mut app = AppState::default();
    assert!(app.add_scale("  ".to_string(), "kg".to_string()) == false);
    assert!(app.add_scale("SIM-001".to_string(), "kg".to_string()));
    assert!(app.add_scale("SIM-001".to_string(), "g".to_string()) == false);
    assert_eq!(app.scales.len(), 1);
}

#[test]
fn add_scale_trims_and_selects_new() {
    let mut app = AppState::default();
    app.add_scale("A".to_string(), "kg".to_string());
    app.add_scale("  B  ".to_string(), "lb".to_string());
    assert_eq!(app.scales[1].serial_number, "B");
    assert_eq!(app.selected, 1);
}

#[test]
fn selection_wraps_and_adjust_targets_selected() {
    let mut app = AppState::default();
    app.add_scale("A".to_string(), "kg".to_string());
    app.add_scale("B".to_string(), "kg".to_string());
    app.select_next(); // wrap 1 -> 0
    assert_eq!(app.selected, 0);
    app.select_prev(); // wrap 0 -> 1
    assert_eq!(app.selected, 1);
    app.adjust_selected(thousandths(0.5));
    assert_eq!(app.scales[1].weight_value, thousandths(0.5));
    assert_eq!(app.scales[0].weight_value, 0);
}

#[test]
fn adjust_on_empty_is_noop() {
    let mut app = AppState::default();
    app.adjust_selected(thousandths(0.1));
    app.zero_selected();
    app.select_next();
    assert!(app.scales.is_empty());
}

#[test]
fn set_selected_weight_rounds_and_targets_selected() {
    let mut app = AppState::default();
    app.add_scale("A".to_string(), "kg".to_string());
    app.add_scale("B".to_string(), "kg".to_string());
    app.selected = 0;
    app.set_selected_weight(thousandths(1.23456));
    assert_eq!(app.scales[0].weight_value, thousandths(1.235));
    assert_eq!(app.scales[1].weight_value, 0);
    assert_eq!(app.selected_weight(), Some(thousandths(1.235)));
}

#[test]
fn set_selected_weight_on_empty_is_noop() {
    let mut app = AppState::default();
    app.set_selected_weight(thousandths(5.0));
    assert!(app.scales.is_empty());
    assert_eq!(app.selected_weight(), None);
}

#[test]
fn cycle_unit_wraps_both_directions() {
    let mut i = AddScaleInput::default();
    assert_eq!(i.unit(), "kg");
    i.cycle_unit(false);
    assert_eq!(i.unit(), UNITS[UNITS.len() - 1]);
    i.cycle_unit(true);
    assert_eq!(i.unit(), "kg");
}

#[test]
fn four_unit_steps_go_all_the_way_round() {
    let mut i = AddScaleInput::default();
    let mut seen = Vec::new();
    for _ in 0..4 {
        seen.push(i.unit());
        i.cycle_unit(true);
    }
    assert_eq!(seen, vec!["kg", "g", "lb", "oz"]);
    assert_eq!(i.unit_index, 0);
    i.cycle_unit(true);
    i.cycle_unit(false);
    assert_eq!(i.unit_index, 0);
    assert_eq!(i.stage, InputStage::Serial);
}

#[test]
fn adjusting_saturates_at_the_ends_of_the_range() {
    let mut s = Scale::new("S".to_string(), "kg".to_string());
    s.set_weight(i64::MAX - 1);
    s.adjust_weight(5);
    assert_eq!(s.weight_value, i64::MAX);
    s.set_weight(i64::MIN + 2);
    s.adjust_weight(-100);
    assert_eq!(s.weight_value, i64::MIN);
}

#[test]
fn adjusting_back_and_forth_restores_the_reading() {
    let mut s = Scale::new("S".to_string(), "kg".to_string());
    s.set_weight(-43);
    s.adjust_weight(100);
    s.adjust_weight(-100);
    assert_eq!(s.weight_value, -43);
}

#[test]
fn selection_round_trips() {
    let mut app = AppState::default();
    for name in ["A", "B", "C"] {
        assert!(app.add_scale(name.to_string(), "kg".to_string()));
    }
    for start in 0..3 {
        app.selected = start;
        app.select_next();
        app.select_prev();
        assert_eq!(app.selected, start);
        app.select_prev();
        app.select_next();
        assert_eq!(app.selected, start);
    }
}

#[test]
fn added_scale_is_selected_and_reachable_by_serial() {
    let mut app = AppState::default();
    assert!(app.add_scale(" X1 ".to_string(), "oz".to_string()));
    assert!(app.add_scale("X2".to_string(), "g".to_string()));
    assert_eq!(app.selected, 1);
    assert_eq!(app.scales[1].unit, "g");
    app.scales[0].set_weight(7);
    assert!(app.zero_by_serial("X1"));
    assert_eq!(app.scales[0].weight_value, 0);
    assert!(!app.add_scale("\tX1\n".to_string(), "kg".to_string()));
    assert_eq!(app.selected, 1);
}

#[test]
fn mark_published_targets_named_scale() {
    let mut app = AppState::default();
    app.add_scale("A".to_string(), "kg".to_string());
    app.add_scale("B".to_string(), "kg".to_string());
    let at = Instant::now();
    app.mark_published("B", at);
    assert!(app.scales[0].last_publish.is_none());
    assert_eq!(app.scales[1].last_publish, Some(at));
    app.mark_published("MISSING", at);
    assert!(app.scales[0].last_publish.is_none());
}

#[test]
fn forms_start_empty() {
    let form = AddScaleInput::default();
    assert_eq!(form.serial, "");
    assert_eq!(form.unit_index, 0);
    assert_eq!(form.stage, InputStage::Serial);
    assert_eq!(WeightInput::default().buffer, "");
    let app = AppState::default();
    assert!(app.scales.is_empty() && app.selected == 0);
    assert!(app.input.is_none() && app.weight_input.is_none());
}

#[test]
fn selection_past_the_end_wraps_onto_a_scale() {
    let mut app = AppState::default();
    for name in ["A", "B"] {
        app.add_scale(name.to_string(), "kg".to_string());
    }
    app.selected = 5;
    app.select_prev();
    assert_eq!(app.selected, 0);
    app.selected = usize::MAX - 1;
    app.select_next();
    assert_eq!(app.selected, 1);
}
