//! The display rules that do not depend on the terminal: the colours of
//! readings and of the connection status, where a popup goes, and what the
//! footer shows.
use vstd::prelude::*;

use crate::input::{decimal, format_weight, push_decimal, thousandths_text};
use crate::mqtt::{status_text, MqttStatus};
use crate::state::{unit_name, AddScaleInput, AppState, InputStage, WeightInput, UNITS};
use crate::text::push_char;

verus! {

/// The colours the display gives readings and the status indicator.
#[derive(Clone, Copy, Debug, PartialEq, Eq, Structural)]
pub enum Color {
    White,
    Green,
    Yellow,
    Red,
}

/// The colour of a reading: yellow below zero, green above, white at zero.
pub fn weight_color(w: i64) -> (c: Color)
    ensures
        c == (if w < 0 {
            Color::Yellow
        } else if w > 0 {
            Color::Green
        } else {
            Color::White
        }),
{
    if w < 0 {
        Color::Yellow
    } else if w > 0 {
        Color::Green
    } else {
        Color::White
    }
}

/// The colour of the status indicator: green when connected, yellow while
/// connecting, red when disconnected or failed.
pub fn status_color(status: &MqttStatus) -> (c: Color)
    ensures
        c == (match *status {
            MqttStatus::Connected => Color::Green,
            MqttStatus::Connecting => Color::Yellow,
            _ => Color::Red,
        }),
{
    match status {
        MqttStatus::Connected => Color::Green,
        MqttStatus::Connecting => Color::Yellow,
        MqttStatus::Disconnected | MqttStatus::Error(_) => Color::Red,
    }
}

/// A rectangle of terminal cells.
#[derive(Clone, Copy, Debug, PartialEq, Eq, Structural)]
pub struct Rect {
    pub x: u16,
    pub y: u16,
    pub width: u16,
    pub height: u16,
}

/// Half of what is left of `outer` after taking `inner` from it, or zero
/// when `inner` does not fit.
pub open spec fn centre_offset(outer: u16, inner: u16) -> int {
    if outer > inner {
        (outer - inner) / 2
    } else {
        0
    }
}

/// The smaller of `a` and `b`.
pub open spec fn smaller(a: u16, b: u16) -> u16 {
    if a < b {
        a
    } else {
        b
    }
}

/// A `width` by `height` rectangle centred in `area`, cut down to `area`'s
/// size when it is larger.
pub fn centered_rect(width: u16, height: u16, area: Rect) -> (r: Rect)
    requires
        area.x + centre_offset(area.width, width) <= u16::MAX,
        area.y + centre_offset(area.height, height) <= u16::MAX,
    ensures
        r.x == area.x + centre_offset(area.width, width),
        r.y == area.y + centre_offset(area.height, height),
        r.width == smaller(width, area.width),
        r.height == smaller(height, area.height),
{
    let x = area.x + (area.width.saturating_sub(width)) / 2;
    let y = area.y + (area.height.saturating_sub(height)) / 2;
    Rect {
        x,
        y,
        width: if width < area.width {
            width
        } else {
            area.width
        },
        height: if height < area.height {
            height
        } else {
            area.height
        },
    }
}

/// Static settings shown in the footer.
pub struct DisplayConfig {
    pub broker: String,
    pub port: u16,
    pub topic_prefix: String,
    pub interval_ms: u64,
}

/// `n` spaces.
pub open spec fn spaces(n: nat) -> Seq<char> {
    Seq::new(n, |_i: int| ' ')
}

/// `s` followed by spaces up to `width` characters, as `{:<width}` writes
/// it.
pub open spec fn pad_end(s: Seq<char>, width: nat) -> Seq<char> {
    if s.len() < width {
        s + spaces((width - s.len()) as nat)
    } else {
        s
    }
}

/// `s` preceded by spaces up to `width` characters, as `{:>width}` writes
/// it.
pub open spec fn pad_start(s: Seq<char>, width: nat) -> Seq<char> {
    if s.len() < width {
        spaces((width - s.len()) as nat) + s
    } else {
        s
    }
}

/// Appends `n` spaces.
fn push_spaces(s: &mut String, n: usize)
    ensures
        final(s)@ == old(s)@ + spaces(n as nat),
{
    let mut i: usize = 0;
    while i < n
        invariant
            i <= n,
            s@ == old(s)@ + spaces(i as nat),
        decreases n - i,
    {
        push_char(s, ' ');
        i = i + 1;
        proof {
            assert(s@ =~= old(s)@ + spaces(i as nat));
        }
    }
}

/// The list cell that names a scale: its serial, padded to 14 characters.
pub fn serial_cell(serial: &str) -> (r: String)
    ensures
        r@ == pad_end(serial@, 14),
{
    let mut r = String::from_str(serial);
    let n = serial.unicode_len();
    if n < 14 {
        push_spaces(&mut r, 14 - n);
    }
    r
}

/// The list cell that shows a reading: the weight with three decimals,
/// right-aligned in 10 characters, a space, and the unit padded to 3.
pub fn reading_cell(weight: i64, unit: &str) -> (r: String)
    ensures
        r@ == pad_start(thousandths_text(weight as int), 10) + seq![' '] + pad_end(unit@, 3),
{
    let w = format_weight(weight);
    let n = w.as_str().unicode_len();
    let mut r = String::new();
    if n < 10 {
        push_spaces(&mut r, 10 - n);
    }
    r.append(w.as_str());
    push_char(&mut r, ' ');
    r.append(unit);
    let m = unit.unicode_len();
    if m < 3 {
        push_spaces(&mut r, 3 - m);
    }
    proof {
        assert(r@ =~= pad_start(thousandths_text(weight as int), 10) + seq![' '] + pad_end(unit@, 3));
    }
    r
}

/// The serial of the selected scale, or nothing when the selection points
/// at no scale; the set-weight form names the scale it sets with it.
pub fn selected_serial(app: &AppState) -> (r: String)
    ensures
        r@ == (if app.selected < app.scales@.len() {
            app.selected_scale().serial_number@
        } else {
            Seq::<char>::empty()
        }),
{
    if app.selected < app.scales.len() {
        app.scales[app.selected].serial_number.clone()
    } else {
        String::new()
    }
}

/// The serial as the add-scale form shows it: with a `_` cursor after it
/// while it is the field being edited.
pub fn serial_field(input: &AddScaleInput) -> (r: String)
    ensures
        r@ == (if input.stage == InputStage::Serial {
            input.serial@.push('_')
        } else {
            input.serial@
        }),
{
    let mut r = input.serial.clone();
    if input.stage == InputStage::Serial {
        push_char(&mut r, '_');
    }
    r
}

/// The title of the scale list: ` Scales ({n}) `.
pub fn scales_title(n: usize) -> (r: String)
    ensures
        r@ == " Scales ("@ + decimal(n as nat) + ") "@,
{
    let mut r = String::from_str(" Scales (");
    push_decimal(&mut r, n as u64);
    r.append(") ");
    r
}

/// The footer's connection line after the indicator:
/// ` {status}    Broker: {broker}:{port}`.
pub fn footer_status_text(status: &MqttStatus, cfg: &DisplayConfig) -> (r: String)
    ensures
        r@ == " "@ + status_text(*status) + "    Broker: "@ + cfg.broker@ + ":"@ + decimal(
            cfg.port as nat,
        ),
{
    let mut r = String::from_str(" ");
    let d = status.describe();
    r.append(d.as_str());
    r.append("    Broker: ");
    r.append(cfg.broker.as_str());
    r.append(":");
    push_decimal(&mut r, cfg.port as u64);
    r
}

/// The footer's topic line:
/// `  Topic: {prefix}/<serial>    Interval: {interval}ms`.
pub fn footer_topic_text(cfg: &DisplayConfig) -> (r: String)
    ensures
        r@ == "  Topic: "@ + cfg.topic_prefix@ + "/<serial>    Interval: "@ + decimal(
            cfg.interval_ms as nat,
        ) + "ms"@,
{
    let mut r = String::from_str("  Topic: ");
    r.append(cfg.topic_prefix.as_str());
    r.append("/<serial>    Interval: ");
    push_decimal(&mut r, cfg.interval_ms);
    r.append("ms");
    r
}

/// The chosen unit as the add-scale form shows it: `< {unit} >`.
pub fn unit_choice_text(input: &AddScaleInput) -> (r: String)
    requires
        input.unit_index < UNITS.len(),
    ensures
        r@ == "< "@ + unit_name(input.unit_index as int) + " >"@,
{
    String::from_str("< ").concat(input.unit()).concat(" >")
}

/// The list of units the add-scale form offers: `  (of kg, g, lb, oz)`.
pub fn units_hint() -> (r: String)
    ensures
        r@ == "  (of "@ + unit_name(0) + ", "@ + unit_name(1) + ", "@ + unit_name(2) + ", "@
            + unit_name(3) + ")"@,
{
    proof {
        reveal_strlit("kg");
        reveal_strlit("g");
        reveal_strlit("lb");
        reveal_strlit("oz");
    }
    let mut r = String::from_str("  (of ");
    r.append(UNITS[0]);
    r.append(", ");
    r.append(UNITS[1]);
    r.append(", ");
    r.append(UNITS[2]);
    r.append(", ");
    r.append(UNITS[3]);
    r.append(")");
    r
}

/// The key hint under the add-scale form, which depends on the field
/// being edited.
pub fn form_hint(stage: InputStage) -> (r: &'static str)
    ensures
        r@ == (if stage == InputStage::Serial {
            "  type serial · Enter next · Esc cancel"@
        } else {
            "  ←/→ unit · Enter add · Esc cancel"@
        }),
{
    match stage {
        InputStage::Serial => "  type serial · Enter next · Esc cancel",
        InputStage::Unit => "  ←/→ unit · Enter add · Esc cancel",
    }
}

/// The typed weight as the set-weight form shows it, with a `_` cursor.
pub fn weight_field(input: &WeightInput) -> (r: String)
    ensures
        r@ == input.buffer@.push('_'),
{
    let mut r = input.buffer.clone();
    push_char(&mut r, '_');
    r
}

/// The line of the set-weight form that names the scale being set:
/// `  Scale  : {serial}`, with nothing after it when the selection points
/// at no scale.
pub fn weight_form_scale_line(app: &AppState) -> (r: String)
    ensures
        r@ == "  Scale  : "@ + (if app.selected < app.scales@.len() {
            app.selected_scale().serial_number@
        } else {
            Seq::<char>::empty()
        }),
{
    let serial = selected_serial(app);
    String::from_str("  Scale  : ").concat(serial.as_str())
}

} // verus!
