//! Key handling: what each key does to the simulator, in the scale list and
//! in the two edit forms.
use vstd::prelude::*;

use crate::state::{
    next_index, next_unit, prev_index, prev_unit, unit_name, AddScaleInput, AppState, InputStage,
    Scale, WeightInput, UNITS,
};
use crate::text::{pop_char, push_char, trim, trimmed};

verus! {

/// The character of the decimal digit `d`.
pub open spec fn digit_char(d: int) -> char {
    (d + 48) as char
}

/// The decimal digits of `n`, most significant first, without leading
/// zeros (a single `0` for zero).
pub open spec fn decimal(n: nat) -> Seq<char>
    decreases n,
{
    if n < 10 {
        seq![digit_char(n as int)]
    } else {
        decimal(n / 10).push(digit_char((n % 10) as int))
    }
}

/// `w` thousandths written as a decimal with exactly three fractional
/// digits, as `{:.3}` writes the number `w / 1000`: `-43` reads `-0.043`.
pub open spec fn thousandths_text(w: int) -> Seq<char> {
    let a = if w < 0 {
        -w
    } else {
        w
    };
    let f = a % 1000;
    (if w < 0 {
        seq!['-']
    } else {
        Seq::<char>::empty()
    }) + decimal((a / 1000) as nat) + seq![
        '.',
        digit_char(f / 100),
        digit_char((f / 10) % 10),
        digit_char(f % 10),
    ]
}

/// The character of the decimal digit `d`.
fn digit(d: u64) -> (c: char)
    requires
        d < 10,
    ensures
        c == digit_char(d as int),
{
    ((d as u8) + 48u8) as char
}

/// Appends the decimal digits of `n`.
pub(crate) fn push_decimal(s: &mut String, n: u64)
    ensures
        final(s)@ == old(s)@ + decimal(n as nat),
    decreases n,
{
    if n >= 10 {
        push_decimal(s, n / 10);
    }
    push_char(s, digit(n % 10));
    proof {
        if n >= 10 {
            assert(old(s)@ + decimal(n as nat) =~= old(s)@ + decimal((n / 10) as nat) + seq![
                digit_char((n % 10) as int),
            ]);
        }
    }
}

/// Writes `w` thousandths with three decimals, as the set-weight form
/// shows the current reading: `-43` gives `-0.043`, `1000` gives `1.000`.
pub fn format_weight(w: i64) -> (r: String)
    ensures
        r@ == thousandths_text(w as int),
{
    let mut s = String::new();
    let a: u64 = if w < 0 {
        push_char(&mut s, '-');
        ((-(w + 1)) as u64) + 1
    } else {
        w as u64
    };
    push_decimal(&mut s, a / 1000);
    push_char(&mut s, '.');
    let f = a % 1000;
    push_char(&mut s, digit(f / 100));
    push_char(&mut s, digit((f / 10) % 10));
    push_char(&mut s, digit(f % 10));
    proof {
        assert(s@ =~= thousandths_text(w as int));
    }
    s
}

/// The keys the simulator tells apart; every other key is `Other`.
#[derive(Clone, Copy, Debug, PartialEq, Eq, Structural)]
pub enum KeyCode {
    Up,
    Down,
    Left,
    Right,
    PageUp,
    PageDown,
    Enter,
    Esc,
    Backspace,
    Char(char),
    Other,
}

/// Whether a key went down, repeats, or came up.
#[derive(Clone, Copy, Debug, PartialEq, Eq, Structural)]
pub enum KeyEventKind {
    Press,
    Repeat,
    Release,
}

/// One key event.
#[derive(Clone, Copy, Debug, PartialEq, Eq, Structural)]
pub struct KeyEvent {
    pub code: KeyCode,
    pub kind: KeyEventKind,
}

/// What the caller does after a key: go on, or leave.
#[derive(Clone, Copy, Debug, PartialEq, Eq, Structural)]
pub enum Action {
    Continue,
    Quit,
}

/// The characters that the set-weight form takes: ASCII digits, the
/// decimal point and the minus sign.
pub open spec fn weight_char(c: char) -> bool {
    ('0' <= c && c <= '9') || c == '.' || c == '-'
}

/// `s` without its last character, if it has one.
pub open spec fn without_last(s: Seq<char>) -> Seq<char> {
    if s.len() > 0 {
        s.drop_last()
    } else {
        s
    }
}

/// `post` equals `pre` in every part.
pub open spec fn unchanged(pre: AppState, post: AppState) -> bool {
    &&& post.scales@ == pre.scales@
    &&& post.selected == pre.selected
    &&& post.same_forms(pre)
}

/// The add-scale form `post.input` holds `f`'s serial and unit, at `stage`.
pub open spec fn form_at(post: AppState, f: AddScaleInput, stage: InputStage) -> bool {
    post.input matches Some(g) && g.serial == f.serial && g.unit_index == f.unit_index && g.stage
        == stage
}

/// The effect of `code` while the add-scale form is open in `pre`.
pub open spec fn add_form_step(pre: AppState, post: AppState, code: KeyCode) -> bool {
    let f = pre.input->0;
    &&& post.weight_input == pre.weight_input
    &&& match f.stage {
        InputStage::Serial => {
            &&& post.scales@ == pre.scales@
            &&& post.selected == pre.selected
            &&& match code {
                KeyCode::Esc => post.input is None,
                KeyCode::Enter => form_at(
                    post,
                    f,
                    if trimmed(f.serial@).len() > 0 {
                        InputStage::Unit
                    } else {
                        InputStage::Serial
                    },
                ),
                KeyCode::Backspace => post.input matches Some(g) && g.serial@ == without_last(
                    f.serial@,
                ) && g.unit_index == f.unit_index && g.stage == f.stage,
                KeyCode::Char(c) => post.input matches Some(g) && g.serial@ == f.serial@.push(c)
                    && g.unit_index == f.unit_index && g.stage == f.stage,
                _ => post.input == pre.input,
            }
        },
        InputStage::Unit => match code {
            KeyCode::Esc => post.scales@ == pre.scales@ && post.selected == pre.selected
                && post.input is None,
            KeyCode::Left => post.scales@ == pre.scales@ && post.selected == pre.selected && (
            post.input matches Some(g) && g.serial == f.serial && g.unit_index == prev_unit(
                f.unit_index as int,
            ) && g.stage == f.stage),
            KeyCode::Right => post.scales@ == pre.scales@ && post.selected == pre.selected && (
            post.input matches Some(g) && g.serial == f.serial && g.unit_index == next_unit(
                f.unit_index as int,
            ) && g.stage == f.stage),
            KeyCode::Enter => if pre.can_add(f.serial@) {
                pre.scale_added(post, trimmed(f.serial@), unit_name(f.unit_index as int))
                    && post.input is None
            } else {
                post.scales@ == pre.scales@ && post.selected == pre.selected && form_at(
                    post,
                    f,
                    InputStage::Serial,
                )
            },
            _ => post.scales@ == pre.scales@ && post.selected == pre.selected && post.input
                == pre.input,
        },
    }
}

/// The effect of `code` while the set-weight form is open in `pre`, where
/// `typed` is the weight, in thousandths, that the form's text reads as
/// (`None` when it reads as no number).
pub open spec fn weight_form_step(
    pre: AppState,
    post: AppState,
    code: KeyCode,
    typed: Option<i64>,
) -> bool {
    let buf = pre.weight_input->0.buffer@;
    &&& post.input == pre.input
    &&& post.selected == pre.selected
    &&& match code {
        KeyCode::Esc => post.weight_input is None && post.scales@ == pre.scales@,
        KeyCode::Enter => match typed {
            Some(v) => post.weight_input is None && post.scales@ == pre.scales_with_selected(
                pre.selected_scale().with_weight(v),
            ),
            None => post.weight_input == pre.weight_input && post.scales@ == pre.scales@,
        },
        KeyCode::Backspace => post.scales@ == pre.scales@ && (post.weight_input matches Some(w)
            && w.buffer@ == without_last(buf)),
        KeyCode::Char(c) => post.scales@ == pre.scales@ && if weight_char(c) {
            post.weight_input matches Some(w) && w.buffer@ == buf.push(c)
        } else {
            post.weight_input == pre.weight_input
        },
        _ => post.scales@ == pre.scales@ && post.weight_input == pre.weight_input,
    }
}

/// `post` is `pre` with only the scales changed, to `scales`.
pub open spec fn scales_become(pre: AppState, post: AppState, scales: Seq<Scale>) -> bool {
    &&& post.scales@ == scales
    &&& post.selected == pre.selected
    &&& post.same_forms(pre)
}

/// The effect of `code` on the scale list, with no form open in `pre`.
pub open spec fn browse_step(pre: AppState, post: AppState, code: KeyCode) -> bool {
    let n = pre.scales@.len() as int;
    match code {
        KeyCode::Up => post.selected == prev_index(pre.selected as int, n) && post.scales@
            == pre.scales@ && post.same_forms(pre),
        KeyCode::Down => post.selected == next_index(pre.selected as int, n) && post.scales@
            == pre.scales@ && post.same_forms(pre),
        KeyCode::Left => scales_become(pre, post, pre.adjusted_scales(-1)),
        KeyCode::Right => scales_become(pre, post, pre.adjusted_scales(1)),
        KeyCode::PageUp => scales_become(pre, post, pre.adjusted_scales(100)),
        KeyCode::PageDown => scales_become(pre, post, pre.adjusted_scales(-100)),
        KeyCode::Char(c) => if c == 'z' || c == 'Z' {
            scales_become(pre, post, pre.scales_with_selected(pre.selected_scale().with_weight(0)))
        } else if c == 'w' || c == 'W' {
            &&& post.scales@ == pre.scales@
            &&& post.selected == pre.selected
            &&& post.input == pre.input
            &&& if pre.selected < n {
                post.weight_input matches Some(w) && w.buffer@ == thousandths_text(
                    pre.selected_scale().weight_value as int,
                )
            } else {
                post.weight_input == pre.weight_input
            }
        } else if c == 'a' || c == 'A' {
            &&& post.scales@ == pre.scales@
            &&& post.selected == pre.selected
            &&& post.weight_input == pre.weight_input
            &&& post.input matches Some(f) && f.serial@ == Seq::<char>::empty() && f.unit_index
                == 0 && f.stage == InputStage::Serial
        } else {
            unchanged(pre, post)
        },
        _ => unchanged(pre, post),
    }
}

/// What the caller is told to do after `code` with no form open.
pub open spec fn browse_action(code: KeyCode) -> Action {
    match code {
        KeyCode::Esc => Action::Quit,
        KeyCode::Char(c) => if c == 'q' || c == 'Q' {
            Action::Quit
        } else {
            Action::Continue
        },
        _ => Action::Continue,
    }
}

/// `key` can be handled in `app` without stepping past the end of an
/// integer type or of `UNITS`: the selection and the unit index, which
/// the caller may set freely, are where the arithmetic on them fits.
pub open spec fn key_fits(app: AppState, key: KeyEvent) -> bool {
    let n = app.scales@.len();
    if !(key.kind is Press) {
        true
    } else if app.input is Some {
        let i = app.input->0.unit_index;
        app.input->0.stage == InputStage::Unit ==> match key.code {
            KeyCode::Left => i + UNITS.len() <= usize::MAX,
            KeyCode::Right => i < usize::MAX,
            KeyCode::Enter => i < UNITS.len(),
            _ => true,
        }
    } else if app.weight_input is Some {
        true
    } else {
        match key.code {
            KeyCode::Up => n > 0 && app.selected >= n ==> app.selected + n <= usize::MAX,
            KeyCode::Down => n > 0 ==> app.selected < usize::MAX,
            _ => true,
        }
    }
}

/// The effect of `key` on `pre`, giving `post` and telling the caller
/// `action`, where `typed` is what the set-weight form's text reads as.
pub open spec fn key_step(
    pre: AppState,
    post: AppState,
    key: KeyEvent,
    typed: Option<i64>,
    action: Action,
) -> bool {
    if !(key.kind is Press) {
        action == Action::Continue && unchanged(pre, post)
    } else if pre.input is Some {
        action == Action::Continue && add_form_step(pre, post, key.code)
    } else if pre.weight_input is Some {
        action == Action::Continue && weight_form_step(pre, post, key.code, typed)
    } else {
        action == browse_action(key.code) && browse_step(pre, post, key.code)
    }
}

/// Handles one key. A key that is not a press does nothing. While the
/// add-scale form is open the key edits it, then while the set-weight form
/// is open it edits that; otherwise it acts on the scale list. `typed` is
/// the weight, in thousandths, that the set-weight form's text reads as,
/// or `None` when it reads as no number; only Enter in that form uses it.
pub fn handle_key(app: &mut AppState, key: KeyEvent, typed: Option<i64>) -> (action: Action)
    requires
        key_fits(*old(app), key),
    ensures
        key_step(*old(app), *final(app), key, typed, action),
{
    match key.kind {
        KeyEventKind::Press => {},
        _ => {
            return Action::Continue;
        },
    }
    if app.input.is_some() {
        handle_input_mode(app, key.code);
        return Action::Continue;
    }
    if app.weight_input.is_some() {
        handle_weight_input(app, key.code, typed);
        return Action::Continue;
    }
    match key.code {
        KeyCode::Up => app.select_prev(),
        KeyCode::Down => app.select_next(),
        KeyCode::Left => app.adjust_selected(-1),
        KeyCode::Right => app.adjust_selected(1),
        KeyCode::PageUp => app.adjust_selected(100),
        KeyCode::PageDown => app.adjust_selected(-100),
        KeyCode::Char('z') | KeyCode::Char('Z') => app.zero_selected(),
        KeyCode::Char('w') | KeyCode::Char('W') => {
            // Prefill with the current weight so it can be tweaked in place.
            if let Some(w) = app.selected_weight() {
                app.weight_input = Some(WeightInput { buffer: format_weight(w) });
            }
        },
        KeyCode::Char('a') | KeyCode::Char('A') => app.input = Some(AddScaleInput::default()),
        KeyCode::Char('q') | KeyCode::Char('Q') | KeyCode::Esc => return Action::Quit,
        _ => {},
    }
    Action::Continue
}

/// Drives the set-weight form: typed characters build the number, Enter
/// applies it to the selected scale, and text that reads as no number
/// keeps the form open so it can be corrected.
fn handle_weight_input(app: &mut AppState, code: KeyCode, typed: Option<i64>)
    requires
        old(app).weight_input is Some,
    ensures
        weight_form_step(*old(app), *final(app), code, typed),
{
    let mut input = app.weight_input.take().unwrap();
    match code {
        KeyCode::Esc => {},  // dropped: cancelled
        KeyCode::Enter => match typed {
            Some(value) => app.set_selected_weight(value),
            None => app.weight_input = Some(input),  // kept open to fix
        },
        KeyCode::Backspace => {
            pop_char(&mut input.buffer);
            app.weight_input = Some(input);
        },
        KeyCode::Char(c) => {
            if ('0' <= c && c <= '9') || c == '.' || c == '-' {
                push_char(&mut input.buffer, c);
            }
            app.weight_input = Some(input);
        },
        _ => app.weight_input = Some(input),
    }
}

/// Drives the add-scale form: first the serial is typed, then the unit is
/// chosen; Enter on the unit adds the scale, or goes back to the serial
/// when it is blank or already taken.
fn handle_input_mode(app: &mut AppState, code: KeyCode)
    requires
        old(app).input is Some,
        old(app).input->0.stage == InputStage::Unit ==> match code {
            KeyCode::Left => old(app).input->0.unit_index + UNITS.len() <= usize::MAX,
            KeyCode::Right => old(app).input->0.unit_index < usize::MAX,
            KeyCode::Enter => old(app).input->0.unit_index < UNITS.len(),
            _ => true,
        },
    ensures
        add_form_step(*old(app), *final(app), code),
{
    let mut input = app.input.take().unwrap();
    match input.stage {
        InputStage::Serial => match code {
            KeyCode::Esc => {},  // dropped: cancelled
            KeyCode::Enter => {
                if !trim(input.serial.as_str()).is_empty() {
                    input.stage = InputStage::Unit;
                }
                app.input = Some(input);
            },
            KeyCode::Backspace => {
                pop_char(&mut input.serial);
                app.input = Some(input);
            },
            KeyCode::Char(c) => {
                push_char(&mut input.serial, c);
                app.input = Some(input);
            },
            _ => app.input = Some(input),
        },
        InputStage::Unit => match code {
            KeyCode::Esc => {},  // dropped: cancelled
            KeyCode::Left => {
                input.cycle_unit(false);
                app.input = Some(input);
            },
            KeyCode::Right => {
                input.cycle_unit(true);
                app.input = Some(input);
            },
            KeyCode::Enter => {
                // If the add fails (blank or taken), reopen on the serial.
                if !app.add_scale(input.serial.clone(), input.unit().to_owned()) {
                    input.stage = InputStage::Serial;
                    app.input = Some(input);
                }
            },
            _ => app.input = Some(input),
        },
    }
}

} // verus!
