//! Properties of the simulator that span several calls or hold of every
//! state it can reach.
use vstd::arithmetic::div_mod::{
    lemma_mod_add_multiples_vanish, lemma_mod_self_0, lemma_small_mod,
};
use vstd::prelude::*;

use crate::input::{decimal, digit_char, key_step, thousandths_text, Action, KeyCode, KeyEvent};
use crate::mqtt::{command_topic, is_zero_command, reading_topic, topic_level};
use crate::ui::{centre_offset, pad_end, pad_start, smaller};
use crate::state::{
    clamp_weight, has_serial, is_first_with_serial, next_index, next_unit, prev_index, prev_unit,
    serials_distinct, unit_name, zeroed_by_serial, AppState, InputStage, Scale,
};
use crate::text::{is_white_space, trim_end, trim_start, trimmed};

verus! {

/// Moving the selection down and then up, or up and then down, brings it
/// back to where it was; either move keeps it on a scale.
pub proof fn lemma_selection_round_trip(sel: int, n: int)
    requires
        0 <= sel < n,
    ensures
        0 <= next_index(sel, n) < n,
        0 <= prev_index(sel, n) < n,
        prev_index(next_index(sel, n), n) == sel,
        next_index(prev_index(sel, n), n) == sel,
{
    lemma_mod_self_0(n);
    lemma_small_mod((n - 1) as nat, n as nat);
    if sel + 1 < n {
        lemma_small_mod((sel + 1) as nat, n as nat);
    }
    lemma_mod_add_multiples_vanish(sel, n);
    lemma_small_mod(sel as nat, n as nat);
    if sel > 0 {
        lemma_mod_add_multiples_vanish(sel - 1, n);
        lemma_small_mod((sel - 1) as nat, n as nat);
    }
}

/// Stepping the unit forward and then back, or back and then forward,
/// returns to the same unit; four steps forward go all the way round; a
/// step keeps the unit one of `UNITS`.
pub proof fn lemma_unit_cycle(i: int)
    requires
        0 <= i < 4,
    ensures
        0 <= next_unit(i) < 4,
        0 <= prev_unit(i) < 4,
        prev_unit(next_unit(i)) == i,
        next_unit(prev_unit(i)) == i,
        next_unit(next_unit(next_unit(next_unit(i)))) == i,
{
}

/// Readings do not drift: an adjustment that stays in range, followed by
/// another, comes to the same reading as one adjustment by their sum; in
/// particular adjusting by `a` and then by `-a` restores the reading.
pub proof fn lemma_adjustments_add_up(w: i64, a: int, b: int)
    requires
        i64::MIN <= w + a <= i64::MAX,
    ensures
        clamp_weight(clamp_weight(w + a) + b) == clamp_weight(w + a + b),
        clamp_weight(clamp_weight(w + a) - a) == w,
{
}

/// Once added, a scale is the selected one and the one its serial
/// designates, so commands and publish marks sent to that serial reach it.
pub proof fn lemma_added_scale_is_found(
    pre: AppState,
    post: AppState,
    serial: Seq<char>,
    unit: Seq<char>,
)
    requires
        pre.scale_added(post, serial, unit),
        !has_serial(pre.scales@, serial),
    ensures
        is_first_with_serial(post.scales@, serial, post.selected as int),
        has_serial(post.scales@, serial),
{
    let n = pre.scales@.len() as int;
    assert forall|j: int| 0 <= j < n implies #[trigger] post.scales@[j].serial_number@ != serial by {
        assert(post.scales@[j] == post.scales@.drop_last()[j]);
        assert(pre.scales@[j] == post.scales@[j]);
    }
    assert(post.scales@[n] == post.scales@.last());
}

/// When no two scales share a serial, zeroing by a scale's serial zeroes
/// that scale and leaves every other one as it was.
pub proof fn lemma_zero_by_serial_targets(pre: Seq<Scale>, post: Seq<Scale>, k: int)
    requires
        serials_distinct(pre),
        0 <= k < pre.len(),
        zeroed_by_serial(pre, post, pre[k].serial_number@),
    ensures
        post == pre.update(k, pre[k].with_weight(0)),
{
    let s = pre[k].serial_number@;
    assert(has_serial(pre, s));
    let k2 = choose|k2: int| is_first_with_serial(pre, s, k2) && post == pre.update(k2, pre[k2].with_weight(0));
    if k2 < k {
        assert(pre[k2].serial_number@ != pre[k].serial_number@);
    } else if k < k2 {
        assert(pre[k].serial_number@ != s);
    }
}

/// A reading never comes back as a command: the topic a scale whose serial
/// holds no `/` publishes on is no scale's command topic.
pub proof fn lemma_readings_are_not_commands(prefix: Seq<char>, serial: Seq<char>, other: Seq<char>)
    requires
        !serial.contains('/'),
    ensures
        reading_topic(prefix, serial) != command_topic(prefix, other),
{
    reveal_strlit("/");
    reveal_strlit("/command");
    if reading_topic(prefix, serial) == command_topic(prefix, other) {
        let k = prefix.len() as int + 1;
        assert(reading_topic(prefix, serial).skip(k) =~= serial);
        assert(command_topic(prefix, other).skip(k) =~= other + "/command"@);
        assert(serial[other.len() as int] == '/');
    }
}

/// Scales that keep their serials, one for one, keep them distinct.
proof fn lemma_same_serials_stay_distinct(a: Seq<Scale>, b: Seq<Scale>)
    requires
        serials_distinct(a),
        a.len() == b.len(),
        forall|i: int| 0 <= i < a.len() ==> #[trigger] b[i].serial_number@ == a[i].serial_number@,
    ensures
        serials_distinct(b),
{
    assert forall|i: int, j: int| 0 <= i < j < b.len() implies #[trigger] b[i].serial_number@
        != #[trigger] b[j].serial_number@ by {
        assert(a[i].serial_number@ != a[j].serial_number@);
    }
}

/// Changing the selected scale's reading keeps the serials distinct.
proof fn lemma_reweigh_keeps_distinct(pre: AppState, w: i64)
    requires
        serials_distinct(pre.scales@),
    ensures
        serials_distinct(pre.scales_with_selected(pre.selected_scale().with_weight(w))),
        pre.scales_with_selected(pre.selected_scale().with_weight(w)).len() == pre.scales@.len(),
{
    let b = pre.scales_with_selected(pre.selected_scale().with_weight(w));
    assert forall|i: int| 0 <= i < pre.scales@.len() implies #[trigger] b[i].serial_number@
        == pre.scales@[i].serial_number@ by {}
    lemma_same_serials_stay_distinct(pre.scales@, b);
}

/// Appending a scale whose serial no scale has keeps the serials distinct.
proof fn lemma_added_keeps_distinct(
    pre: AppState,
    post: AppState,
    serial: Seq<char>,
    unit: Seq<char>,
)
    requires
        serials_distinct(pre.scales@),
        pre.scale_added(post, serial, unit),
        !has_serial(pre.scales@, serial),
    ensures
        serials_distinct(post.scales@),
{
    let n = pre.scales@.len() as int;
    assert forall|i: int, j: int| 0 <= i < j < post.scales@.len() implies #[trigger] post.scales@[i].serial_number@
        != #[trigger] post.scales@[j].serial_number@ by {
        assert(post.scales@[i] == post.scales@.drop_last()[i]);
        assert(pre.scales@[i] == post.scales@[i]);
        if j < n {
            assert(post.scales@[j] == post.scales@.drop_last()[j]);
            assert(pre.scales@[j] == post.scales@[j]);
        } else {
            assert(post.scales@[j] == post.scales@.last());
        }
    }
}

/// Every key keeps the simulator well formed: serials stay distinct, the
/// selection stays on a scale, and an open add-scale form keeps one of
/// `UNITS` chosen.
pub proof fn lemma_key_keeps_wf(
    pre: AppState,
    post: AppState,
    key: KeyEvent,
    typed: Option<i64>,
    action: Action,
)
    requires
        pre.wf(),
        key_step(pre, post, key, typed, action),
    ensures
        post.wf(),
{
    let n = pre.scales@.len() as int;
    if n > 0 {
        lemma_selection_round_trip(pre.selected as int, n);
    }
    if !(key.kind is Press) {
    } else if pre.input is Some {
        let f = pre.input->0;
        lemma_unit_cycle(f.unit_index as int);
        if f.stage == InputStage::Unit && key.code == KeyCode::Enter && pre.can_add(f.serial@) {
            lemma_added_keeps_distinct(pre, post, trimmed(f.serial@), unit_name(f.unit_index as int));
        }
    } else if pre.weight_input is Some {
        if let Some(v) = typed {
            lemma_reweigh_keeps_distinct(pre, v);
        }
    } else {
        lemma_reweigh_keeps_distinct(pre, 0);
        lemma_reweigh_keeps_distinct(pre, clamp_weight(pre.selected_scale().weight_value - 1));
        lemma_reweigh_keeps_distinct(pre, clamp_weight(pre.selected_scale().weight_value + 1));
        lemma_reweigh_keeps_distinct(pre, clamp_weight(pre.selected_scale().weight_value + 100));
        lemma_reweigh_keeps_distinct(pre, clamp_weight(pre.selected_scale().weight_value - 100));
    }
}

/// The selection moves one entry at a time: down from `sel` to `sel + 1`,
/// from the last entry back to the first; up from `sel` to `sel - 1`, from
/// the first entry round to the last.
pub proof fn lemma_selection_steps(sel: int, n: int)
    requires
        0 <= sel < n,
    ensures
        sel + 1 < n ==> next_index(sel, n) == sel + 1,
        sel + 1 == n ==> next_index(sel, n) == 0,
        sel > 0 ==> prev_index(sel, n) == sel - 1,
        sel == 0 ==> prev_index(sel, n) == n - 1,
{
    lemma_mod_self_0(n);
    lemma_small_mod((n - 1) as nat, n as nat);
    if sel + 1 < n {
        lemma_small_mod((sel + 1) as nat, n as nat);
    }
    if sel > 0 {
        lemma_mod_add_multiples_vanish(sel - 1, n);
        lemma_small_mod((sel - 1) as nat, n as nat);
    }
}

/// The unit steps one place along `UNITS` (`kg`, `g`, `lb`, `oz`):
/// forward from `i` to `i + 1`, from the last back to the first; back from
/// `i` to `i - 1`, from the first round to the last.
pub proof fn lemma_unit_steps(i: int)
    requires
        0 <= i < 4,
    ensures
        i < 3 ==> next_unit(i) == i + 1,
        i == 3 ==> next_unit(i) == 0,
        i > 0 ==> prev_unit(i) == i - 1,
        i == 0 ==> prev_unit(i) == 3,
        unit_name(0) == seq!['k', 'g'],
        unit_name(1) == seq!['g'],
        unit_name(2) == seq!['l', 'b'],
        unit_name(3) == seq!['o', 'z'],
{
    reveal_strlit("kg");
    reveal_strlit("g");
    reveal_strlit("lb");
    reveal_strlit("oz");
    assert(unit_name(0) =~= seq!['k', 'g']);
    assert(unit_name(1) =~= seq!['g']);
    assert(unit_name(2) =~= seq!['l', 'b']);
    assert(unit_name(3) =~= seq!['o', 'z']);
}

/// A reading within the range of `i64` is kept as it is; past either end
/// it stops at that end.
pub proof fn lemma_clamp_weight(v: int)
    ensures
        i64::MIN <= v <= i64::MAX ==> clamp_weight(v) == v,
        v > i64::MAX ==> clamp_weight(v) == i64::MAX,
        v < i64::MIN ==> clamp_weight(v) == i64::MIN,
{
}

/// White space in front of `x` is all that trimming the start removes.
proof fn lemma_trim_start_white_prefix(a: Seq<char>, x: Seq<char>)
    requires
        forall|i: int| 0 <= i < a.len() ==> is_white_space(#[trigger] a[i]),
    ensures
        trim_start(a + x) == trim_start(x),
    decreases a.len(),
{
    if a.len() == 0 {
        assert(a + x =~= x);
    } else {
        assert((a + x)[0] == a[0]);
        assert((a + x).drop_first() =~= a.drop_first() + x);
        lemma_trim_start_white_prefix(a.drop_first(), x);
    }
}

/// White space after `x` is all that trimming the end removes.
proof fn lemma_trim_end_white_suffix(x: Seq<char>, b: Seq<char>)
    requires
        forall|i: int| 0 <= i < b.len() ==> is_white_space(#[trigger] b[i]),
    ensures
        trim_end(x + b) == trim_end(x),
    decreases b.len(),
{
    if b.len() == 0 {
        assert(x + b =~= x);
    } else {
        assert((x + b).last() == b.last());
        assert((x + b).drop_last() =~= x + b.drop_last());
        lemma_trim_end_white_suffix(x, b.drop_last());
    }
}

/// Trimming keeps a text whose ends are not white space, and takes away
/// white space around it.
pub proof fn lemma_trimmed_around(a: Seq<char>, x: Seq<char>, b: Seq<char>)
    requires
        forall|i: int| 0 <= i < a.len() ==> is_white_space(#[trigger] a[i]),
        forall|i: int| 0 <= i < b.len() ==> is_white_space(#[trigger] b[i]),
        x.len() > 0,
        !is_white_space(x[0]),
        !is_white_space(x.last()),
    ensures
        trimmed(a + x + b) == x,
{
    assert(a + x + b =~= a + (x + b));
    lemma_trim_start_white_prefix(a, x + b);
    assert((x + b)[0] == x[0]);
    lemma_trim_end_white_suffix(x, b);
}

/// A text of white space only trims to nothing.
pub proof fn lemma_trimmed_white(a: Seq<char>)
    requires
        forall|i: int| 0 <= i < a.len() ==> is_white_space(#[trigger] a[i]),
    ensures
        trimmed(a) == Seq::<char>::empty(),
{
    lemma_trim_start_white_prefix(a, Seq::<char>::empty());
    assert(a + Seq::<char>::empty() =~= a);
}

/// Which serials can be added: one that, trimmed, is not empty and is not
/// yet taken can be added, whatever its length or characters; one of
/// white space only, or one already taken, cannot.
pub proof fn lemma_which_serials_can_be_added(app: AppState, serial: Seq<char>)
    ensures
        trimmed(serial).len() > 0 && !has_serial(app.scales@, trimmed(serial)) ==> app.can_add(
            serial,
        ),
        has_serial(app.scales@, trimmed(serial)) ==> !app.can_add(serial),
        (forall|i: int| 0 <= i < serial.len() ==> is_white_space(#[trigger] serial[i]))
            ==> !app.can_add(serial),
{
    if forall|i: int| 0 <= i < serial.len() ==> is_white_space(#[trigger] serial[i]) {
        lemma_trimmed_white(serial);
    }
}

/// A serial can stand in a topic exactly when it is not empty and holds
/// no `/`; so every such serial has a command topic that names it.
pub proof fn lemma_topic_levels(s: Seq<char>)
    ensures
        topic_level(s) <==> (s.len() > 0 && forall|i: int| 0 <= i < s.len() ==> s[i] != '/'),
{
    if s.len() > 0 && forall|i: int| 0 <= i < s.len() ==> s[i] != '/' {
        assert(!s.contains('/'));
    }
}

/// The command topic of `serial` is the prefix, a `/`, the serial, and
/// `/command`.
pub proof fn lemma_command_topic_shape(prefix: Seq<char>, serial: Seq<char>)
    ensures
        command_topic(prefix, serial) == prefix + seq!['/'] + serial + seq![
            '/',
            'c',
            'o',
            'm',
            'm',
            'a',
            'n',
            'd',
        ],
{
    reveal_strlit("/");
    reveal_strlit("/command");
    assert("/"@ =~= seq!['/']);
    assert("/command"@ =~= seq!['/', 'c', 'o', 'm', 'm', 'a', 'n', 'd']);
}

/// A payload that reads `Z`, with any white space around it, is the zero
/// command; one of white space only is not.
pub proof fn lemma_zero_command(a: Seq<char>, b: Seq<char>)
    requires
        forall|i: int| 0 <= i < a.len() ==> is_white_space(#[trigger] a[i]),
        forall|i: int| 0 <= i < b.len() ==> is_white_space(#[trigger] b[i]),
    ensures
        is_zero_command(a + seq!['Z'] + b),
        !is_zero_command(a),
{
    reveal_strlit("Z");
    lemma_trimmed_around(a, seq!['Z'], b);
    assert("Z"@ =~= seq!['Z']);
    lemma_trimmed_white(a);
}

/// `post` is `pre` with only the selected scale's reading changed, to `w`.
pub open spec fn only_selected_reading(pre: AppState, post: AppState, w: int) -> bool {
    let sel = pre.selected as int;
    &&& sel < pre.scales@.len()
    &&& post.scales@.len() == pre.scales@.len()
    &&& post.scales@[sel].weight_value == w
    &&& post.scales@[sel].serial_number == pre.scales@[sel].serial_number
    &&& post.scales@[sel].unit == pre.scales@[sel].unit
    &&& post.scales@[sel].tare_value == pre.scales@[sel].tare_value
    &&& post.scales@[sel].last_publish == pre.scales@[sel].last_publish
    &&& forall|j: int|
        0 <= j < pre.scales@.len() && j != sel ==> #[trigger] post.scales@[j] == pre.scales@[j]
    &&& post.selected == pre.selected
    &&& post.same_forms(pre)
}

/// `post` equals `pre` in every part.
pub open spec fn nothing_changed(pre: AppState, post: AppState) -> bool {
    &&& post.scales@ == pre.scales@
    &&& post.selected == pre.selected
    &&& post.same_forms(pre)
}

/// With no form open, each key does what its binding says: Down and Up
/// move the selection one scale down or up, wrapping at the ends; Right
/// and Left raise and lower the selected reading by one thousandth,
/// PageUp and PageDown by a hundred; `z` or `Z` zeroes it; `q`, `Q` or Esc
/// quit and change nothing; no other key but `w`, `W`, `a`, `A` changes
/// anything.
pub proof fn lemma_list_keys(
    pre: AppState,
    post: AppState,
    key: KeyEvent,
    typed: Option<i64>,
    action: Action,
)
    requires
        key.kind is Press,
        pre.input is None,
        pre.weight_input is None,
        key_step(pre, post, key, typed, action),
    ensures
        key.code == KeyCode::Down && pre.selected + 1 < pre.scales@.len() ==> post.selected
            == pre.selected + 1 && post.scales@ == pre.scales@ && action == Action::Continue,
        key.code == KeyCode::Down && pre.selected + 1 == pre.scales@.len() ==> post.selected == 0
            && post.scales@ == pre.scales@,
        key.code == KeyCode::Up && 0 < pre.selected < pre.scales@.len() ==> post.selected
            == pre.selected - 1 && post.scales@ == pre.scales@ && action == Action::Continue,
        key.code == KeyCode::Up && pre.selected == 0 && pre.scales@.len() > 0 ==> post.selected
            == pre.scales@.len() - 1 && post.scales@ == pre.scales@,
        key.code == KeyCode::Right && pre.selected < pre.scales@.len()
            && pre.selected_scale().weight_value < i64::MAX ==> only_selected_reading(
            pre,
            post,
            pre.selected_scale().weight_value + 1,
        ) && action == Action::Continue,
        key.code == KeyCode::Left && pre.selected < pre.scales@.len()
            && pre.selected_scale().weight_value > i64::MIN ==> only_selected_reading(
            pre,
            post,
            pre.selected_scale().weight_value - 1,
        ),
        key.code == KeyCode::PageUp && pre.selected < pre.scales@.len()
            && pre.selected_scale().weight_value + 100 <= i64::MAX ==> only_selected_reading(
            pre,
            post,
            pre.selected_scale().weight_value + 100,
        ),
        key.code == KeyCode::PageDown && pre.selected < pre.scales@.len()
            && pre.selected_scale().weight_value - 100 >= i64::MIN ==> only_selected_reading(
            pre,
            post,
            pre.selected_scale().weight_value - 100,
        ),
        (key.code == KeyCode::Char('z') || key.code == KeyCode::Char('Z')) && pre.selected
            < pre.scales@.len() ==> only_selected_reading(pre, post, 0) && action
            == Action::Continue,
        key.code == KeyCode::Char('q') || key.code == KeyCode::Char('Q') || key.code
            == KeyCode::Esc ==> action == Action::Quit && nothing_changed(pre, post),
        (key.code == KeyCode::Char('w') || key.code == KeyCode::Char('W')) && pre.selected
            < pre.scales@.len() ==> (post.weight_input matches Some(w) && w.buffer@
            == thousandths_text(pre.selected_scale().weight_value as int)) && post.scales@
            == pre.scales@ && post.input is None && action == Action::Continue,
        (key.code == KeyCode::Char('a') || key.code == KeyCode::Char('A')) ==> (post.input matches Some(
            f,
        ) && f.serial@.len() == 0 && f.unit_index == 0 && f.stage == InputStage::Serial)
            && post.scales@ == pre.scales@ && post.weight_input is None && action
            == Action::Continue,
        (key.code matches KeyCode::Char(c) && c != 'z' && c != 'Z' && c != 'q' && c != 'Q' && c
            != 'w' && c != 'W' && c != 'a' && c != 'A') || key.code == KeyCode::Enter || key.code
            == KeyCode::Backspace || key.code == KeyCode::Other ==> action == Action::Continue
            && nothing_changed(pre, post),
{
    let n = pre.scales@.len() as int;
    if n > 0 && pre.selected < n {
        lemma_selection_steps(pre.selected as int, n);
    }
}

/// In the set-weight form, an ASCII digit, `.` or `-` is added to the end
/// of the text and any other character is ignored; Backspace takes off the
/// last character; Esc closes the form leaving every reading as it was;
/// Enter on a text that reads as a weight closes the form and sets the
/// selected reading to it, and on one that does not keeps the form as it
/// is.
pub proof fn lemma_weight_form_keys(
    pre: AppState,
    post: AppState,
    key: KeyEvent,
    typed: Option<i64>,
    action: Action,
)
    requires
        key.kind is Press,
        pre.input is None,
        pre.weight_input is Some,
        key_step(pre, post, key, typed, action),
    ensures
        action == Action::Continue,
        post.input is None,
        post.selected == pre.selected,
        key.code is Char && (('0' <= key.code->Char_0 && key.code->Char_0 <= '9')
            || key.code->Char_0 == '.' || key.code->Char_0 == '-') ==> post.weight_input is Some
            && post.weight_input->0.buffer@ == pre.weight_input->0.buffer@.push(key.code->Char_0)
            && post.scales@ == pre.scales@,
        key.code is Char && !(('0' <= key.code->Char_0 && key.code->Char_0 <= '9')
            || key.code->Char_0 == '.' || key.code->Char_0 == '-') ==> nothing_changed(pre, post),
        key.code == KeyCode::Backspace && pre.weight_input->0.buffer@.len() > 0
            ==> post.weight_input is Some && post.weight_input->0.buffer@
            == pre.weight_input->0.buffer@.drop_last() && post.scales@ == pre.scales@,
        key.code == KeyCode::Esc ==> post.weight_input is None && post.scales@ == pre.scales@,
        key.code == KeyCode::Enter && typed is Some && pre.selected < pre.scales@.len() ==> {
            &&& post.weight_input is None
            &&& post.scales@.len() == pre.scales@.len()
            &&& post.scales@[pre.selected as int].weight_value == typed->0
            &&& post.scales@[pre.selected as int].serial_number
                == pre.selected_scale().serial_number
            &&& forall|j: int|
                0 <= j < pre.scales@.len() && j != pre.selected ==> #[trigger] post.scales@[j]
                    == pre.scales@[j]
        },
        key.code == KeyCode::Enter && typed is None ==> nothing_changed(pre, post),
{
}

/// In the add-scale form, while the serial is edited any character is
/// added to it, Backspace takes off its last character, and Enter moves on
/// to the unit once the serial is not blank; while the unit is chosen,
/// Right and Left step along `UNITS` and Enter adds the scale, with the
/// trimmed serial and the chosen unit, selects it and closes the form,
/// when the serial can be added; Esc closes the form at either stage,
/// changing no scale.
pub proof fn lemma_add_form_keys(
    pre: AppState,
    post: AppState,
    key: KeyEvent,
    typed: Option<i64>,
    action: Action,
)
    requires
        key.kind is Press,
        pre.input is Some,
        pre.input->0.unit_index < 4,
        key_step(pre, post, key, typed, action),
    ensures
        action == Action::Continue,
        post.weight_input == pre.weight_input,
        key.code == KeyCode::Esc ==> post.input is None && post.scales@ == pre.scales@,
        pre.input->0.stage == InputStage::Serial ==> post.scales@ == pre.scales@,
        pre.input->0.stage == InputStage::Serial && key.code is Char ==> post.input is Some
            && post.input->0.serial@ == pre.input->0.serial@.push(key.code->Char_0),
        pre.input->0.stage == InputStage::Serial && key.code == KeyCode::Backspace
            && pre.input->0.serial@.len() > 0 ==> post.input is Some && post.input->0.serial@
            == pre.input->0.serial@.drop_last(),
        pre.input->0.stage == InputStage::Serial && key.code == KeyCode::Enter && trimmed(
            pre.input->0.serial@,
        ).len() > 0 ==> post.input is Some && post.input->0.stage == InputStage::Unit
            && post.input->0.serial == pre.input->0.serial,
        pre.input->0.stage == InputStage::Unit && key.code == KeyCode::Right ==> post.input is Some
            && post.input->0.unit_index == (if pre.input->0.unit_index < 3 {
            pre.input->0.unit_index + 1
        } else {
            0
        }),
        pre.input->0.stage == InputStage::Unit && key.code == KeyCode::Left ==> post.input is Some
            && post.input->0.unit_index == (if pre.input->0.unit_index > 0 {
            pre.input->0.unit_index - 1
        } else {
            3
        }),
        pre.input->0.stage == InputStage::Unit && key.code == KeyCode::Enter && trimmed(
            pre.input->0.serial@,
        ).len() > 0 && !has_serial(pre.scales@, trimmed(pre.input->0.serial@)) ==> {
            &&& post.input is None
            &&& post.scales@.len() == pre.scales@.len() + 1
            &&& forall|j: int| 0 <= j < pre.scales@.len() ==> #[trigger] post.scales@[j]
                == pre.scales@[j]
            &&& post.scales@.last().serial_number@ == trimmed(pre.input->0.serial@)
            &&& post.scales@.last().unit@ == unit_name(pre.input->0.unit_index as int)
            &&& post.scales@.last().weight_value == 0
            &&& post.selected == pre.scales@.len()
        },
        pre.input->0.stage == InputStage::Unit && key.code == KeyCode::Enter && has_serial(
            pre.scales@,
            trimmed(pre.input->0.serial@),
        ) ==> post.scales@ == pre.scales@ && post.input is Some && post.input->0.stage
            == InputStage::Serial && post.input->0.serial == pre.input->0.serial,
{
    lemma_unit_steps(pre.input->0.unit_index as int);
    if pre.input->0.stage == InputStage::Unit && key.code == KeyCode::Enter && pre.can_add(
        pre.input->0.serial@,
    ) {
        assert forall|j: int| 0 <= j < pre.scales@.len() implies #[trigger] post.scales@[j]
            == pre.scales@[j] by {
            assert(post.scales@.drop_last()[j] == post.scales@[j]);
        }
    }
}

/// A key that is not a press changes nothing.
pub proof fn lemma_releases_change_nothing(
    pre: AppState,
    post: AppState,
    key: KeyEvent,
    typed: Option<i64>,
    action: Action,
)
    requires
        !(key.kind is Press),
        key_step(pre, post, key, typed, action),
    ensures
        action == Action::Continue,
        nothing_changed(pre, post),
{
}

/// The number that a string of decimal digits, most significant first,
/// stands for.
pub open spec fn digits_value(s: Seq<char>) -> int
    decreases s.len(),
{
    if s.len() == 0 {
        0
    } else {
        digits_value(s.drop_last()) * 10 + (s.last() as int - 48)
    }
}

/// `s` is made of decimal digits only.
pub open spec fn all_digits(s: Seq<char>) -> bool {
    forall|i: int| 0 <= i < s.len() ==> '0' <= #[trigger] s[i] && s[i] <= '9'
}

/// The character of a decimal digit stands for that digit.
proof fn lemma_digit_char(d: int)
    requires
        0 <= d < 10,
    ensures
        digit_char(d) as int == d + 48,
        '0' <= digit_char(d) && digit_char(d) <= '9',
{
}

/// The digits written for a number read back as that number, with no
/// leading zero.
pub proof fn lemma_decimal_reads_back(n: nat)
    ensures
        all_digits(decimal(n)),
        digits_value(decimal(n)) == n,
        decimal(n).len() > 0,
        n > 0 ==> decimal(n)[0] != '0',
    decreases n,
{
    if n < 10 {
        lemma_digit_char(n as int);
        assert(decimal(n).drop_last() =~= Seq::<char>::empty());
        assert(digits_value(Seq::<char>::empty()) == 0);
        assert(decimal(n).last() == digit_char(n as int));
        assert(digits_value(decimal(n)) == digits_value(decimal(n).drop_last()) * 10 + (
        decimal(n).last() as int - 48));
    } else {
        lemma_digit_char((n % 10) as int);
        lemma_decimal_reads_back(n / 10);
        let d = decimal(n / 10);
        assert(decimal(n).drop_last() =~= d);
        assert(decimal(n)[0] == d[0]);
        assert(decimal(n).last() == digit_char((n % 10) as int));
        assert(digits_value(decimal(n)) == digits_value(d) * 10 + (decimal(n).last() as int
            - 48));
        assert((n / 10) * 10 + n % 10 == n) by (nonlinear_arith);
    }
}

/// A reading's text shows the reading: a `-` first exactly when it is
/// below zero, then the whole units as decimal digits, a `.`, and three
/// digits of thousandths; read back, the digits give the reading's size.
pub proof fn lemma_reading_text_reads_back(w: int)
    ensures
        (thousandths_text(w)[0] == '-') <==> w < 0,
        ({
            let t = thousandths_text(w);
            let body = if w < 0 {
                t.drop_first()
            } else {
                t
            };
            let a = if w < 0 {
                -w
            } else {
                w
            };
            &&& body.len() >= 5
            &&& body[body.len() - 4] == '.'
            &&& all_digits(body.take(body.len() - 4))
            &&& all_digits(body.skip(body.len() - 3))
            &&& digits_value(body.take(body.len() - 4)) * 1000 + digits_value(
                body.skip(body.len() - 3),
            ) == a
        }),
{
    let t = thousandths_text(w);
    let a = if w < 0 {
        -w
    } else {
        w
    };
    let q = (a / 1000) as nat;
    let f = a % 1000;
    lemma_decimal_reads_back(q);
    let d = decimal(q);
    let tail = seq!['.', digit_char(f / 100), digit_char((f / 10) % 10), digit_char(f % 10)];
    let body = d + tail;
    if w < 0 {
        assert(t.drop_first() =~= body);
        assert(t[0] == '-');
    } else {
        assert(t =~= body);
        assert(t[0] == d[0]);
    }
    assert(body.take(body.len() - 4) =~= d);
    let three = body.skip(body.len() - 3);
    assert(three =~= seq![digit_char(f / 100), digit_char((f / 10) % 10), digit_char(f % 10)]);
    assert(0 <= f < 1000);
    let (x, y, z) = (f / 100, (f / 10) % 10, f % 10);
    assert(0 <= x < 10 && 0 <= y < 10 && 0 <= z < 10) by (nonlinear_arith)
        requires
            0 <= f < 1000,
            x == f / 100,
            y == (f / 10) % 10,
            z == f % 10,
    ;
    lemma_digit_char(x);
    lemma_digit_char(y);
    lemma_digit_char(z);
    let e = Seq::<char>::empty();
    let s1 = seq![digit_char(x)];
    let s2 = seq![digit_char(x), digit_char(y)];
    assert(s1.drop_last() =~= e);
    assert(s2.drop_last() =~= s1);
    assert(three.drop_last() =~= s2);
    assert(digits_value(e) == 0);
    assert(digits_value(s1) == x);
    assert(digits_value(s2) == x * 10 + y);
    assert(digits_value(three) == (x * 10 + y) * 10 + z);
    assert(all_digits(three));
    assert(body[body.len() - 4] == '.');
    assert(d[0] != '-');
    assert((f / 100) * 100 + ((f / 10) % 10) * 10 + f % 10 == f) by (nonlinear_arith)
        requires
            0 <= f < 1000,
    ;
    assert(q * 1000 + f == a) by (nonlinear_arith)
        requires
            q == a / 1000,
            f == a % 1000,
            a >= 0,
    ;
}

/// A reading goes out on the prefix, a `/`, and the serial.
pub proof fn lemma_reading_topic_shape(prefix: Seq<char>, serial: Seq<char>)
    ensures
        reading_topic(prefix, serial) == prefix + seq!['/'] + serial,
{
    reveal_strlit("/");
    assert("/"@ =~= seq!['/']);
}

/// Padding at the end keeps the text in front and fills with spaces to
/// `width`; padding at the start keeps the text at the back.
pub proof fn lemma_padding(s: Seq<char>, width: nat)
    ensures
        pad_end(s, width).len() == (if s.len() < width {
            width as int
        } else {
            s.len() as int
        }),
        pad_start(s, width).len() == pad_end(s, width).len(),
        pad_end(s, width).take(s.len() as int) == s,
        forall|i: int| s.len() <= i < pad_end(s, width).len() ==> #[trigger] pad_end(s, width)[i] == ' ',
        pad_start(s, width).skip(pad_start(s, width).len() - s.len()) == s,
        forall|i: int|
            0 <= i < pad_start(s, width).len() - s.len() ==> #[trigger] pad_start(s, width)[i] == ' ',
{
    assert(pad_end(s, width).take(s.len() as int) =~= s);
    assert(pad_start(s, width).skip(pad_start(s, width).len() - s.len()) =~= s);
}

/// A centred rectangle leaves as much room on its near side as on its far
/// side, give or take one cell, and is never larger than the area.
pub proof fn lemma_centred(outer: u16, inner: u16)
    ensures
        smaller(inner, outer) <= outer,
        smaller(inner, outer) <= inner,
        smaller(inner, outer) == inner || smaller(inner, outer) == outer,
        0 <= centre_offset(outer, inner),
        inner <= outer ==> {
            let far = outer - inner - centre_offset(outer, inner);
            far == centre_offset(outer, inner) || far == centre_offset(outer, inner) + 1
        },
        inner >= outer ==> centre_offset(outer, inner) == 0,
{
}

/// Space, tab, line feed, carriage return, and no-break space are white
/// space; ASCII letters, digits and the punctuation of serials are not.
pub proof fn lemma_white_space_examples(c: char)
    ensures
        c == ' ' || c == '\t' || c == '\n' || c == '\r' || c == '\u{a0}' ==> is_white_space(c),
        ('0' <= c && c <= '9') || ('a' <= c && c <= 'z') || ('A' <= c && c <= 'Z') || c == '-'
            || c == '_' || c == '.' || c == '/' ==> !is_white_space(c),
{
}

} // verus!
