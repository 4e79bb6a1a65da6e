//! The simulator's state: the scales, which one is selected, and the two
//! edit forms (adding a scale, typing a weight).
//!
//! Weights are held as whole thousandths of the scale's unit, which is the
//! three-decimal precision every reading is kept at.
use std::time::Instant;
use vstd::arithmetic::div_mod::{lemma_mod_add_multiples_vanish, lemma_small_mod};
use vstd::prelude::*;

use crate::text::{str_eq, trim, trimmed};

verus! {

/// `std::time::Instant`, carried through as an opaque value: the library
/// only stores when a scale last published.
#[verifier::external_type_specification]
#[verifier::external_body]
pub struct ExInstant(Instant);

/// Selectable units of measure.
pub const UNITS: [&'static str; 4] = ["kg", "g", "lb", "oz"];

/// The name of the unit at index `i` of `UNITS`.
pub open spec fn unit_name(i: int) -> Seq<char> {
    if i == 0 {
        "kg"@
    } else if i == 1 {
        "g"@
    } else if i == 2 {
        "lb"@
    } else {
        "oz"@
    }
}

/// `v` limited to the range of `i64`.
pub open spec fn clamp_weight(v: int) -> i64 {
    if v > i64::MAX {
        i64::MAX
    } else if v < i64::MIN {
        i64::MIN
    } else {
        v as i64
    }
}

/// One simulated scale.
#[derive(Clone)]
pub struct Scale {
    pub serial_number: String,
    /// The reading, in thousandths of `unit`.
    pub weight_value: i64,
    /// One of `UNITS`.
    pub unit: String,
    /// The tare, in thousandths of `unit`; always zero for now.
    pub tare_value: i64,
    /// When this scale's reading last went out, if ever.
    pub last_publish: Option<Instant>,
}

impl Scale {
    /// This scale with its reading replaced by `w`.
    pub open spec fn with_weight(self, w: i64) -> Scale {
        Scale {
            serial_number: self.serial_number,
            weight_value: w,
            unit: self.unit,
            tare_value: self.tare_value,
            last_publish: self.last_publish,
        }
    }

    /// This scale marked as published at `at`.
    pub open spec fn published_at(self, at: Instant) -> Scale {
        Scale {
            serial_number: self.serial_number,
            weight_value: self.weight_value,
            unit: self.unit,
            tare_value: self.tare_value,
            last_publish: Some(at),
        }
    }

    /// A scale reading zero, with no tare, never published.
    pub fn new(serial_number: String, unit: String) -> (s: Scale)
        ensures
            s.serial_number == serial_number,
            s.unit == unit,
            s.weight_value == 0,
            s.tare_value == 0,
            s.last_publish is None,
    {
        Scale { serial_number, weight_value: 0, unit, tare_value: 0, last_publish: None }
    }

    /// Moves the reading by `delta` thousandths; the reading stops at the
    /// ends of the `i64` range rather than wrapping.
    pub fn adjust_weight(&mut self, delta: i64)
        ensures
            *final(self) == old(self).with_weight(clamp_weight(old(self).weight_value + delta)),
    {
        self.weight_value = match self.weight_value.checked_add(delta) {
            Some(w) => w,
            None => if delta > 0 {
                i64::MAX
            } else {
                i64::MIN
            },
        };
    }

    /// Sets the reading to `value` thousandths.
    pub fn set_weight(&mut self, value: i64)
        ensures
            *final(self) == old(self).with_weight(value),
    {
        self.weight_value = value;
    }

    /// Sets the reading to zero.
    pub fn zero(&mut self)
        ensures
            *final(self) == old(self).with_weight(0),
    {
        self.weight_value = 0;
    }
}

/// The unit index that follows `i` among the `UNITS`, wrapping around.
pub open spec fn next_unit(i: int) -> int {
    (i + 1) % 4
}

/// The unit index that precedes `i` among the `UNITS`, wrapping around.
pub open spec fn prev_unit(i: int) -> int {
    (i + 3) % 4
}

/// Which field of the add-scale form is being edited.
#[derive(Clone, Copy, Debug, PartialEq, Eq, Structural)]
pub enum InputStage {
    Serial,
    Unit,
}

/// Transient state for the "add a scale" form.
#[derive(Clone)]
pub struct AddScaleInput {
    pub serial: String,
    pub unit_index: usize,
    pub stage: InputStage,
}

impl Default for AddScaleInput {
    /// An empty serial, the first unit, editing the serial.
    fn default() -> (r: AddScaleInput)
        ensures
            r.serial@ == Seq::<char>::empty(),
            r.unit_index == 0,
            r.stage == InputStage::Serial,
    {
        AddScaleInput { serial: String::new(), unit_index: 0, stage: InputStage::Serial }
    }
}

impl AddScaleInput {
    /// The name of the chosen unit.
    pub fn unit(&self) -> (r: &'static str)
        requires
            self.unit_index < UNITS.len(),
        ensures
            r@ == unit_name(self.unit_index as int),
    {
        proof {
            reveal_strlit("kg");
            reveal_strlit("g");
            reveal_strlit("lb");
            reveal_strlit("oz");
        }
        UNITS[self.unit_index]
    }

    /// Steps to the next unit (`forward`) or the previous one, wrapping
    /// around the ends of `UNITS`.
    pub fn cycle_unit(&mut self, forward: bool)
        requires
            forward ==> old(self).unit_index < usize::MAX,
            !forward ==> old(self).unit_index + UNITS.len() <= usize::MAX,
        ensures
            final(self).unit_index == (if forward {
                next_unit(old(self).unit_index as int)
            } else {
                prev_unit(old(self).unit_index as int)
            }),
            final(self).serial == old(self).serial,
            final(self).stage == old(self).stage,
    {
        let n: usize = UNITS.len();
        assert(n == 4);
        self.unit_index = if forward {
            (self.unit_index + 1) % n
        } else {
            (self.unit_index + n - 1) % n
        };
    }
}

/// Transient state for the "set weight" form, where the user types an
/// exact weight for the selected scale.
#[derive(Clone)]
pub struct WeightInput {
    pub buffer: String,
}

impl Default for WeightInput {
    /// An empty buffer.
    fn default() -> (r: WeightInput)
        ensures
            r.buffer@ == Seq::<char>::empty(),
    {
        WeightInput { buffer: String::new() }
    }
}

/// Some scale in `scales` has the serial `serial`.
pub open spec fn has_serial(scales: Seq<Scale>, serial: Seq<char>) -> bool {
    exists|i: int| 0 <= i < scales.len() && #[trigger] scales[i].serial_number@ == serial
}

/// `k` is the position of the first scale in `scales` with the serial
/// `serial`.
pub open spec fn is_first_with_serial(scales: Seq<Scale>, serial: Seq<char>, k: int) -> bool {
    &&& 0 <= k < scales.len()
    &&& scales[k].serial_number@ == serial
    &&& forall|j: int| 0 <= j < k ==> #[trigger] scales[j].serial_number@ != serial
}

/// `post` is `pre` after zeroing the first scale with the serial `serial`;
/// the same as `pre` when no scale has it.
pub open spec fn zeroed_by_serial(pre: Seq<Scale>, post: Seq<Scale>, serial: Seq<char>) -> bool {
    if has_serial(pre, serial) {
        exists|k: int|
            is_first_with_serial(pre, serial, k) && post == pre.update(k, pre[k].with_weight(0))
    } else {
        post == pre
    }
}

/// No two scales share a serial.
pub open spec fn serials_distinct(scales: Seq<Scale>) -> bool {
    forall|i: int, j: int|
        0 <= i < j < scales.len() ==> #[trigger] scales[i].serial_number@
            != #[trigger] scales[j].serial_number@
}

/// The selection after moving down one entry in a list of `n`, wrapping
/// from the last entry to the first; unchanged when the list is empty.
pub open spec fn next_index(sel: int, n: int) -> int {
    if n == 0 {
        sel
    } else {
        (sel + 1) % n
    }
}

/// The selection after moving up one entry in a list of `n`, wrapping
/// from the first entry to the last; unchanged when the list is empty.
pub open spec fn prev_index(sel: int, n: int) -> int {
    if n == 0 {
        sel
    } else {
        (sel + n - 1) % n
    }
}

/// The whole simulator: its scales, the selected one, and the open form,
/// if any.
pub struct AppState {
    pub scales: Vec<Scale>,
    pub selected: usize,
    pub input: Option<AddScaleInput>,
    pub weight_input: Option<WeightInput>,
}

impl Default for AppState {
    /// No scales, the first position selected, no form open.
    fn default() -> (r: AppState)
        ensures
            r.scales@ == Seq::<Scale>::empty(),
            r.selected == 0,
            r.input is None,
            r.weight_input is None,
            r.wf(),
    {
        AppState { scales: Vec::new(), selected: 0, input: None, weight_input: None }
    }
}

impl AppState {
    /// `self` and `other` have the same forms open, with the same contents.
    pub open spec fn same_forms(self, other: AppState) -> bool {
        &&& self.input == other.input
        &&& self.weight_input == other.weight_input
    }

    /// The simulator is well formed: no two scales share a serial, the
    /// selection points at a scale (or at the start of an empty list), and
    /// an open add-scale form has one of `UNITS` chosen.
    pub open spec fn wf(self) -> bool {
        &&& serials_distinct(self.scales@)
        &&& self.selection_valid()
        &&& self.input matches Some(f) ==> f.unit_index < UNITS.len()
    }

    /// The selection points at a scale, or there are no scales and it is
    /// at the start.
    pub open spec fn selection_valid(self) -> bool {
        ||| self.selected < self.scales@.len()
        ||| (self.scales@.len() == 0 && self.selected == 0)
    }

    /// `scales` with the selected one, if the selection points at one,
    /// replaced by `s`.
    pub open spec fn scales_with_selected(self, s: Scale) -> Seq<Scale> {
        if self.selected < self.scales@.len() {
            self.scales@.update(self.selected as int, s)
        } else {
            self.scales@
        }
    }

    /// The selected scale; meaningful only when the selection points at one.
    pub open spec fn selected_scale(self) -> Scale {
        self.scales@[self.selected as int]
    }

    /// `scales` after moving the selected reading by `delta` thousandths.
    pub open spec fn adjusted_scales(self, delta: int) -> Seq<Scale> {
        self.scales_with_selected(
            self.selected_scale().with_weight(clamp_weight(self.selected_scale().weight_value + delta)),
        )
    }

    /// `post` is `self` after a scale with the serial `serial` and the unit
    /// `unit`, reading zero, was appended and selected.
    pub open spec fn scale_added(self, post: AppState, serial: Seq<char>, unit: Seq<char>) -> bool {
        &&& post.scales@.len() == self.scales@.len() + 1
        &&& post.scales@.drop_last() == self.scales@
        &&& post.scales@.last().serial_number@ == serial
        &&& post.scales@.last().unit@ == unit
        &&& post.scales@.last().weight_value == 0
        &&& post.scales@.last().tare_value == 0
        &&& post.scales@.last().last_publish is None
        &&& post.selected == self.scales@.len()
    }

    /// A scale whose serial, once trimmed, is `serial` can be added: the
    /// trimmed serial is not empty and no scale has it yet.
    pub open spec fn can_add(self, serial: Seq<char>) -> bool {
        trimmed(serial).len() > 0 && !has_serial(self.scales@, trimmed(serial))
    }

    /// Moves the selection down one scale, wrapping to the first.
    pub fn select_next(&mut self)
        requires
            old(self).scales@.len() > 0 ==> old(self).selected < usize::MAX,
        ensures
            final(self).selected == next_index(
                old(self).selected as int,
                old(self).scales@.len() as int,
            ),
            final(self).scales@ == old(self).scales@,
            final(self).same_forms(*old(self)),
            old(self).wf() ==> final(self).wf(),
            old(self).selection_valid() ==> final(self).selection_valid(),
    {
        if !self.scales.is_empty() {
            self.selected = (self.selected + 1) % self.scales.len();
        }
    }

    /// Moves the selection up one scale, wrapping to the last.
    ///
    /// A selection on a scale steps back without the sum `selected + n`,
    /// which no list that fits in memory could make overflow; a selection
    /// past the end still needs that sum to fit.
    pub fn select_prev(&mut self)
        requires
            old(self).scales@.len() > 0 && old(self).selected >= old(self).scales@.len()
                ==> old(self).selected + old(self).scales@.len() <= usize::MAX,
        ensures
            final(self).selected == prev_index(
                old(self).selected as int,
                old(self).scales@.len() as int,
            ),
            final(self).scales@ == old(self).scales@,
            final(self).same_forms(*old(self)),
            old(self).wf() ==> final(self).wf(),
            old(self).selection_valid() ==> final(self).selection_valid(),
    {
        if !self.scales.is_empty() {
            let n = self.scales.len();
            if self.selected >= n {
                self.selected = (self.selected + n - 1) % n;
            } else if self.selected == 0 {
                proof {
                    lemma_small_mod((n - 1) as nat, n as nat);
                }
                self.selected = n - 1;
            } else {
                proof {
                    lemma_mod_add_multiples_vanish(self.selected - 1, n as int);
                    lemma_small_mod((self.selected - 1) as nat, n as nat);
                }
                self.selected = self.selected - 1;
            }
        }
    }

    /// Moves the selected scale's reading by `delta` thousandths; nothing
    /// happens when the selection points at no scale.
    pub fn adjust_selected(&mut self, delta: i64)
        ensures
            final(self).scales@ == old(self).adjusted_scales(delta as int),
            final(self).selected == old(self).selected,
            final(self).same_forms(*old(self)),
            old(self).wf() ==> final(self).wf(),
    {
        if self.selected < self.scales.len() {
            let i = self.selected;
            self.scales[i].adjust_weight(delta);
        }
    }

    /// Sets the selected scale's reading to `value` thousandths; nothing
    /// happens when the selection points at no scale.
    pub fn set_selected_weight(&mut self, value: i64)
        ensures
            final(self).scales@ == old(self).scales_with_selected(
                old(self).selected_scale().with_weight(value),
            ),
            final(self).selected == old(self).selected,
            final(self).same_forms(*old(self)),
            old(self).wf() ==> final(self).wf(),
    {
        if self.selected < self.scales.len() {
            let i = self.selected;
            self.scales[i].set_weight(value);
        }
    }

    /// The selected scale's reading, if the selection points at a scale.
    pub fn selected_weight(&self) -> (r: Option<i64>)
        ensures
            r == (if self.selected < self.scales@.len() {
                Some(self.scales@[self.selected as int].weight_value)
            } else {
                None
            }),
    {
        if self.selected < self.scales.len() {
            Some(self.scales[self.selected].weight_value)
        } else {
            None
        }
    }

    /// Zeroes the selected scale; nothing happens when the selection points
    /// at no scale.
    pub fn zero_selected(&mut self)
        ensures
            final(self).scales@ == old(self).scales_with_selected(
                old(self).selected_scale().with_weight(0),
            ),
            final(self).selected == old(self).selected,
            final(self).same_forms(*old(self)),
            old(self).wf() ==> final(self).wf(),
    {
        if self.selected < self.scales.len() {
            let i = self.selected;
            self.scales[i].zero();
        }
    }

    /// The position of the first scale with the serial `serial`, if any.
    fn find_serial(&self, serial: &str) -> (r: Option<usize>)
        ensures
            r is None <==> !has_serial(self.scales@, serial@),
            r matches Some(k) ==> is_first_with_serial(self.scales@, serial@, k as int),
    {
        let mut i: usize = 0;
        while i < self.scales.len()
            invariant
                i <= self.scales@.len(),
                forall|j: int| 0 <= j < i ==> #[trigger] self.scales@[j].serial_number@ != serial@,
            decreases self.scales@.len() - i,
        {
            if str_eq(self.scales[i].serial_number.as_str(), serial) {
                return Some(i);
            }
            i = i + 1;
        }
        None
    }

    /// Zeroes the scale with the serial `serial` (the first such, should
    /// there be several). Returns false, changing nothing, when no scale has
    /// it.
    pub fn zero_by_serial(&mut self, serial: &str) -> (found: bool)
        ensures
            found == has_serial(old(self).scales@, serial@),
            zeroed_by_serial(old(self).scales@, final(self).scales@, serial@),
            final(self).selected == old(self).selected,
            final(self).same_forms(*old(self)),
            old(self).wf() ==> final(self).wf(),
    {
        match self.find_serial(serial) {
            Some(k) => {
                self.scales[k].zero();
                true
            },
            None => false,
        }
    }

    /// Adds a scale with the serial `serial`, trimmed of surrounding white
    /// space, and the unit `unit`, and selects it. Returns false, changing
    /// nothing, when the trimmed serial is empty or already taken.
    pub fn add_scale(&mut self, serial: String, unit: String) -> (added: bool)
        ensures
            added == old(self).can_add(serial@),
            added ==> old(self).scale_added(*final(self), trimmed(serial@), unit@),
            !added ==> final(self).scales@ == old(self).scales@ && final(self).selected
                == old(self).selected,
            final(self).same_forms(*old(self)),
            old(self).wf() ==> final(self).wf(),
            serials_distinct(old(self).scales@) ==> serials_distinct(final(self).scales@),
            added ==> final(self).selection_valid(),
    {
        let t = trim(serial.as_str());
        if t.is_empty() {
            return false;
        }
        if self.find_serial(t).is_some() {
            return false;
        }
        self.scales.push(Scale::new(t.to_owned(), unit));
        self.selected = self.scales.len() - 1;
        proof {
            assert(self.scales@.drop_last() =~= old(self).scales@);
        }
        true
    }

    /// Records that the scale with the serial `serial` (the first such,
    /// should there be several) published at `at`; nothing happens when no
    /// scale has it.
    pub fn mark_published(&mut self, serial: &str, at: Instant)
        ensures
            has_serial(old(self).scales@, serial@) ==> exists|k: int|
                is_first_with_serial(old(self).scales@, serial@, k) && final(self).scales@
                    == old(self).scales@.update(k, old(self).scales@[k].published_at(at)),
            !has_serial(old(self).scales@, serial@) ==> final(self).scales@ == old(self).scales@,
            final(self).selected == old(self).selected,
            final(self).same_forms(*old(self)),
            old(self).wf() ==> final(self).wf(),
    {
        if let Some(k) = self.find_serial(serial) {
            self.scales[k].last_publish = Some(at);
        }
    }
}

} // verus!
