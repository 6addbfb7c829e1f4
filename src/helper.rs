use vstd::prelude::*;

use crate::display::{convert_to_char, glyph, DisplayCmd, Prompt, BLANK};
use crate::keys::KeyEvent;

verus! {

/// Number of digit slots on the display.
pub const SLOTS: usize = 16;

/// The slot `i` places in from the high end of the row (slot 15 is place 0).
pub fn high_end(i: usize) -> (r: usize)
    requires
        i < 16,
    ensures
        r == 15 - i,
{
    15 - i
}

/// The state of the teaching aid: the entered digits, the cursor, and the two
/// per-slot flag rows used while the division is shown.
pub struct DivisionHelper {
    /// Slot values, right-aligned; `BLANK` marks an empty slot.
    pub digits: [u8; 16],
    /// During entry the last blank slot; during division the number of
    /// trailing slots already consumed.
    pub position: usize,
    /// Lit indicator next to each slot.
    pub diodes: [bool; 16],
    /// Decimal-point marks: slots that can join the next division group.
    pub points: [bool; 16],
}

/// The mathematical value of a `DivisionHelper`.
pub struct HelperView {
    pub digits: Seq<u8>,
    pub position: int,
    pub diodes: Seq<bool>,
    pub points: Seq<bool>,
}

impl View for DivisionHelper {
    type V = HelperView;

    open spec fn view(&self) -> HelperView {
        HelperView {
            digits: self.digits@,
            position: self.position as int,
            diodes: self.diodes@,
            points: self.points@,
        }
    }
}

/// Sixteen blank slots.
pub open spec fn blank_slots() -> Seq<u8> {
    Seq::new(16, |i: int| BLANK)
}

/// Sixteen cleared flags.
pub open spec fn cleared_flags() -> Seq<bool> {
    Seq::new(16, |i: int| false)
}

/// The state after a reset: every slot blank, cursor on the last slot, no flags.
pub open spec fn reset_view() -> HelperView {
    HelperView {
        digits: blank_slots(),
        position: 15,
        diodes: cleared_flags(),
        points: cleared_flags(),
    }
}

/// What a reset paints: display on, cleared, and the two prompt lines.
pub open spec fn reset_cmds() -> Seq<DisplayCmd> {
    seq![
        DisplayCmd::On { brightness: 7 },
        DisplayCmd::Clean,
        DisplayCmd::Write { position: 0, prompt: Prompt::Insert },
        DisplayCmd::Write { position: 20, prompt: Prompt::Number },
    ]
}

/// Every slot is blank.
pub open spec fn all_blank(s: Seq<u8>) -> bool {
    forall|i: int| 0 <= i < s.len() ==> s[i] == BLANK
}

/// The slot value `v` shown at slot `slot`.
pub open spec fn seg(slot: int, v: u8, point: bool) -> DisplayCmd {
    DisplayCmd::Segment { position: (2 * slot) as u8, glyph: glyph(v), point }
}

/// Slots `c..15` take the value of their right neighbour.
pub open spec fn shifted_left(s: Seq<u8>, c: int) -> Seq<u8> {
    Seq::new(s.len(), |i: int| if c <= i < 15 { s[i + 1] } else { s[i] })
}

/// Slots `c+1..=15` take the value of their left neighbour.
pub open spec fn shifted_right(s: Seq<u8>, c: int) -> Seq<u8> {
    Seq::new(s.len(), |i: int| if c < i <= 15 { s[i - 1] } else { s[i] })
}

/// What a left shift at cursor `c` repaints, from slot `c` upwards.
pub open spec fn left_cmds(s: Seq<u8>, c: int) -> Seq<DisplayCmd> {
    Seq::new((15 - c) as nat, |k: int| seg(c + k, s[c + k + 1], false))
}

/// What a right shift at cursor `c` repaints, from slot 15 downwards.
pub open spec fn right_cmds(s: Seq<u8>, c: int) -> Seq<DisplayCmd> {
    Seq::new((15 - c) as nat, |k: int| seg(15 - k, s[14 - k], false))
}

/// Whether CONFIRM ends the entry: only once the last slot holds a digit.
pub open spec fn confirm_accepted(v: HelperView) -> bool {
    v.digits[15] != BLANK
}

/// The state after one key during number entry.
pub open spec fn entry_next(v: HelperView, key: KeyEvent) -> HelperView {
    match key {
        KeyEvent::Digit(d) => if d <= 9 && 1 <= v.position <= 15 {
            HelperView {
                digits: shifted_left(v.digits, v.position).update(15, d),
                position: v.position - 1,
                ..v
            }
        } else {
            v
        },
        KeyEvent::Backspace | KeyEvent::Reset => reset_view(),
        KeyEvent::Shift => if v.position < 15 {
            HelperView {
                digits: shifted_right(v.digits, v.position).update(v.position + 1, BLANK),
                position: v.position + 1,
                ..v
            }
        } else {
            v
        },
        KeyEvent::Confirm => if confirm_accepted(v) {
            HelperView { position: 0, ..v }
        } else {
            v
        },
        _ => v,
    }
}

/// What one key during number entry paints.
pub open spec fn entry_cmds(v: HelperView, key: KeyEvent) -> Seq<DisplayCmd> {
    match key {
        KeyEvent::Digit(d) => if d <= 9 && 1 <= v.position <= 15 {
            seq![seg(15, d, false)] + left_cmds(v.digits, v.position)
        } else {
            Seq::empty()
        },
        KeyEvent::Backspace | KeyEvent::Reset => reset_cmds(),
        KeyEvent::Shift => if v.position < 15 {
            right_cmds(v.digits, v.position)
        } else {
            Seq::empty()
        },
        _ => Seq::empty(),
    }
}

/// Whether a key ends number entry.
pub open spec fn entry_done(v: HelperView, key: KeyEvent) -> bool {
    key == KeyEvent::Confirm && confirm_accepted(v)
}

impl DivisionHelper {
    /// A state in which the cursor stays on the slot row and every slot holds
    /// a digit or `BLANK`.
    pub open spec fn wf(&self) -> bool {
        &&& self.position <= 16
        &&& forall|i: int| 0 <= i < 16 ==> self.digits[i] <= BLANK
    }

    /// A fresh helper: every slot blank, cursor on the last slot, no flags.
    pub fn new() -> (r: DivisionHelper)
        ensures
            r.wf(),
            r@ == reset_view(),
    {
        let r = DivisionHelper {
            digits: [BLANK; 16],
            position: 15,
            diodes: [false; 16],
            points: [false; 16],
        };
        assert(r.digits@ =~= blank_slots());
        assert(r.diodes@ =~= cleared_flags());
        assert(r.points@ =~= cleared_flags());
        r
    }

    /// Clears the entry and paints the prompt for a new number.
    pub fn reset(&mut self, out: &mut Vec<DisplayCmd>)
        ensures
            final(self).wf(),
            final(self)@ == reset_view(),
            final(out)@ == old(out)@ + reset_cmds(),
    {
        out.push(DisplayCmd::On { brightness: 7 });
        out.push(DisplayCmd::Clean);
        *self = DivisionHelper::new();
        out.push(DisplayCmd::Write { position: 0, prompt: Prompt::Insert });
        out.push(DisplayCmd::Write { position: 20, prompt: Prompt::Number });
        assert(out@ =~= old(out)@ + reset_cmds());
    }

    /// Whether every slot is blank.
    pub fn is_empty(&self) -> (r: bool)
        ensures
            r == all_blank(self.digits@),
    {
        let mut i: usize = 0;
        while i < SLOTS
            invariant
                i <= 16,
                forall|j: int| 0 <= j < i ==> self.digits[j] == BLANK,
            decreases 16 - i,
        {
            if self.digits[i] != BLANK {
                return false;
            }
            i = i + 1;
        }
        true
    }

    /// Moves slots `position+1..=15` one slot towards the low end, repainting
    /// each moved slot.
    pub fn move_left(&mut self, out: &mut Vec<DisplayCmd>)
        requires
            old(self).wf(),
            old(self).position <= 15,
        ensures
            final(self).wf(),
            final(self).digits@ == shifted_left(old(self).digits@, old(self).position as int),
            final(self).position == old(self).position,
            final(self).diodes == old(self).diodes,
            final(self).points == old(self).points,
            final(out)@ == old(out)@ + left_cmds(old(self).digits@, old(self).position as int),
    {
        let ghost s = self.digits@;
        let ghost o = out@;
        let c = self.position;
        let mut i: usize = c;
        while i < 15
            invariant
                c <= i <= 15,
                c == old(self).position,
                self.position == c,
                self.diodes == old(self).diodes,
                self.points == old(self).points,
                s == old(self).digits@,
                o == old(out)@,
                self.digits@.len() == 16,
                forall|j: int| 0 <= j < 16 ==> self.digits[j] <= BLANK,
                forall|j: int| 0 <= j < 16 ==> self.digits[j] == if c <= j < i { s[j + 1] } else { s[j] },
                out@ == o + left_cmds(s, c as int).take(i - c),
            decreases 15 - i,
        {
            self.digits[i] = self.digits[i + 1];
            let g = convert_to_char(self.digits[i]);
            out.push(DisplayCmd::Segment { position: (2 * i) as u8, glyph: g, point: false });
            assert(left_cmds(s, c as int).take(i + 1 - c) =~= left_cmds(s, c as int).take(i - c).push(seg(i as int, s[i + 1], false)));
            i = i + 1;
        }
        assert(self.digits@ =~= shifted_left(s, c as int));
        assert(left_cmds(s, c as int).take(15 - c) =~= left_cmds(s, c as int));
    }

    /// Moves slots `position..=14` one slot towards the high end, from slot 15
    /// downwards, repainting each moved slot.
    pub fn move_right(&mut self, out: &mut Vec<DisplayCmd>)
        requires
            old(self).wf(),
            old(self).position <= 15,
        ensures
            final(self).wf(),
            final(self).digits@ == shifted_right(old(self).digits@, old(self).position as int),
            final(self).position == old(self).position,
            final(self).diodes == old(self).diodes,
            final(self).points == old(self).points,
            final(out)@ == old(out)@ + right_cmds(old(self).digits@, old(self).position as int),
    {
        let ghost s = self.digits@;
        let ghost o = out@;
        let c = self.position;
        let mut i: usize = 15;
        while i > c
            invariant
                c <= i <= 15,
                c == old(self).position,
                self.position == c,
                self.diodes == old(self).diodes,
                self.points == old(self).points,
                s == old(self).digits@,
                o == old(out)@,
                self.digits@.len() == 16,
                forall|j: int| 0 <= j < 16 ==> self.digits[j] <= BLANK,
                forall|j: int| 0 <= j < 16 ==> self.digits[j] == if i < j <= 15 { s[j - 1] } else { s[j] },
                out@ == o + right_cmds(s, c as int).take(15 - i),
            decreases i,
        {
            self.digits[i] = self.digits[i - 1];
            let g = convert_to_char(self.digits[i]);
            out.push(DisplayCmd::Segment { position: (2 * i) as u8, glyph: g, point: false });
            assert(right_cmds(s, c as int).take(16 - i) =~= right_cmds(s, c as int).take(15 - i).push(seg(i as int, s[i - 1], false)));
            i = i - 1;
        }
        assert(self.digits@ =~= shifted_right(s, c as int));
        assert(right_cmds(s, c as int).take(15 - c) =~= right_cmds(s, c as int));
    }

    /// Clears the display before the first key of a number is taken.
    pub fn begin_insert(&self, out: &mut Vec<DisplayCmd>)
        ensures
            final(out)@ == old(out)@.push(DisplayCmd::Clean),
    {
        out.push(DisplayCmd::Clean);
    }

    /// Takes one key of number entry. A digit is appended at the right end
    /// while a slot is free, `Shift` drops the last digit, `Backspace` and
    /// `Reset` start over, and `Confirm` ends the entry (returning `true`,
    /// cursor at 0) once a digit stands in the last slot. Other keys are
    /// ignored.
    pub fn insert_key(&mut self, key: KeyEvent, out: &mut Vec<DisplayCmd>) -> (done: bool)
        requires
            old(self).wf(),
        ensures
            final(self).wf(),
            final(self)@ == entry_next(old(self)@, key),
            final(out)@ == old(out)@ + entry_cmds(old(self)@, key),
            done == entry_done(old(self)@, key),
            key == KeyEvent::Confirm && all_blank(old(self).digits@) ==> !done && final(self)@ == old(self)@,
    {
        let ghost v = self@;
        match key {
            KeyEvent::Digit(d) => {
                if d <= 9 && 1 <= self.position && self.position <= 15 {
                    out.push(DisplayCmd::Segment { position: 30, glyph: convert_to_char(d), point: false });
                    self.move_left(out);
                    self.position = self.position - 1;
                    self.digits[15] = d;
                    assert(self@.digits =~= shifted_left(v.digits, v.position).update(15, d));
                    assert(out@ =~= old(out)@ + entry_cmds(v, key));
                } else {
                    assert(out@ =~= old(out)@ + entry_cmds(v, key));
                }
                false
            },
            KeyEvent::Backspace | KeyEvent::Reset => {
                self.reset(out);
                false
            },
            KeyEvent::Shift => {
                if self.position < 15 {
                    self.move_right(out);
                    self.position = self.position + 1;
                    self.digits[self.position] = BLANK;
                    assert(self@.digits =~= shifted_right(v.digits, v.position).update(v.position + 1, BLANK));
                }
                assert(out@ =~= old(out)@ + entry_cmds(v, key));
                false
            },
            KeyEvent::Confirm => {
                assert(out@ =~= old(out)@ + entry_cmds(v, key));
                if self.digits[15] != BLANK {
                    self.position = 0;
                    true
                } else {
                    false
                }
            },
            _ => {
                assert(out@ =~= old(out)@ + entry_cmds(v, key));
                false
            },
        }
    }
}

} // verus!
