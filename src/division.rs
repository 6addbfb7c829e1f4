use vstd::prelude::*;

use crate::display::{convert_to_char, DisplayCmd};
use crate::helper::{high_end, seg, DivisionHelper, HelperView, SLOTS};

verus! {

/// `10` to the power `n`.
pub open spec fn pow10(n: nat) -> nat
    decreases n,
{
    if n == 0 {
        1
    } else {
        10 * pow10((n - 1) as nat)
    }
}

/// Diode row after parity marking: slot `i >= 1` is lit when the digit left
/// of it is odd; slot 0 keeps its flag.
pub open spec fn parity_diodes(v: HelperView) -> Seq<bool> {
    Seq::new(16, |i: int| if i == 0 { v.diodes[0] } else { v.digits[i - 1] % 2 == 1 })
}

/// Indicator commands for the lit diodes among slots `0..n`, low slot first.
pub open spec fn show_cmds(diodes: Seq<bool>, n: int) -> Seq<DisplayCmd>
    decreases n,
{
    if n <= 0 {
        Seq::empty()
    } else if diodes[n - 1] {
        show_cmds(diodes, n - 1).push(
            DisplayCmd::Segment { position: (2 * (n - 1) + 1) as u8, glyph: '8', point: false },
        )
    } else {
        show_cmds(diodes, n - 1)
    }
}

/// Point row after carry marking: slot `j` gains a mark when slot `j + 1`
/// has no lit diode; marks already set stay.
pub open spec fn marked_points(v: HelperView) -> Seq<bool> {
    Seq::new(16, |j: int| if j < 15 && !v.diodes[j + 1] { true } else { v.points[j] })
}

/// Pointed glyphs painted by carry marking for slots `1..n`, low slot first:
/// slot `i`'s digit, shown with its point at slot `i - 1`.
pub open spec fn point_cmds(v: HelperView, n: int) -> Seq<DisplayCmd>
    decreases n,
{
    if n <= 1 {
        Seq::empty()
    } else if !v.diodes[n - 1] {
        point_cmds(v, n - 1).push(seg(n - 2, v.digits[n - 1], true))
    } else {
        point_cmds(v, n - 1)
    }
}

/// Length of the run of set point marks read from the high end, starting at
/// progress `p`: marks `15 - p`, `14 - p`, ... up to the first unset one.
pub open spec fn run_len(points: Seq<bool>, p: int) -> int
    decreases 16 - p,
{
    if p < 0 || p >= 16 || !points[15 - p] {
        0
    } else {
        1 + run_len(points, p + 1)
    }
}

/// Diode row after group selection from progress `p`: lit exactly on the
/// slots `15 - j` for `p <= j < p + run_len`.
pub open spec fn group_diodes(points: Seq<bool>, p: int) -> Seq<bool> {
    Seq::new(16, |j: int| p <= 15 - j < p + run_len(points, p))
}

/// Number of lit slots among `15, 14, ..., 16 - n`.
pub open spec fn group_count(v: HelperView, n: int) -> nat
    decreases n,
{
    if n <= 0 {
        0
    } else if v.diodes[15 - (n - 1)] {
        group_count(v, n - 1) + 1
    } else {
        group_count(v, n - 1)
    }
}

/// The number formed by the lit slots among `15, 14, ..., 16 - n`, slot 15
/// being the least significant digit.
pub open spec fn group_num(v: HelperView, n: int) -> nat
    decreases n,
{
    if n <= 0 {
        0
    } else if v.diodes[15 - (n - 1)] {
        group_num(v, n - 1) + (v.digits[15 - (n - 1)] as nat) * pow10(group_count(v, n - 1))
    } else {
        group_num(v, n - 1)
    }
}

/// Quotient digit `s` (most significant first) of `q` written with `k` digits.
pub open spec fn quotient_digit(q: nat, k: nat, s: int) -> u8 {
    ((q / pow10((k - 1 - s) as nat)) % 10) as u8
}

/// The quotient digits painted after a group of `k` digits worth `num` has
/// been consumed up to progress `p`: digit `s` at slot `15 - p - s`, the last
/// one with its point, as far as the slot row reaches.
pub open spec fn quotient_cmds(num: nat, k: nat, p: int) -> Seq<DisplayCmd> {
    let n = if k as int <= 16 - p { k as int } else { 16 - p };
    Seq::new(
        if n > 0 { n as nat } else { 0 },
        |s: int| seg(15 - p - s, quotient_digit(num / 2, k, s), s == k - 1),
    )
}

proof fn lemma_pow10_mono(a: nat, b: nat)
    requires
        a <= b,
    ensures
        pow10(a) <= pow10(b),
    decreases b,
{
    if a < b {
        lemma_pow10_mono(a, (b - 1) as nat);
    }
}

proof fn lemma_pow10_pos(n: nat)
    ensures
        pow10(n) > 0,
    decreases n,
{
    if n > 0 {
        lemma_pow10_pos((n - 1) as nat);
    }
}

proof fn lemma_pow10_16()
    ensures
        pow10(16) == 10_000_000_000_000_000,
{
    reveal_with_fuel(pow10, 17);
}

impl DivisionHelper {
    /// Lights the indicator of every slot whose diode flag is set.
    pub fn show(&self, out: &mut Vec<DisplayCmd>)
        ensures
            final(out)@ == old(out)@ + show_cmds(self.diodes@, 16),
    {
        let mut i: usize = 0;
        while i < SLOTS
            invariant
                i <= 16,
                out@ == old(out)@ + show_cmds(self.diodes@, i as int),
            decreases 16 - i,
        {
            if self.diodes[i] {
                out.push(DisplayCmd::Segment { position: (2 * i + 1) as u8, glyph: '8', point: false });
            }
            i = i + 1;
        }
    }

    /// Step 1, parity marking: the diode of each slot `i >= 1` is set exactly
    /// when the digit at `i - 1` is odd, and the lit indicators are shown.
    pub fn first_step(&mut self, out: &mut Vec<DisplayCmd>)
        requires
            old(self).wf(),
        ensures
            final(self).wf(),
            final(self).diodes@ == parity_diodes(old(self)@),
            forall|i: int| 1 <= i < 16 ==> final(self).diodes[i] == (old(self).digits[i - 1] % 2 == 1),
            final(self).digits == old(self).digits,
            final(self).position == old(self).position,
            final(self).points == old(self).points,
            final(out)@ == old(out)@ + show_cmds(parity_diodes(old(self)@), 16),
    {
        let ghost v = self@;
        let mut i: usize = 1;
        while i < SLOTS
            invariant
                1 <= i <= 16,
                self.wf(),
                self.digits == old(self).digits,
                self.position == old(self).position,
                self.points == old(self).points,
                v == old(self)@,
                self.diodes@.len() == 16,
                forall|j: int| 0 <= j < 16 ==> self.diodes[j] == if 1 <= j < i { v.digits[j - 1] % 2 == 1 } else { v.diodes[j] },
            decreases 16 - i,
        {
            self.diodes[i] = self.digits[i - 1] % 2 == 1;
            i = i + 1;
        }
        assert(self.diodes@ =~= parity_diodes(v));
        self.show(out);
    }

    /// Step 2, carry marking: for each slot `i >= 1` without a lit diode, the
    /// digit of slot `i` is shown with its point at slot `i - 1` and point
    /// mark `i - 1` is set. Marks of slots whose right neighbour is lit are
    /// left as they were.
    pub fn second_step(&mut self, out: &mut Vec<DisplayCmd>)
        requires
            old(self).wf(),
        ensures
            final(self).wf(),
            final(self).points@ == marked_points(old(self)@),
            forall|i: int| 1 <= i < 16 && !old(self).diodes[i] ==> final(self).points[i - 1],
            forall|i: int| 1 <= i < 16 && old(self).diodes[i] ==> final(self).points[i - 1] == old(self).points[i - 1],
            final(self).digits == old(self).digits,
            final(self).position == old(self).position,
            final(self).diodes == old(self).diodes,
            final(out)@ == old(out)@ + point_cmds(old(self)@, 16),
    {
        let ghost v = self@;
        let mut i: usize = 1;
        while i < SLOTS
            invariant
                1 <= i <= 16,
                self.wf(),
                self.digits == old(self).digits,
                self.position == old(self).position,
                self.diodes == old(self).diodes,
                v == old(self)@,
                self.points@.len() == 16,
                forall|j: int| 0 <= j < 16 ==> self.points[j] == if j < i - 1 && !v.diodes[j + 1] { true } else { v.points[j] },
                out@ == old(out)@ + point_cmds(v, i as int),
            decreases 16 - i,
        {
            let g = convert_to_char(self.digits[i]);
            if !self.diodes[i] {
                out.push(DisplayCmd::Segment { position: ((i - 1) * 2) as u8, glyph: g, point: true });
                self.points[i - 1] = true;
            }
            i = i + 1;
        }
        assert(self.points@ =~= marked_points(v));
    }

    /// Step 3, group selection: clears every diode, then from the current
    /// progress lights slot `15 - j` and advances the progress for each
    /// successive `j` whose point mark (`15 - j`) is set, stopping at the
    /// first unset mark or at the end of the row.
    pub fn third_step(&mut self)
        requires
            old(self).wf(),
        ensures
            final(self).wf(),
            final(self).position == old(self).position + run_len(old(self).points@, old(self).position as int),
            final(self).position <= 16,
            final(self).position < 16 ==> !old(self).points[15 - final(self).position],
            final(self).diodes@ == group_diodes(old(self).points@, old(self).position as int),
            final(self).digits == old(self).digits,
            final(self).points == old(self).points,
    {
        let ghost p0 = self.position as int;
        self.diodes = [false; 16];
        let mut i: usize = self.position;
        while i < SLOTS
            invariant_except_break
                p0 <= i <= 16,
                self.position == i,
                self.wf(),
                self.digits == old(self).digits,
                self.points == old(self).points,
                p0 == old(self).position,
                run_len(self.points@, p0) == (i - p0) + run_len(self.points@, i as int),
                self.diodes@.len() == 16,
                forall|j: int| 0 <= j < 16 ==> self.diodes[j] == (p0 <= 15 - j < i),
            ensures
                self.wf(),
                self.digits == old(self).digits,
                self.points == old(self).points,
                p0 <= self.position <= 16,
                run_len(self.points@, p0) == self.position - p0,
                self.position < 16 ==> !self.points[15 - self.position],
                self.diodes@.len() == 16,
                forall|j: int| 0 <= j < 16 ==> self.diodes[j] == (p0 <= 15 - j < self.position),
            decreases 16 - i,
        {
            let slot = high_end(i);
            if !self.points[slot] {
                break;
            }
            self.diodes[slot] = true;
            self.position = self.position + 1;
            i = i + 1;
        }
        assert(self.diodes@ =~= group_diodes(self.points@, p0));
    }

    /// Step 4, quotient display: forms the number of the lit slots, halves it
    /// (dropping any remainder), and paints its digits, most significant
    /// first, leftwards from the slot just left of the consumed part; the
    /// last digit carries the point.
    pub fn forth_step(&self, out: &mut Vec<DisplayCmd>)
        requires
            self.wf(),
        ensures
            final(out)@ == old(out)@ + quotient_cmds(
                group_num(self@, self.position as int),
                group_count(self@, self.position as int),
                self.position as int,
            ),
    {
        let ghost v = self@;
        let p = self.position;
        let mut num: u64 = 0;
        let mut cur: u64 = 1;
        let mut k: usize = 0;
        let mut i: usize = 0;
        proof {
            lemma_pow10_16();
        }
        while i < p
            invariant
                i <= p <= 16,
                v == self@,
                self.wf(),
                k <= i,
                k == group_count(v, i as int),
                num == group_num(v, i as int),
                cur == pow10(k as nat),
                num < 2 * cur,
                pow10(16) == 10_000_000_000_000_000,
            decreases p - i,
        {
            let slot = high_end(i);
            if self.diodes[slot] {
                let d = self.digits[slot];
                proof {
                    lemma_pow10_mono(k as nat, 15);
                    lemma_pow10_mono(15, 16);
                    assert(d as nat * cur <= 10 * cur) by (nonlinear_arith)
                        requires
                            d <= 10,
                    ;
                }
                num = num + d as u64 * cur;
                cur = cur * 10;
                k = k + 1;
            }
            i = i + 1;
        }
        let q: u64 = num / 2;
        let ghost o = out@;
        let ghost cmds = quotient_cmds(num as nat, k as nat, p as int);
        let mut s: usize = 0;
        let mut c: u64 = cur / 10;
        proof {
            if k > 0 {
                assert(pow10(k as nat) == 10 * pow10((k - 1) as nat));
            }
        }
        while s < k && s + p < 16
            invariant
                s <= k,
                p <= 16,
                s + p <= 16,
                q == num / 2,
                cmds == quotient_cmds(num as nat, k as nat, p as int),
                s < k ==> c == pow10((k - 1 - s) as nat),
                out@ == o + cmds.take(s as int),
            decreases k - s,
        {
            proof {
                lemma_pow10_pos((k - 1 - s) as nat);
                if k - 1 - s > 0 {
                    assert(pow10((k - 1 - s) as nat) == 10 * pow10((k - 2 - s) as nat));
                }
            }
            let g = convert_to_char(((q / c) % 10) as u8);
            out.push(DisplayCmd::Segment { position: (2 * (15 - p - s)) as u8, glyph: g, point: s + 1 == k });
            assert(cmds.take(s + 1) =~= cmds.take(s as int).push(cmds[s as int]));
            c = c / 10;
            s = s + 1;
        }
        assert(cmds.take(s as int) =~= cmds);
    }

    /// Whether the division walk-through has reached its end.
    pub fn is_finished(&self) -> (r: bool)
        ensures
            r == (self.position == 15),
    {
        self.position == 15
    }
}

} // verus!
