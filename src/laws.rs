use vstd::prelude::*;

use crate::display::BLANK;
use crate::helper::{
    cleared_flags, entry_next, reset_view, shifted_left, shifted_right, HelperView,
};
use crate::keys::KeyEvent;

verus! {

/// The state after a sequence of entry keys, taken in order.
pub open spec fn after_keys(v: HelperView, keys: Seq<KeyEvent>) -> HelperView
    decreases keys.len(),
{
    if keys.len() == 0 {
        v
    } else {
        entry_next(after_keys(v, keys.drop_last()), keys.last())
    }
}

/// The digit keys for a sequence of digits.
pub open spec fn digit_keys(ds: Seq<u8>) -> Seq<KeyEvent> {
    ds.map_values(|d: u8| KeyEvent::Digit(d))
}

/// A state during entry: the cursor on the row and every slot up to it blank.
pub open spec fn entering(v: HelperView) -> bool {
    &&& v.digits.len() == 16
    &&& 0 <= v.position <= 15
    &&& forall|i: int| 0 <= i <= v.position ==> v.digits[i] == BLANK
}

/// Typing fewer than sixteen digits after a reset leaves exactly those digits
/// right-aligned in the slots, blanks to their left, the cursor at fifteen
/// less their count, and no flags.
pub proof fn lemma_typed_digits_right_aligned(ds: Seq<u8>)
    requires
        ds.len() < 16,
        forall|i: int| 0 <= i < ds.len() ==> ds[i] <= 9,
    ensures
        after_keys(reset_view(), digit_keys(ds)) == (HelperView {
            digits: Seq::new((16 - ds.len()) as nat, |i: int| BLANK) + ds,
            position: 15 - ds.len(),
            diodes: cleared_flags(),
            points: cleared_flags(),
        }),
    decreases ds.len(),
{
    let n = ds.len() as int;
    if n == 0 {
        assert(Seq::new(16, |i: int| BLANK) + ds =~= reset_view().digits);
    } else {
        let prev = ds.drop_last();
        let d = ds.last();
        assert(digit_keys(ds).drop_last() =~= digit_keys(prev));
        lemma_typed_digits_right_aligned(prev);
        let s = Seq::new((17 - n) as nat, |i: int| BLANK) + prev;
        assert(shifted_left(s, 16 - n).update(15, d) =~= Seq::new((16 - n) as nat, |i: int| BLANK)
            + ds);
    }
}

/// A left shift followed by a right shift at the same cursor gives back every
/// slot but the cursor's own.
pub proof fn lemma_shift_left_then_right(s: Seq<u8>, c: int)
    requires
        s.len() == 16,
        0 <= c <= 15,
    ensures
        shifted_right(shifted_left(s, c), c).len() == 16,
        forall|i: int| 0 <= i < 16 && i != c ==> shifted_right(shifted_left(s, c), c)[i] == s[i],
{
}

/// During entry, a digit typed while a slot is free and then undone with
/// `Shift` leaves the state as it was.
pub proof fn lemma_digit_then_shift(v: HelperView, d: u8)
    requires
        entering(v),
        v.position >= 1,
        d <= 9,
    ensures
        entry_next(entry_next(v, KeyEvent::Digit(d)), KeyEvent::Shift) == v,
{
    let w = entry_next(v, KeyEvent::Digit(d));
    assert(shifted_right(w.digits, w.position).update(w.position + 1, BLANK) =~= v.digits);
}

/// Resetting twice leaves the same state as resetting once.
pub proof fn lemma_reset_idempotent(v: HelperView)
    ensures
        entry_next(v, KeyEvent::Reset) == reset_view(),
        entry_next(entry_next(v, KeyEvent::Reset), KeyEvent::Reset) == entry_next(v, KeyEvent::Reset),
{
}

} // verus!
