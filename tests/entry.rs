use division_helper::display::{convert_to_char, DisplayCmd, Prompt, BLANK};
use division_helper::helper::{high_end, DivisionHelper};
use division_helper::keys::{press_any_key, KeyEvent};

fn typed(ds: &[u8]) -> (DivisionHelper, Vec<DisplayCmd>) {
    let mut h = DivisionHelper::new();
    let mut out = Vec::new();
    for &d in ds {
        assert!(!h.insert_key(KeyEvent::Digit(d), &mut out));
    }
    (h, out)
}

fn seg(position: u8, glyph: char, point: bool) -> DisplayCmd {
    DisplayCmd::Segment { position, glyph, point }
}

#[test]
fn glyphs_of_slot_values() {
    assert_eq!(convert_to_char(0), '0');
    assert_eq!(convert_to_char(7), '7');
    assert_eq!(convert_to_char(9), '9');
    assert_eq!(convert_to_char(BLANK), ' ');
    assert_eq!(convert_to_char(200), ' ');
}

#[test]
fn prompt_texts() {
    assert_eq!(Prompt::Insert.text(), "insert");
    assert_eq!(Prompt::Number.text(), "number");
}

#[test]
fn key_codes_decode() {
    assert_eq!(KeyEvent::from_code(0), KeyEvent::Digit(0));
    assert_eq!(KeyEvent::from_code(9), KeyEvent::Digit(9));
    assert_eq!(KeyEvent::from_code(10), KeyEvent::Continue);
    assert_eq!(KeyEvent::from_code(11), KeyEvent::ContinueAlt);
    assert_eq!(KeyEvent::from_code(12), KeyEvent::Backspace);
    assert_eq!(KeyEvent::from_code(13), KeyEvent::Shift);
    assert_eq!(KeyEvent::from_code(14), KeyEvent::Other(14));
    assert_eq!(KeyEvent::from_code(17), KeyEvent::Other(17));
    assert_eq!(KeyEvent::from_code(18), KeyEvent::Reset);
    assert_eq!(KeyEvent::from_code(19), KeyEvent::Confirm);
}

#[test]
fn continue_signals() {
    assert_eq!(press_any_key(KeyEvent::Continue), 1);
    assert_eq!(press_any_key(KeyEvent::ContinueAlt), 2);
    assert_eq!(press_any_key(KeyEvent::Digit(5)), 0);
    assert_eq!(press_any_key(KeyEvent::Confirm), 0);
    assert_eq!(press_any_key(KeyEvent::Other(15)), 0);
}

#[test]
fn new_helper_is_blank() {
    let h = DivisionHelper::new();
    assert_eq!(h.digits, [BLANK; 16]);
    assert_eq!(h.position, 15);
    assert_eq!(h.diodes, [false; 16]);
    assert_eq!(h.points, [false; 16]);
    assert!(h.is_empty());
    assert!(h.is_finished());
}

#[test]
fn reset_paints_prompt_and_clears() {
    let (mut h, _) = typed(&[3, 4]);
    h.diodes[2] = true;
    h.points[5] = true;
    let mut out = Vec::new();
    h.reset(&mut out);
    assert_eq!(
        out,
        vec![
            DisplayCmd::On { brightness: 7 },
            DisplayCmd::Clean,
            DisplayCmd::Write { position: 0, prompt: Prompt::Insert },
            DisplayCmd::Write { position: 20, prompt: Prompt::Number },
        ]
    );
    assert_eq!(h.digits, [BLANK; 16]);
    assert_eq!(h.position, 15);
    assert_eq!(h.diodes, [false; 16]);
    assert_eq!(h.points, [false; 16]);
}

#[test]
fn reset_twice_same_as_once() {
    let (mut once, _) = typed(&[1, 2, 8]);
    let (mut twice, _) = typed(&[1, 2, 8]);
    let mut out = Vec::new();
    once.reset(&mut out);
    twice.reset(&mut out);
    twice.reset(&mut out);
    assert_eq!(once.digits, twice.digits);
    assert_eq!(once.position, twice.position);
    assert_eq!(once.diodes, twice.diodes);
    assert_eq!(once.points, twice.points);
}

#[test]
fn begin_insert_clears_display() {
    let h = DivisionHelper::new();
    let mut out = Vec::new();
    h.begin_insert(&mut out);
    assert_eq!(out, vec![DisplayCmd::Clean]);
}

#[test]
fn digits_enter_right_aligned() {
    let (h, _) = typed(&[4, 7, 2]);
    let mut expected = [BLANK; 16];
    expected[13] = 4;
    expected[14] = 7;
    expected[15] = 2;
    assert_eq!(h.digits, expected);
    assert_eq!(h.position, 12);
    assert!(!h.is_empty());
}

#[test]
fn digit_key_repaints_shifted_slots() {
    let (mut h, _) = typed(&[4, 7]);
    let mut out = Vec::new();
    assert!(!h.insert_key(KeyEvent::Digit(2), &mut out));
    assert_eq!(
        out,
        vec![seg(30, '2', false), seg(26, '4', false), seg(28, '7', false)]
    );
}

#[test]
fn fifteen_digits_fill_the_buffer() {
    let ds = [1, 2, 3, 4, 5, 6, 7, 8, 9, 0, 1, 2, 3, 4, 5];
    let (mut h, _) = typed(&ds);
    assert_eq!(h.position, 0);
    assert_eq!(h.digits[0], BLANK);
    assert_eq!(&h.digits[1..], &ds[..]);
    let before = h.digits;
    let mut out = Vec::new();
    assert!(!h.insert_key(KeyEvent::Digit(6), &mut out));
    assert_eq!(h.digits, before);
    assert_eq!(h.position, 0);
    assert!(out.is_empty());
}

#[test]
fn confirm_on_blank_buffer_is_rejected() {
    let mut h = DivisionHelper::new();
    let mut out = Vec::new();
    assert!(!h.insert_key(KeyEvent::Confirm, &mut out));
    assert_eq!(h.digits, [BLANK; 16]);
    assert_eq!(h.position, 15);
    assert!(out.is_empty());
}

#[test]
fn confirm_ends_entry() {
    let (mut h, _) = typed(&[5]);
    let mut out = Vec::new();
    assert!(h.insert_key(KeyEvent::Confirm, &mut out));
    assert_eq!(h.position, 0);
    assert_eq!(h.digits[15], 5);
    assert!(out.is_empty());
}

#[test]
fn shift_undoes_last_digit() {
    let (mut h, _) = typed(&[4, 7]);
    let mut out = Vec::new();
    assert!(!h.insert_key(KeyEvent::Shift, &mut out));
    let mut expected = [BLANK; 16];
    expected[15] = 4;
    assert_eq!(h.digits, expected);
    assert_eq!(h.position, 14);
    assert_eq!(out.len(), 2);
    assert_eq!(out[0], seg(30, '4', false));
    assert_eq!(out[1], seg(28, ' ', false));
}

#[test]
fn shift_on_blank_buffer_is_ignored() {
    let mut h = DivisionHelper::new();
    let mut out = Vec::new();
    assert!(!h.insert_key(KeyEvent::Shift, &mut out));
    assert_eq!(h.digits, [BLANK; 16]);
    assert_eq!(h.position, 15);
    assert!(out.is_empty());
}

#[test]
fn backspace_starts_over() {
    let (mut h, _) = typed(&[9, 9]);
    let mut out = Vec::new();
    assert!(!h.insert_key(KeyEvent::Backspace, &mut out));
    assert_eq!(h.digits, [BLANK; 16]);
    assert_eq!(h.position, 15);
    assert_eq!(out.len(), 4);
}

#[test]
fn other_keys_are_ignored() {
    let (mut h, _) = typed(&[3]);
    let before = h.digits;
    let mut out = Vec::new();
    for k in [KeyEvent::Continue, KeyEvent::ContinueAlt, KeyEvent::Other(14), KeyEvent::Digit(12)] {
        assert!(!h.insert_key(k, &mut out));
    }
    assert_eq!(h.digits, before);
    assert_eq!(h.position, 14);
    assert!(out.is_empty());
}

#[test]
fn move_left_then_right_restores_other_slots() {
    let (mut h, _) = typed(&[1, 2, 3]);
    h.position = 11;
    let before = h.digits;
    let mut out = Vec::new();
    h.move_left(&mut out);
    assert_eq!(out.len(), 4);
    h.move_right(&mut out);
    for i in 0..16 {
        if i != 11 {
            assert_eq!(h.digits[i], before[i]);
        }
    }
    assert_eq!(h.digits[11], before[12]);
}

#[test]
fn high_end_offsets() {
    assert_eq!(high_end(0), 15);
    assert_eq!(high_end(1), 14);
    assert_eq!(high_end(3), 12);
    assert_eq!(high_end(15), 0);
}
