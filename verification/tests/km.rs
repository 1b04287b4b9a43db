use ibrus::km::{InputMode, Km};
use ibrus::keys::{
    KEY_BACKSPACE, KEY_ESCAPE, KEY_RETURN, KEY_SPACE, MASK_CONTROL, MASK_RELEASE, MASK_SHIFT,
};

const A: u32 = 0x61;
const B: u32 = 0x62;

#[test]
fn scenario_first_letter_starts_composition() {
    let mut km = Km::new();
    let claimed = km.process_key_event(A, 38, 0);
    assert!(claimed);
    assert_eq!(km.mode(), InputMode::Composing);
    assert_eq!(km.text().as_str(), "a");
    let out = km.take_output();
    assert_eq!(out.len(), 1);
    assert_eq!(out[0].0.as_str(), "a");
}

#[test]
fn scenario_second_letter_extends_buffer() {
    let mut km = Km::new();
    assert!(km.process_key_event(A, 38, 0));
    let claimed = km.process_key_event(B, 56, 0);
    assert!(claimed);
    assert_eq!(km.mode(), InputMode::Composing);
    assert_eq!(km.text().as_str(), "ab");
    let out = km.take_output();
    assert_eq!(out.len(), 2);
    assert_eq!(out[1].0.as_str(), "ab");
}

#[test]
fn scenario_escape_resets_composition() {
    let mut km = Km::new();
    assert!(km.process_key_event(A, 38, 0));
    assert!(km.process_key_event(B, 56, 0));
    let claimed = km.process_key_event(KEY_ESCAPE, 9, 0);
    assert!(claimed);
    assert_eq!(km.mode(), InputMode::Idle);
    assert_eq!(km.text().as_str(), "");
}

#[test]
fn scenario_enter_ends_composition() {
    let mut km = Km::new();
    assert!(!km.feedback_enabled());
    assert!(km.process_key_event(A, 38, 0));
    let claimed = km.process_key_event(KEY_RETURN, 36, 0);
    assert!(claimed);
    assert_eq!(km.mode(), InputMode::Idle);
    assert_eq!(km.text().as_str(), "");
}

#[test]
fn feedback_disable_twice_equals_once() {
    let mut once = Km::new();
    once.apply_feedback(1);
    let mut twice = once.clone();
    once.apply_feedback(0);
    twice.apply_feedback(0);
    twice.apply_feedback(0);
    assert_eq!(once.mode(), twice.mode());
    assert_eq!(once.text(), twice.text());
    assert_eq!(once.feedback_enabled(), twice.feedback_enabled());
    assert_eq!(once.capture_disabled(), twice.capture_disabled());
    assert_eq!(once.backspace_disabled(), twice.backspace_disabled());
    assert_eq!(once.take_output(), twice.take_output());
}

#[test]
fn idle_ignores_modified_letters() {
    let mut km = Km::new();
    assert!(!km.process_key_event(A, 38, MASK_SHIFT));
    assert!(!km.process_key_event(A, 38, MASK_CONTROL));
    assert_eq!(km.mode(), InputMode::Idle);
    // key releases are ignored too
    assert!(!km.process_key_event(A, 38, MASK_RELEASE));
    assert_eq!(km.mode(), InputMode::Idle);
    // every processed event still publishes a snapshot
    assert_eq!(km.take_output().len(), 3);
}

#[test]
fn idle_passes_other_keys_through() {
    let mut km = Km::new();
    assert!(!km.process_key_event(KEY_RETURN, 36, 0));
    assert!(!km.process_key_event(KEY_SPACE, 65, 0));
    assert!(!km.process_key_event(0x31, 10, 0));
    assert_eq!(km.mode(), InputMode::Idle);
}

#[test]
fn backspace_shortens_then_ends_composition() {
    let mut km = Km::new();
    assert!(km.process_key_event(A, 38, 0));
    assert!(km.process_key_event(B, 56, 0));
    assert!(km.process_key_event(KEY_BACKSPACE, 22, 0));
    assert_eq!(km.mode(), InputMode::Composing);
    assert_eq!(km.text().as_str(), "a");
    assert!(km.process_key_event(KEY_BACKSPACE, 22, 0));
    assert_eq!(km.mode(), InputMode::Idle);
    assert_eq!(km.text().as_str(), "");
}

#[test]
fn composing_claims_inert_keys() {
    let mut km = Km::new();
    assert!(km.process_key_event(A, 38, 0));
    // uppercase, punctuation, delete and the arrows are claimed but inert
    assert!(km.process_key_event(0x41, 38, MASK_SHIFT));
    assert!(km.process_key_event(0x21, 10, MASK_SHIFT));
    assert!(km.process_key_event(0xffff, 119, 0));
    assert!(km.process_key_event(0xff51, 113, 0));
    assert_eq!(km.text().as_str(), "a");
    assert_eq!(km.mode(), InputMode::Composing);
    // a function key is not claimed and passes through
    assert!(!km.process_key_event(0xffbe, 67, 0));
    // but the snapshot was still published for it
    assert_eq!(km.take_output().len(), 6);
}

#[test]
fn composing_digit_with_feedback_enabled_stays() {
    let mut km = Km::new();
    km.apply_feedback(1);
    assert!(km.process_key_event(A, 38, 0));
    let claimed = km.process_key_event(0x31, 10, 0);
    assert!(claimed);
    assert_eq!(km.mode(), InputMode::Composing);
    assert_eq!(km.text().as_str(), "a");
}

#[test]
fn feedback_capture_disable_and_reenable() {
    let mut km = Km::new();
    assert!(km.process_key_event(A, 38, 0));
    km.take_output();
    // code 3: silent reset, then capture off
    km.apply_feedback(3);
    assert!(km.capture_disabled());
    assert_eq!(km.mode(), InputMode::Idle);
    assert_eq!(km.text().as_str(), "");
    // the reset published one snapshot of the empty buffer
    let out = km.take_output();
    assert_eq!(out.len(), 1);
    assert_eq!(out[0].0.as_str(), "");
    // while capture is off nothing is claimed and nothing published
    assert!(!km.process_key_event(A, 38, 0));
    assert_eq!(km.mode(), InputMode::Idle);
    assert_eq!(km.take_output().len(), 0);
    // code 1: feedback on, capture back on
    km.apply_feedback(1);
    assert!(!km.capture_disabled());
    assert!(km.feedback_enabled());
    assert!(km.process_key_event(A, 38, 0));
}

#[test]
fn feedback_reset_code() {
    let mut km = Km::new();
    assert!(km.process_key_event(A, 38, 0));
    km.apply_feedback(2);
    assert_eq!(km.mode(), InputMode::Idle);
    assert_eq!(km.text().as_str(), "");
    assert!(!km.capture_disabled());
}

#[test]
fn feedback_backspace_toggle() {
    let mut km = Km::new();
    assert!(km.process_key_event(A, 38, 0));
    km.apply_feedback(4);
    assert!(km.backspace_disabled());
    // backspace is claimed but inert, and new letters are blocked too
    assert!(km.process_key_event(KEY_BACKSPACE, 22, 0));
    assert_eq!(km.text().as_str(), "a");
    assert!(km.process_key_event(B, 56, 0));
    assert_eq!(km.text().as_str(), "a");
    km.apply_feedback(5);
    assert!(!km.backspace_disabled());
    assert!(km.process_key_event(B, 56, 0));
    assert_eq!(km.text().as_str(), "ab");
}

#[test]
fn feedback_unknown_code_is_ignored() {
    let mut km = Km::new();
    assert!(km.process_key_event(A, 38, 0));
    km.take_output();
    km.apply_feedback(99);
    km.apply_feedback(-7);
    assert_eq!(km.mode(), InputMode::Composing);
    assert_eq!(km.text().as_str(), "a");
    assert_eq!(km.take_output().len(), 0);
}

#[test]
fn lifecycle_calls() {
    let mut km = Km::new();
    assert!(km.process_key_event(A, 38, 0));
    km.take_output();
    km.focus_in();
    assert_eq!(km.mode(), InputMode::Composing);
    assert_eq!(km.take_output().len(), 0);
    km.focus_out();
    assert_eq!(km.mode(), InputMode::Idle);
    assert_eq!(km.text().as_str(), "");
    let out = km.take_output();
    assert_eq!(out.len(), 1);
    assert_eq!(out[0].0.as_str(), "");
    assert!(km.process_key_event(A, 38, 0));
    km.reset();
    assert_eq!(km.mode(), InputMode::Idle);
    assert!(km.process_key_event(A, 38, 0));
    km.enable();
    assert_eq!(km.mode(), InputMode::Composing);
    km.disable();
    assert_eq!(km.mode(), InputMode::Idle);
}

#[test]
fn composing_key_release_is_claimed_but_inert() {
    let mut km = Km::new();
    assert!(km.process_key_event(A, 38, 0));
    // releasing a letter is claimed but does not extend the buffer
    assert!(km.process_key_event(B, 56, MASK_RELEASE));
    assert_eq!(km.text().as_str(), "a");
    // releasing escape is claimed but does not reset
    assert!(km.process_key_event(KEY_ESCAPE, 9, MASK_RELEASE));
    assert_eq!(km.mode(), InputMode::Composing);
    // releasing backspace is claimed but does not delete
    assert!(km.process_key_event(KEY_BACKSPACE, 22, MASK_RELEASE));
    assert_eq!(km.text().as_str(), "a");
}
