//! The key state machine.
//!
//! It consumes raw key events and decides which ones are claimed for
//! composition. In `Idle` mode only an unmodified lowercase letter is
//! claimed; it starts a composition. In `Composing` mode letters extend the
//! buffer, digits, space and enter end the composition (unless feedback is
//! enabled), escape cancels it, backspace shortens it, and a fixed set of
//! further keys is claimed without effect. Every processed key event
//! publishes the current buffer as a `T` snapshot message, and the backend
//! steers the machine through small integer feedback codes.
use vstd::prelude::*;
use vstd::string::*;

use crate::keys::IBusModifierState;
use crate::keys::KEY_0;
use crate::keys::KEY_9;
use crate::keys::KEY_A_LOWER;
use crate::keys::KEY_A_UPPER;
use crate::keys::KEY_BACKSPACE;
use crate::keys::KEY_DELETE;
use crate::keys::KEY_DOWN;
use crate::keys::KEY_ESCAPE;
use crate::keys::KEY_LEFT;
use crate::keys::KEY_RETURN;
use crate::keys::KEY_RIGHT;
use crate::keys::KEY_SPACE;
use crate::keys::KEY_UP;
use crate::keys::KEY_Z_LOWER;
use crate::keys::KEY_Z_UPPER;
use crate::keys::spec_has_special_modifiers;
use crate::keys::spec_is_keydown;
use crate::keys::spec_shift;
use crate::wire::MsT;

verus! {

/// The two modes of the key state machine.
#[derive(Debug, Clone, Copy, PartialEq, Eq, Structural)]
pub enum InputMode {
    /// Keys pass through; only an unmodified lowercase letter is captured.
    Idle,
    /// A composition is in progress; all related keys are captured.
    Composing,
}

/// The mathematical state of the key state machine.
#[verifier::ext_equal]
pub struct KmSt {
    pub mode: InputMode,
    /// The in-progress composition buffer.
    pub buf: Seq<char>,
    /// Whether backend feedback is enabled (suppresses the soft exits).
    pub ef: bool,
    /// Global override: every key passes through untouched.
    pub capture_disabled: bool,
    /// Override: backspace (and new letters) leave the buffer alone.
    pub backspace_disabled: bool,
}

/// `k` is a lowercase letter key (`a`..=`z`).
pub open spec fn is_lower_letter(k: u32) -> bool {
    KEY_A_LOWER <= k <= KEY_Z_LOWER
}

/// `k` is an uppercase letter key (`A`..=`Z`).
pub open spec fn is_upper_letter(k: u32) -> bool {
    KEY_A_UPPER <= k <= KEY_Z_UPPER
}

/// `k` is a digit, space or enter: the keys that end a composition.
pub open spec fn is_commit_key(k: u32) -> bool {
    (KEY_0 <= k <= KEY_9) || k == KEY_SPACE || k == KEY_RETURN
}

/// `k` is one of the punctuation characters reachable from the main
/// alphanumeric block of a standard keyboard: the printable ASCII range
/// without letters, digits and space.
pub open spec fn is_punct_key(k: u32) -> bool {
    (0x21 <= k <= 0x2f) || (0x3a <= k <= 0x40) || (0x5b <= k <= 0x60) || (0x7b <= k <= 0x7e)
}

/// Keys that a composition claims without reacting to them.
pub open spec fn is_inert_claimed_key(k: u32) -> bool {
    is_upper_letter(k) || is_punct_key(k) || k == KEY_DELETE || k == KEY_LEFT || k == KEY_RIGHT
        || k == KEY_UP || k == KEY_DOWN
}

/// The character a lowercase letter key stands for.
pub open spec fn letter_char(k: u32) -> char {
    if k == 0x61 {
        'a'
    } else if k == 0x62 {
        'b'
    } else if k == 0x63 {
        'c'
    } else if k == 0x64 {
        'd'
    } else if k == 0x65 {
        'e'
    } else if k == 0x66 {
        'f'
    } else if k == 0x67 {
        'g'
    } else if k == 0x68 {
        'h'
    } else if k == 0x69 {
        'i'
    } else if k == 0x6a {
        'j'
    } else if k == 0x6b {
        'k'
    } else if k == 0x6c {
        'l'
    } else if k == 0x6d {
        'm'
    } else if k == 0x6e {
        'n'
    } else if k == 0x6f {
        'o'
    } else if k == 0x70 {
        'p'
    } else if k == 0x71 {
        'q'
    } else if k == 0x72 {
        'r'
    } else if k == 0x73 {
        's'
    } else if k == 0x74 {
        't'
    } else if k == 0x75 {
        'u'
    } else if k == 0x76 {
        'v'
    } else if k == 0x77 {
        'w'
    } else if k == 0x78 {
        'x'
    } else if k == 0x79 {
        'y'
    } else {
        'z'
    }
}

/// The one-character string for a lowercase letter key.
fn letter_str(k: u32) -> (r: &'static str)
    requires
        is_lower_letter(k),
    ensures
        r@ == seq![letter_char(k)],
{
    proof {
        reveal_strlit("a");
        reveal_strlit("b");
        reveal_strlit("c");
        reveal_strlit("d");
        reveal_strlit("e");
        reveal_strlit("f");
        reveal_strlit("g");
        reveal_strlit("h");
        reveal_strlit("i");
        reveal_strlit("j");
        reveal_strlit("k");
        reveal_strlit("l");
        reveal_strlit("m");
        reveal_strlit("n");
        reveal_strlit("o");
        reveal_strlit("p");
        reveal_strlit("q");
        reveal_strlit("r");
        reveal_strlit("s");
        reveal_strlit("t");
        reveal_strlit("u");
        reveal_strlit("v");
        reveal_strlit("w");
        reveal_strlit("x");
        reveal_strlit("y");
        reveal_strlit("z");
    }
    let r: &'static str = if k == 0x61 {
        "a"
    } else if k == 0x62 {
        "b"
    } else if k == 0x63 {
        "c"
    } else if k == 0x64 {
        "d"
    } else if k == 0x65 {
        "e"
    } else if k == 0x66 {
        "f"
    } else if k == 0x67 {
        "g"
    } else if k == 0x68 {
        "h"
    } else if k == 0x69 {
        "i"
    } else if k == 0x6a {
        "j"
    } else if k == 0x6b {
        "k"
    } else if k == 0x6c {
        "l"
    } else if k == 0x6d {
        "m"
    } else if k == 0x6e {
        "n"
    } else if k == 0x6f {
        "o"
    } else if k == 0x70 {
        "p"
    } else if k == 0x71 {
        "q"
    } else if k == 0x72 {
        "r"
    } else if k == 0x73 {
        "s"
    } else if k == 0x74 {
        "t"
    } else if k == 0x75 {
        "u"
    } else if k == 0x76 {
        "v"
    } else if k == 0x77 {
        "w"
    } else if k == 0x78 {
        "x"
    } else if k == 0x79 {
        "y"
    } else {
        "z"
    };
    proof {
        assert(r@ =~= seq![letter_char(k)]);
    }
    r
}

/// The state after a full reset: `Idle`, empty buffer, both key overrides
/// cleared. The feedback flag survives a reset.
pub open spec fn cleared(st: KmSt) -> KmSt {
    KmSt {
        mode: InputMode::Idle,
        buf: Seq::empty(),
        ef: st.ef,
        capture_disabled: false,
        backspace_disabled: false,
    }
}

/// Whether a key event is claimed in state `st`.
pub open spec fn claim_of(st: KmSt, keyval: u32, mask: u32) -> bool {
    if st.capture_disabled {
        false
    } else {
        match st.mode {
            InputMode::Idle => spec_is_keydown(mask) && is_lower_letter(keyval)
                && !spec_has_special_modifiers(mask) && !spec_shift(mask),
            InputMode::Composing => is_lower_letter(keyval) || keyval == KEY_ESCAPE
                || is_commit_key(keyval) || keyval == KEY_BACKSPACE || is_inert_claimed_key(
                keyval,
            ),
        }
    }
}

/// The state after processing a key event in state `st`.
pub open spec fn state_after_key(st: KmSt, keyval: u32, mask: u32) -> KmSt {
    if st.capture_disabled {
        st
    } else {
        let down = spec_is_keydown(mask);
        match st.mode {
            InputMode::Idle => {
                if down && is_lower_letter(keyval) && !spec_has_special_modifiers(mask)
                    && !spec_shift(mask) {
                    KmSt { mode: InputMode::Composing, buf: seq![letter_char(keyval)], ..st }
                } else {
                    st
                }
            },
            InputMode::Composing => {
                if is_lower_letter(keyval) {
                    if down && !st.backspace_disabled {
                        KmSt { buf: st.buf.push(letter_char(keyval)), ..st }
                    } else {
                        st
                    }
                } else if keyval == KEY_ESCAPE {
                    if down {
                        cleared(st)
                    } else {
                        st
                    }
                } else if is_commit_key(keyval) {
                    if down && !st.ef {
                        cleared(st)
                    } else {
                        st
                    }
                } else if keyval == KEY_BACKSPACE {
                    if down && !st.backspace_disabled {
                        if st.buf.len() > 1 {
                            KmSt { buf: st.buf.drop_last(), ..st }
                        } else {
                            cleared(st)
                        }
                    } else {
                        st
                    }
                } else {
                    st
                }
            },
        }
    }
}

/// The state after a feedback code from the backend.
pub open spec fn state_after_feedback(st: KmSt, f: i32) -> KmSt {
    if f == 0 {
        KmSt { ef: false, ..st }
    } else if f == 1 {
        KmSt { ef: true, capture_disabled: false, ..st }
    } else if f == 2 {
        cleared(st)
    } else if f == 3 {
        KmSt { capture_disabled: true, ..cleared(st) }
    } else if f == 4 {
        KmSt { backspace_disabled: true, ..st }
    } else if f == 5 {
        KmSt { backspace_disabled: false, ..st }
    } else {
        st
    }
}

/// Invariant: the buffer is non-empty exactly while composing, and holds
/// lowercase letters only.
pub open spec fn km_wf(st: KmSt) -> bool {
    &&& st.mode is Composing <==> st.buf.len() > 0
    &&& forall|i: int| 0 <= i < st.buf.len() ==> is_lower_letter(#[trigger] st.buf[i] as u32)
}

/// `post` is `pre` with one `T` snapshot of `buf` appended.
pub open spec fn snapshot_appended(pre: Seq<MsT>, post: Seq<MsT>, buf: Seq<char>) -> bool {
    &&& post.len() == pre.len() + 1
    &&& post.subrange(0, pre.len() as int) == pre
    &&& post[pre.len() as int].0@ == buf
}

/// The key state machine.
///
/// Snapshot messages it publishes are queued in an internal output buffer;
/// the caller drains them with [`Km::take_output`] and forwards them to the
/// backend.
#[derive(Debug, Clone)]
pub struct Km {
    mode: InputMode,
    /// The composition buffer.
    t: String,
    /// Feedback enabled.
    ef: bool,
    /// Capture disabled: every key passes through.
    capture_disabled: bool,
    /// Backspace disabled.
    backspace_disabled: bool,
    /// Snapshot messages not yet handed to the caller.
    out: Vec<MsT>,
}

impl View for Km {
    type V = KmSt;

    closed spec fn view(&self) -> KmSt {
        KmSt {
            mode: self.mode,
            buf: self.t@,
            ef: self.ef,
            capture_disabled: self.capture_disabled,
            backspace_disabled: self.backspace_disabled,
        }
    }
}

impl Km {
    /// The queued snapshot messages.
    pub closed spec fn spec_out(&self) -> Seq<MsT> {
        self.out@
    }

    /// A fresh machine: idle, empty buffer, feedback disabled, no overrides,
    /// nothing queued.
    pub fn new() -> (r: Self)
        ensures
            km_wf(r@),
            r@.mode is Idle,
            r@.buf == Seq::<char>::empty(),
            r@.ef == false,
            r@.capture_disabled == false,
            r@.backspace_disabled == false,
            r.spec_out() == Seq::<MsT>::empty(),
    {
        Km {
            mode: InputMode::Idle,
            t: String::new(),
            ef: false,
            capture_disabled: false,
            backspace_disabled: false,
            out: Vec::new(),
        }
    }

    /// Resets mode, buffer and the two key overrides.
    fn clear_state(&mut self)
        ensures
            final(self)@ == cleared(old(self)@),
            final(self).spec_out() == old(self).spec_out(),
    {
        self.mode = InputMode::Idle;
        self.capture_disabled = false;
        self.backspace_disabled = false;
        self.t = String::new();
        proof {
            assert(self@ =~= cleared(old(self)@));
        }
    }

    /// Queues a snapshot of the current buffer.
    fn publish(&mut self)
        ensures
            final(self)@ == old(self)@,
            snapshot_appended(old(self).spec_out(), final(self).spec_out(), old(self)@.buf),
    {
        let snap = MsT(self.t.clone());
        self.out.push(snap);
        proof {
            assert(self.out@.subrange(0, old(self).out@.len() as int) =~= old(self).out@);
        }
    }

    /// Processes one key event and reports whether it was claimed.
    ///
    /// Unless capture is disabled, the call also queues a snapshot of the
    /// (new) buffer, whether or not the event was claimed.
    pub fn process_key_event(&mut self, keyval: u32, _keycode: u32, state: u32) -> (claimed: bool)
        requires
            km_wf(old(self)@),
        ensures
            km_wf(final(self)@),
            claimed == claim_of(old(self)@, keyval, state),
            final(self)@ == state_after_key(old(self)@, keyval, state),
            old(self)@.capture_disabled ==> final(self).spec_out() == old(self).spec_out(),
            !old(self)@.capture_disabled ==> snapshot_appended(
                old(self).spec_out(),
                final(self).spec_out(),
                state_after_key(old(self)@, keyval, state).buf,
            ),
    {
        if self.capture_disabled {
            return false;
        }
        let m = IBusModifierState::new_with_raw_value(state);
        let down = m.is_keydown();
        let mut claimed = false;
        match self.mode {
            InputMode::Idle => {
                // only key presses are examined
                if down && keyval >= KEY_A_LOWER && keyval <= KEY_Z_LOWER {
                    // a letter pressed together with a special modifier or
                    // shift is a keybinding, not text: ignore it
                    if !(m.has_special_modifiers() || m.shift()) {
                        claimed = true;
                        self.mode = InputMode::Composing;
                        self.t = String::from_str(letter_str(keyval));
                    }
                }
            },
            InputMode::Composing => {
                if keyval >= KEY_A_LOWER && keyval <= KEY_Z_LOWER {
                    claimed = true;
                    if down && !self.backspace_disabled {
                        // disabling backspace also stops new letters
                        self.t.append(letter_str(keyval));
                    }
                } else if keyval == KEY_ESCAPE {
                    claimed = true;
                    if down {
                        self.clear_state();
                    }
                } else if (keyval >= KEY_0 && keyval <= KEY_9) || keyval == KEY_SPACE || keyval
                    == KEY_RETURN {
                    claimed = true;
                    // with feedback enabled the backend decides when the
                    // composition ends, so the key is claimed but inert
                    if down && !self.ef {
                        self.clear_state();
                    }
                } else if keyval == KEY_BACKSPACE {
                    claimed = true;
                    if down && !self.backspace_disabled {
                        let n = self.t.as_str().unicode_len();
                        if n > 1 {
                            let shorter = String::from_str(
                                self.t.as_str().substring_char(0, n - 1),
                            );
                            self.t = shorter;
                        } else {
                            // last character removed: the composition ends
                            self.clear_state();
                        }
                    }
                } else if (keyval >= KEY_A_UPPER && keyval <= KEY_Z_UPPER) || (keyval >= 0x21
                    && keyval <= 0x2f) || (keyval >= 0x3a && keyval <= 0x40) || (keyval >= 0x5b
                    && keyval <= 0x60) || (keyval >= 0x7b && keyval <= 0x7e) || keyval
                    == KEY_DELETE || keyval == KEY_LEFT || keyval == KEY_RIGHT || keyval == KEY_UP
                    || keyval == KEY_DOWN {
                    // claimed so that the application never sees it, but
                    // without effect on the composition
                    claimed = true;
                }
            },
        }
        proof {
            assert(self@ =~= state_after_key(old(self)@, keyval, state));
        }
        self.publish();
        claimed
    }

    /// Applies a feedback code from the backend.
    ///
    /// Codes 2 and 3 perform a full reset and queue a snapshot of the (now
    /// empty) buffer; the other codes only flip flags.
    pub fn apply_feedback(&mut self, f: i32)
        requires
            km_wf(old(self)@),
        ensures
            km_wf(final(self)@),
            final(self)@ == state_after_feedback(old(self)@, f),
            f == 2 || f == 3 ==> snapshot_appended(
                old(self).spec_out(),
                final(self).spec_out(),
                Seq::<char>::empty(),
            ),
            f != 2 && f != 3 ==> final(self).spec_out() == old(self).spec_out(),
    {
        if f == 0 {
            self.ef = false;
        } else if f == 1 {
            self.ef = true;
            self.capture_disabled = false;
        } else if f == 2 {
            self.clear_state();
            self.publish();
        } else if f == 3 {
            self.clear_state();
            self.publish();
            self.capture_disabled = true;
        } else if f == 4 {
            self.backspace_disabled = true;
        } else if f == 5 {
            self.backspace_disabled = false;
        }
        // any other code is ignored
        proof {
            assert(self@ =~= state_after_feedback(old(self)@, f));
        }
    }

    /// Gaining focus has no effect.
    pub fn focus_in(&mut self)
        ensures
            *final(self) == *old(self),
    {
    }

    /// Losing focus performs a full reset and queues a snapshot.
    pub fn focus_out(&mut self)
        ensures
            final(self)@ == cleared(old(self)@),
            km_wf(final(self)@),
            snapshot_appended(old(self).spec_out(), final(self).spec_out(), Seq::<char>::empty()),
    {
        self.clear_state();
        self.publish();
    }

    /// A reset request performs a full reset and queues a snapshot.
    pub fn reset(&mut self)
        ensures
            final(self)@ == cleared(old(self)@),
            km_wf(final(self)@),
            snapshot_appended(old(self).spec_out(), final(self).spec_out(), Seq::<char>::empty()),
    {
        self.clear_state();
        self.publish();
    }

    /// Enabling the engine has no effect.
    pub fn enable(&mut self)
        ensures
            *final(self) == *old(self),
    {
    }

    /// Disabling the engine performs a full reset and queues a snapshot.
    pub fn disable(&mut self)
        ensures
            final(self)@ == cleared(old(self)@),
            km_wf(final(self)@),
            snapshot_appended(old(self).spec_out(), final(self).spec_out(), Seq::<char>::empty()),
    {
        self.clear_state();
        self.publish();
    }

    /// The current mode.
    pub fn mode(&self) -> (r: InputMode)
        ensures
            r == self@.mode,
    {
        self.mode
    }

    /// The current composition buffer.
    pub fn text(&self) -> (r: &String)
        ensures
            r@ == self@.buf,
    {
        &self.t
    }

    /// Whether backend feedback is enabled.
    pub fn feedback_enabled(&self) -> (r: bool)
        ensures
            r == self@.ef,
    {
        self.ef
    }

    /// Whether key capture is disabled.
    pub fn capture_disabled(&self) -> (r: bool)
        ensures
            r == self@.capture_disabled,
    {
        self.capture_disabled
    }

    /// Whether backspace is disabled.
    pub fn backspace_disabled(&self) -> (r: bool)
        ensures
            r == self@.backspace_disabled,
    {
        self.backspace_disabled
    }

    /// Hands the queued snapshot messages to the caller, in the order they
    /// were published, and empties the queue.
    pub fn take_output(&mut self) -> (r: Vec<MsT>)
        ensures
            r@ == old(self).spec_out(),
            final(self).spec_out() == Seq::<MsT>::empty(),
            final(self)@ == old(self)@,
    {
        let mut v: Vec<MsT> = Vec::new();
        core::mem::swap(&mut v, &mut self.out);
        v
    }
}

/// Law: applying feedback code 0 (disable feedback) twice in a row leaves
/// the machine in the same state as applying it once; neither application
/// queues a message, so the two runs are fully equivalent.
pub proof fn lemma_feedback_disable_idempotent(st: KmSt)
    ensures
        state_after_feedback(state_after_feedback(st, 0), 0) == state_after_feedback(st, 0),
{
    assert(state_after_feedback(state_after_feedback(st, 0), 0) =~= state_after_feedback(st, 0));
}

} // verus!
