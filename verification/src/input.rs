//! Keyboard input as the game sees it, and the rule that tells a paste from
//! typing when several events arrive together.

use vstd::prelude::*;

verus! {

/// Which key was pressed.
#[derive(Clone, Copy, PartialEq, Eq, Structural, Debug)]
pub enum Key {
    Char(char),
    Enter,
    Esc,
    Tab,
    Backspace,
    Left,
    Right,
    Up,
    Down,
    PageUp,
    PageDown,
    Home,
    End,
    /// Any key the game has no use for.
    Other,
}

/// A key together with whether Ctrl was held.
#[derive(Clone, Copy, PartialEq, Eq, Structural, Debug)]
pub struct KeyPress {
    pub code: Key,
    pub ctrl: bool,
}

impl KeyPress {
    /// The key with no modifier held.
    pub fn plain(code: Key) -> (k: KeyPress)
        ensures
            k.code == code,
            !k.ctrl,
    {
        KeyPress { code, ctrl: false }
    }

    /// The key with Ctrl held.
    pub fn with_ctrl(code: Key) -> (k: KeyPress)
        ensures
            k.code == code,
            k.ctrl,
    {
        KeyPress { code, ctrl: true }
    }
}

/// Whether a key event reports the key going down, repeating, or coming up.
#[derive(Clone, Copy, PartialEq, Eq, Structural, Debug)]
pub enum KeyKind {
    Press,
    Repeat,
    Release,
}

/// One input event: a key event, or anything else (mouse, resize, paste).
#[derive(Clone, Copy, PartialEq, Eq, Structural, Debug)]
pub enum InputEvent {
    Key(KeyPress, KeyKind),
    Other,
}

/// Input poll interval in milliseconds; also the window a burst is measured over.
pub const POLL_MS: u64 = 50;

/// Most events read in one go, so a huge paste cannot stall drawing.
pub const MAX_BATCH: usize = 256;

/// Character presses arriving together that mark a batch as a paste: six in
/// one poll window is far beyond anyone's typing speed.
pub const PASTE_BURST_CHARS: usize = 6;

/// Whether `e` is the press of a character key.
pub open spec fn is_char_press(e: InputEvent) -> bool {
    match e {
        InputEvent::Key(k, KeyKind::Press) => k.code is Char,
        _ => false,
    }
}

/// Number of character presses in `s`.
pub open spec fn char_presses(s: Seq<InputEvent>) -> nat
    decreases s.len(),
{
    if s.len() == 0 {
        0
    } else {
        char_presses(s.drop_last()) + if is_char_press(s.last()) {
            1nat
        } else {
            0nat
        }
    }
}

/// `s` with its character presses taken out, order kept.
pub open spec fn without_char_presses(s: Seq<InputEvent>) -> Seq<InputEvent>
    decreases s.len(),
{
    if s.len() == 0 {
        s
    } else if is_char_press(s.last()) {
        without_char_presses(s.drop_last())
    } else {
        without_char_presses(s.drop_last()).push(s.last())
    }
}

fn char_press(e: &InputEvent) -> (b: bool)
    ensures
        b == is_char_press(*e),
{
    match e {
        InputEvent::Key(k, KeyKind::Press) => match k.code {
            Key::Char(_) => true,
            _ => false,
        },
        _ => false,
    }
}

/// Whether a batch of events that arrived together looks like a paste: at
/// least [`PASTE_BURST_CHARS`] character presses.
pub fn is_paste_burst(batch: &Vec<InputEvent>) -> (b: bool)
    ensures
        b == (char_presses(batch@) >= PASTE_BURST_CHARS),
{
    let n = batch.len();
    let mut count: usize = 0;
    for i in 0..n
        invariant
            n == batch@.len(),
            count == char_presses(batch@.take(i as int)),
            count <= i,
    {
        assert(batch@.take(i + 1).drop_last() =~= batch@.take(i as int));
        if char_press(&batch[i]) {
            count = count + 1;
        }
    }
    assert(batch@.take(n as int) =~= batch@);
    count >= PASTE_BURST_CHARS
}

/// The events to deliver from a batch: all of them, unless the batch is a
/// paste, in which case only its character presses are dropped, so a real
/// Esc or Ctrl+C that arrived alongside still gets through.
pub fn paste_filtered(batch: Vec<InputEvent>) -> (out: Vec<InputEvent>)
    ensures
        out@ == if char_presses(batch@) >= PASTE_BURST_CHARS {
            without_char_presses(batch@)
        } else {
            batch@
        },
{
    if !is_paste_burst(&batch) {
        return batch;
    }
    let n = batch.len();
    let mut out: Vec<InputEvent> = Vec::new();
    for i in 0..n
        invariant
            n == batch@.len(),
            out@ == without_char_presses(batch@.take(i as int)),
    {
        assert(batch@.take(i + 1).drop_last() =~= batch@.take(i as int));
        let e = batch[i];
        if !char_press(&e) {
            out.push(e);
        }
    }
    assert(batch@.take(n as int) =~= batch@);
    out
}

/// What survives the paste filter never holds a character press when the
/// batch was a paste, and always keeps every other event in order.
pub proof fn lemma_without_char_presses(s: Seq<InputEvent>)
    ensures
        char_presses(without_char_presses(s)) == 0,
        without_char_presses(s).len() + char_presses(s) == s.len(),
    decreases s.len(),
{
    if s.len() > 0 {
        lemma_without_char_presses(s.drop_last());
        let w = without_char_presses(s.drop_last());
        if !is_char_press(s.last()) {
            assert(w.push(s.last()).drop_last() =~= w);
        }
    }
}

} // verus!
