//! The keyboard as a keypad.
//!
//! The sixteen keys of the keypad are laid on the left of a QWERTY
//! keyboard:
//!
//! ```text
//! keyboard    keypad
//! 1 2 3 4     1 2 3 C
//! q w e r     4 5 6 D
//! a s d f     7 8 9 E
//! z x c v     A 0 B F
//! ```
//!
//! The host turns what its input device reports into [`InputEvent`]s, and
//! [`process_input`] applies them to the keypad. [`lowest_key`] is how the
//! machine reads the keypad when it waits for a key.

use vstd::prelude::*;

verus! {

/// The character of the escape key, which ends the session.
pub const ESCAPE: char = '\u{1b}';

/// What the host's input device reports. A key is named by the character
/// that it types, unshifted.
#[derive(Clone, Copy, Debug, PartialEq, Eq, Structural)]
pub enum InputEvent {
    /// The user asked to end the session.
    Quit,
    /// A key went down.
    KeyDown(char),
    /// A key went up.
    KeyUp(char),
}

/// Whether some key of the keypad is held.
pub open spec fn any_held(keys: Seq<bool>) -> bool {
    exists|k: int| 0 <= k < 16 && keys[k]
}

/// Whether `k` is the lowest-numbered key that is held.
pub open spec fn is_lowest_held(keys: Seq<bool>, k: int) -> bool {
    &&& 0 <= k < 16
    &&& keys[k]
    &&& forall|j: int| 0 <= j < k ==> !keys[j]
}

/// The lowest-numbered key that is held, if any is.
pub open spec fn lowest_held(keys: Seq<bool>) -> int {
    choose|k: int| is_lowest_held(keys, k)
}

/// The key of the keypad that a key of the keyboard stands for, if any.
pub open spec fn layout(key: char) -> Option<u8> {
    if key == 'x' {
        Some(0x0u8)
    } else if key == '1' {
        Some(0x1u8)
    } else if key == '2' {
        Some(0x2u8)
    } else if key == '3' {
        Some(0x3u8)
    } else if key == 'q' {
        Some(0x4u8)
    } else if key == 'w' {
        Some(0x5u8)
    } else if key == 'e' {
        Some(0x6u8)
    } else if key == 'a' {
        Some(0x7u8)
    } else if key == 's' {
        Some(0x8u8)
    } else if key == 'd' {
        Some(0x9u8)
    } else if key == 'z' {
        Some(0xAu8)
    } else if key == 'c' {
        Some(0xBu8)
    } else if key == '4' {
        Some(0xCu8)
    } else if key == 'r' {
        Some(0xDu8)
    } else if key == 'f' {
        Some(0xEu8)
    } else if key == 'v' {
        Some(0xFu8)
    } else {
        None
    }
}

/// Whether an event ends the session: a request to quit, or the escape key
/// going down.
pub open spec fn quits(event: InputEvent) -> bool {
    event == InputEvent::Quit || event == InputEvent::KeyDown(ESCAPE)
}

/// The keypad after an event: a key of the layout that goes down is held, one
/// that goes up is not, and nothing else changes.
pub open spec fn keys_after(keys: Seq<bool>, event: InputEvent) -> Seq<bool> {
    match event {
        InputEvent::Quit => keys,
        InputEvent::KeyDown(key) => match layout(key) {
            Some(k) => keys.update(k as int, true),
            None => keys,
        },
        InputEvent::KeyUp(key) => match layout(key) {
            Some(k) => keys.update(k as int, false),
            None => keys,
        },
    }
}

/// The keypad after a run of events, applied in order.
pub open spec fn keys_after_all(keys: Seq<bool>, events: Seq<InputEvent>) -> Seq<bool>
    decreases events.len(),
{
    if events.len() == 0 {
        keys
    } else {
        keys_after(keys_after_all(keys, events.drop_last()), events.last())
    }
}

/// The key of the keypad that a key of the keyboard stands for, if any.
pub fn keypad_index(key: char) -> (index: Option<u8>)
    ensures
        index == layout(key),
        index matches Some(k) ==> k < 16,
{
    match key {
        'x' => Some(0x0),
        '1' => Some(0x1),
        '2' => Some(0x2),
        '3' => Some(0x3),
        'q' => Some(0x4),
        'w' => Some(0x5),
        'e' => Some(0x6),
        'a' => Some(0x7),
        's' => Some(0x8),
        'd' => Some(0x9),
        'z' => Some(0xA),
        'c' => Some(0xB),
        '4' => Some(0xC),
        'r' => Some(0xD),
        'f' => Some(0xE),
        'v' => Some(0xF),
        _ => None,
    }
}

/// The lowest-numbered key that is held, if any is.
pub fn lowest_key(keypad: &[bool; 16]) -> (key: Option<u8>)
    ensures
        match key {
            Some(k) => is_lowest_held(keypad@, k as int),
            None => !any_held(keypad@),
        },
{
    let mut k: u8 = 0;
    while k < 16 && !keypad[k as usize]
        invariant
            k <= 16,
            forall|j: int| 0 <= j < k ==> !keypad@[j],
        decreases 16 - k,
    {
        k += 1;
    }
    if k < 16 {
        Some(k)
    } else {
        None
    }
}

/// Applies one event to the keypad, and tells whether it ends the session.
pub fn apply_input(keys: &mut [bool; 16], event: InputEvent) -> (quit: bool)
    ensures
        quit == quits(event),
        final(keys)@ == keys_after(old(keys)@, event),
{
    match event {
        InputEvent::Quit => true,
        InputEvent::KeyDown(key) => {
            if key == ESCAPE {
                true
            } else {
                match keypad_index(key) {
                    Some(k) => {
                        keys[k as usize] = true;
                    },
                    None => {},
                }
                false
            }
        },
        InputEvent::KeyUp(key) => {
            match keypad_index(key) {
                Some(k) => {
                    keys[k as usize] = false;
                },
                None => {},
            }
            false
        },
    }
}

/// Applies the pending events to the keypad, in order, and tells whether
/// one of them ends the session.
pub fn process_input(keys: &mut [bool; 16], events: &[InputEvent]) -> (quit: bool)
    ensures
        quit <==> exists|i: int| 0 <= i < events@.len() && quits(#[trigger] events@[i]),
        final(keys)@ == keys_after_all(old(keys)@, events@),
{
    let mut quit = false;
    let mut i: usize = 0;
    while i < events.len()
        invariant
            i <= events@.len(),
            quit <==> exists|j: int| 0 <= j < i && quits(#[trigger] events@[j]),
            keys@ == keys_after_all(old(keys)@, events@.take(i as int)),
        decreases events@.len() - i,
    {
        assert(events@.take(i + 1).drop_last() == events@.take(i as int));
        if apply_input(keys, events[i]) {
            quit = true;
        }
        i += 1;
    }
    assert(events@.take(i as int) == events@);
    quit
}

} // verus!
