//! Key events and the single-slot read-ahead protocol of the input capture
//! component.
//!
//! Acquiring a key blocks at the terminal layer, so the capture request runs
//! on a separate task owned by the surrounding program. The decision logic of
//! the protocol lives here: while the reader is live, a completed capture
//! yields its key and a fresh request is owed; a failed or cancelled capture
//! kills the reader for good, and a dead reader yields nothing ever after.

use vstd::prelude::*;

verus! {

/// A key event recognised by the engine. Every other key maps to `Other`.
#[derive(Clone, Copy, Debug, PartialEq, Eq)]
pub enum Key {
    Up,
    Down,
    Left,
    Right,
    Quit,
    Other,
}

/// The key a printable character stands for: `w`, `a`, `s` and `d` alias
/// the four directions; every other character is ignored.
pub open spec fn char_key(c: char) -> Key {
    if c == 'w' {
        Key::Up
    } else if c == 'a' {
        Key::Left
    } else if c == 's' {
        Key::Down
    } else if c == 'd' {
        Key::Right
    } else {
        Key::Other
    }
}

/// Maps a printable character to the key event it aliases.
pub fn key_of_char(c: char) -> (k: Key)
    ensures
        k == char_key(c),
{
    match c {
        'w' => Key::Up,
        'a' => Key::Left,
        's' => Key::Down,
        'd' => Key::Right,
        _ => Key::Other,
    }
}

/// The state of the input capture protocol: live while an outstanding
/// capture request exists, dead once one has failed.
pub struct KeyReader {
    live: bool,
}

impl KeyReader {
    /// Whether an outstanding capture request exists.
    pub closed spec fn is_live(self) -> bool {
        self.live
    }

    /// A fresh reader; the surrounding program issues the first capture
    /// request as soon as the reader is created.
    pub fn new() -> (r: KeyReader)
        ensures
            r.is_live(),
    {
        KeyReader { live: true }
    }

    /// Consumes the outcome of the outstanding capture request: `captured`
    /// is `Some(key)` when the request completed, `None` when it failed or
    /// was cancelled. A live reader hands the captured key through and stays
    /// live exactly when a key arrived, so that the caller issues the next
    /// request; after a failure, and on a dead reader, every call yields
    /// nothing.
    pub fn read_key(&mut self, captured: Option<Key>) -> (r: Option<Key>)
        ensures
            old(self).is_live() ==> r == captured,
            !old(self).is_live() ==> r is None,
            final(self).is_live() <==> (old(self).is_live() && captured is Some),
    {
        if self.live {
            match captured {
                Some(key) => Some(key),
                None => {
                    self.live = false;
                    None
                },
            }
        } else {
            None
        }
    }
}

} // verus!
