//! An append-only text buffer with a cosmetic blink phase.

use vstd::prelude::*;
use vstd::string::*;
use crate::keys::Key;

verus! {

/// Ticks in one blink cycle.
pub const BLINK_PERIOD: u64 = 10;

/// Ticks of a cycle, counted from its start, during which the caret shows.
pub const BLINK_VISIBLE: u64 = 5;

/// Whether the caret shows at tick `tick`.
pub open spec fn blink_phase(tick: u64) -> bool {
    tick % BLINK_PERIOD < BLINK_VISIBLE
}

/// What a key does to the text: a character is appended, Backspace and Delete
/// remove the last character, and every other key leaves the text as it is.
pub open spec fn text_after_key(text: Seq<char>, key: Key) -> Seq<char> {
    match key {
        Key::Char(c) => text.push(c),
        Key::Backspace | Key::Delete => if text.len() > 0 { text.drop_last() } else { text },
        _ => text,
    }
}

/// Whether a text buffer consumes `key`.
pub open spec fn is_text_key(key: Key) -> bool {
    key is Char || key == Key::Backspace || key == Key::Delete
}

/// The text of one input field. Edits act at the end of the text only.
pub struct TextState {
    text: String,
    blink: bool,
}

impl TextState {
    /// The text held.
    pub closed spec fn text(&self) -> Seq<char> {
        self.text@
    }

    /// Whether the caret is in the visible half of its cycle.
    pub closed spec fn blink(&self) -> bool {
        self.blink
    }

    /// A buffer that holds `default`, its caret hidden.
    pub fn new(default: &str) -> (state: Self)
        ensures
            state.text() == default@,
            !state.blink(),
    {
        Self { text: String::from_str(default), blink: false }
    }

    /// A character is appended; Backspace and Delete remove the last
    /// character, if there is one. Any other key is left to the caller.
    pub fn on_key_press(&mut self, key: Key) -> (handled: bool)
        ensures
            handled == is_text_key(key),
            final(self).text() == text_after_key(old(self).text(), key),
            final(self).blink() == old(self).blink(),
    {
        match key {
            Key::Backspace | Key::Delete => {
                let _ = self.text.pop();
            },
            Key::Char(c) => {
                self.text.push(c);
            },
            _ => {
                return false;
            },
        }
        true
    }

    /// Recomputes the blink phase; the text is not touched.
    pub fn on_tick(&mut self, tick_count: &u64)
        ensures
            final(self).blink() == blink_phase(*tick_count),
            final(self).text() == old(self).text(),
    {
        self.blink = *tick_count % BLINK_PERIOD < BLINK_VISIBLE;
    }

    /// A copy of the text.
    pub fn get(&self) -> (text: String)
        ensures
            text@ == self.text(),
    {
        self.text.clone()
    }

    /// Replaces the text.
    pub fn set(&mut self, text: String)
        ensures
            final(self).text() == text@,
            final(self).blink() == old(self).blink(),
    {
        self.text = text;
    }

    /// The blink phase, for drawing.
    pub fn is_blinking(&self) -> (on: bool)
        ensures
            on == self.blink(),
    {
        self.blink
    }

    /// Whether the text is empty.
    pub fn is_empty(&self) -> (empty: bool)
        ensures
            empty == (self.text().len() == 0),
    {
        self.text.as_str().unicode_len() == 0
    }
}

} // verus!
