//! A single-choice cursor over a scrollable list.

use vstd::prelude::*;
use crate::cursor::{apply_move, index_in_range, lemma_move_in_range, moved, Move};
use crate::keys::Key;

verus! {

/// Selection state of a list: the options in order and the index of the
/// chosen one, if any.
pub struct SelectState<T: Clone> {
    index: Option<usize>,
    options: Vec<T>,
}

/// The cursor move that a list binds to `key`, if any.
pub open spec fn list_move(key: Key) -> Option<Move> {
    match key {
        Key::Up => Some(Move::Back),
        Key::Down => Some(Move::Forward),
        Key::PageUp => Some(Move::First),
        Key::PageDown => Some(Move::Last),
        _ => None,
    }
}

/// Executable form of [`list_move`].
pub fn list_move_of(key: Key) -> (m: Option<Move>)
    ensures
        m == list_move(key),
{
    match key {
        Key::Up => Some(Move::Back),
        Key::Down => Some(Move::Forward),
        Key::PageUp => Some(Move::First),
        Key::PageDown => Some(Move::Last),
        _ => None,
    }
}

/// Where the cursor of a list with `len` options stands after `key`.
pub open spec fn after_key(index: Option<usize>, len: nat, key: Key) -> Option<usize> {
    match list_move(key) {
        Some(m) => moved(index, len, m),
        None => index,
    }
}

/// Where the cursor of a list stands after the keys of `keys`, first to last.
pub open spec fn after_keys(index: Option<usize>, len: nat, keys: Seq<Key>) -> Option<usize>
    decreases keys.len(),
{
    if keys.len() == 0 {
        index
    } else {
        after_keys(after_key(index, len, keys[0]), len, keys.subrange(1, keys.len() as int))
    }
}

/// Whatever keys are pressed, and in whatever order, the selected index stays
/// below the number of options, and a selection once made is never lost.
pub proof fn lemma_keys_stay_in_range(index: Option<usize>, len: nat, keys: Seq<Key>)
    requires
        index_in_range(index, len),
        len <= usize::MAX,
    ensures
        index_in_range(after_keys(index, len, keys), len),
        index.is_some() ==> after_keys(index, len, keys).is_some(),
    decreases keys.len(),
{
    if keys.len() > 0 {
        match list_move(keys[0]) {
            Some(m) => {
                lemma_move_in_range(index, len, m);
            },
            None => {},
        }
        lemma_keys_stay_in_range(
            after_key(index, len, keys[0]),
            len,
            keys.subrange(1, keys.len() as int),
        );
    }
}

/// Up on the first option and Down on the last one change nothing.
pub proof fn lemma_ends_hold(len: nat)
    requires
        0 < len <= usize::MAX,
    ensures
        after_key(Some(0usize), len, Key::Up) == Some(0usize),
        after_key(Some((len - 1) as usize), len, Key::Down) == Some((len - 1) as usize),
{
}

impl<T: Clone> SelectState<T> {
    /// The selected index.
    pub closed spec fn index(&self) -> Option<usize> {
        self.index
    }

    /// The options, in display order.
    pub closed spec fn options(&self) -> Seq<T> {
        self.options@
    }

    /// A selected index names an existing option.
    pub open spec fn wf(&self) -> bool {
        index_in_range(self.index(), self.options().len())
    }

    /// A list of `options` with the one at `index` selected, if any.
    pub fn new(index: Option<usize>, options: Vec<T>) -> (state: Self)
        requires
            index_in_range(index, options@.len()),
        ensures
            state.wf(),
            state.index() == index,
            state.options() == options@,
    {
        Self { index, options }
    }

    /// Up and Down step, PageUp and PageDown jump; any other key is left to
    /// the caller.
    pub fn on_key_press(&mut self, key: Key) -> (handled: bool)
        requires
            old(self).wf(),
        ensures
            final(self).wf(),
            final(self).options() == old(self).options(),
            handled == list_move(key).is_some(),
            final(self).index() == after_key(old(self).index(), old(self).options().len(), key),
    {
        match list_move_of(key) {
            Some(m) => {
                self.index = apply_move(self.index, self.options.len(), m);
                true
            },
            None => false,
        }
    }

    /// A copy of the selected option.
    pub fn get(&self) -> (chosen: Option<T>)
        requires
            self.wf(),
        ensures
            match chosen {
                Some(value) => self.index().is_some() && cloned(
                    self.options()[self.index().unwrap() as int],
                    value,
                ),
                None => self.index().is_none(),
            },
    {
        match self.index {
            Some(index) => Some(self.options[index].clone()),
            None => None,
        }
    }

    /// Selects the option at `index`, or none.
    pub fn set(&mut self, index: Option<usize>)
        requires
            index_in_range(index, old(self).options().len()),
        ensures
            final(self).wf(),
            final(self).options() == old(self).options(),
            final(self).index() == index,
    {
        self.index = index;
    }

    /// The selected index, for drawing.
    pub fn selected(&self) -> (index: Option<usize>)
        ensures
            index == self.index(),
    {
        self.index
    }

    /// The options, for drawing.
    pub fn items(&self) -> (options: &Vec<T>)
        ensures
            options@ == self.options(),
    {
        &self.options
    }
}

impl<T: Clone> Default for SelectState<T> {
    fn default() -> (state: Self)
        ensures
            state.wf(),
            state.index().is_none(),
            state.options() == Seq::<T>::empty(),
    {
        Self { index: None, options: Vec::new() }
    }
}

} // verus!
