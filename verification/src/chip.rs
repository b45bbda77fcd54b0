//! A single-choice cursor over one row of options.

use vstd::prelude::*;
use crate::keys::Key;
use crate::cursor::{index_in_range, jump_first, jump_last, step_back, step_forward};

verus! {

/// Selection state of a one-row selector: the options in order and the index
/// of the chosen one, if any.
pub struct ChipState<T> {
    index: Option<usize>,
    options: Vec<T>,
}

/// Where a chip row stands after `key`.
pub open spec fn chip_after(index: Option<usize>, len: nat, key: Key) -> Option<usize> {
    match key {
        Key::Left => step_back(index, len),
        Key::Right => step_forward(index, len),
        Key::Home => jump_first(len),
        Key::End => jump_last(len),
        _ => index,
    }
}

/// Whether a chip row consumes `key`.
pub open spec fn is_chip_key(key: Key) -> bool {
    key == Key::Left || key == Key::Right || key == Key::Home || key == Key::End
}

/// Where a chip row stands after the keys of `keys`, first to last.
pub open spec fn chip_after_all(index: Option<usize>, len: nat, keys: Seq<Key>) -> Option<usize>
    decreases keys.len(),
{
    if keys.len() == 0 {
        index
    } else {
        chip_after_all(chip_after(index, len, keys[0]), len, keys.subrange(1, keys.len() as int))
    }
}

/// Whatever keys are pressed, and in whatever order, the selected chip stays
/// among the options.
pub proof fn lemma_chip_keys_stay_in_range(index: Option<usize>, len: nat, keys: Seq<Key>)
    requires
        index_in_range(index, len),
        len <= usize::MAX,
    ensures
        index_in_range(chip_after_all(index, len, keys), len),
    decreases keys.len(),
{
    if keys.len() > 0 {
        lemma_chip_keys_stay_in_range(
            chip_after(index, len, keys[0]),
            len,
            keys.subrange(1, keys.len() as int),
        );
    }
}

impl<T: Clone> ChipState<T> {
    /// The selected index.
    pub closed spec fn index(&self) -> Option<usize> {
        self.index
    }

    /// The options, in display order.
    pub closed spec fn options(&self) -> Seq<T> {
        self.options@
    }

    /// A selected index names an existing option.
    pub open spec fn wf(&self) -> bool {
        index_in_range(self.index(), self.options().len())
    }

    /// A row of `options` with the chip at `index` selected, if any.
    pub fn new(index: Option<usize>, options: Vec<T>) -> (state: Self)
        requires
            index_in_range(index, options@.len()),
        ensures
            state.wf(),
            state.index() == index,
            state.options() == options@,
    {
        Self { index, options }
    }

    /// Left and Right step, Home and End jump; any other key is left to the
    /// caller.
    pub fn on_key_press(&mut self, key: Key) -> (handled: bool)
        requires
            old(self).wf(),
        ensures
            final(self).wf(),
            final(self).options() == old(self).options(),
            handled == is_chip_key(key),
            final(self).index() == chip_after(old(self).index(), old(self).options().len(), key),
    {
        match key {
            Key::Left => self.prev(),
            Key::Right => self.next(),
            Key::Home => {
                if self.options.len() > 0 {
                    self.index = Some(0);
                } else {
                    self.index = None;
                }
            },
            Key::End => {
                if self.options.len() > 0 {
                    self.index = Some(self.options.len() - 1);
                } else {
                    self.index = None;
                }
            },
            _ => {
                return false;
            },
        }
        true
    }

    /// One step to the right: the last chip holds, and an unselected row
    /// selects its first chip.
    pub fn next(&mut self)
        requires
            old(self).wf(),
        ensures
            final(self).wf(),
            final(self).options() == old(self).options(),
            final(self).index() == step_forward(old(self).index(), old(self).options().len()),
    {
        match self.index {
            Some(index) => {
                let len: usize = self.options.len();
                if index + 1 < len {
                    self.index = Some(index + 1);
                }
            },
            None => {
                if self.options.len() > 0 {
                    self.index = Some(0);
                }
            },
        }
    }

    /// One step to the left: the first chip holds, and an unselected row
    /// selects its first chip.
    pub fn prev(&mut self)
        requires
            old(self).wf(),
        ensures
            final(self).wf(),
            final(self).options() == old(self).options(),
            final(self).index() == step_back(old(self).index(), old(self).options().len()),
    {
        match self.index {
            Some(index) => {
                if index != 0 {
                    self.index = Some(index - 1);
                }
            },
            None => {
                if self.options.len() > 0 {
                    self.index = Some(0);
                }
            },
        }
    }

    /// A copy of the selected option.
    pub fn get(&self) -> (chosen: Option<T>)
        requires
            self.wf(),
        ensures
            match chosen {
                Some(value) => self.index().is_some() && cloned(
                    self.options()[self.index().unwrap() as int],
                    value,
                ),
                None => self.index().is_none(),
            },
    {
        match self.index {
            Some(index) => Some(self.options[index].clone()),
            None => None,
        }
    }

    /// Selects the chip at `index`, or none.
    pub fn set(&mut self, index: Option<usize>)
        requires
            index_in_range(index, old(self).options().len()),
        ensures
            final(self).wf(),
            final(self).options() == old(self).options(),
            final(self).index() == index,
    {
        self.index = index;
    }

    /// The selected index, for drawing.
    pub fn selected(&self) -> (index: Option<usize>)
        ensures
            index == self.index(),
    {
        self.index
    }

    /// The options, for drawing.
    pub fn items(&self) -> (options: &Vec<T>)
        ensures
            options@ == self.options(),
    {
        &self.options
    }
}

} // verus!
