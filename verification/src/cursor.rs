//! The arithmetic of a clamping single-selection cursor, shared by every
//! widget that moves a selection over an ordered list.

use vstd::prelude::*;

verus! {

/// One move of a cursor.
#[derive(Clone, Copy, Debug, PartialEq, Eq, Structural)]
pub enum Move {
    /// One step towards the first option.
    Back,
    /// One step towards the last option.
    Forward,
    /// To the first option.
    First,
    /// To the last option.
    Last,
}

/// Whether `index` names one of `len` options or none at all.
pub open spec fn index_in_range(index: Option<usize>, len: nat) -> bool {
    match index {
        Some(i) => i < len,
        None => true,
    }
}

/// Where a cursor at `index` over `len` options stands after one step forward:
/// an unselected cursor takes the first option, the last option holds.
pub open spec fn step_forward(index: Option<usize>, len: nat) -> Option<usize> {
    match index {
        Some(i) => if i + 1 < len { Some((i + 1) as usize) } else { Some(i) },
        None => jump_first(len),
    }
}

/// Where a cursor at `index` over `len` options stands after one step back:
/// an unselected cursor takes the first option, the first option holds.
pub open spec fn step_back(index: Option<usize>, len: nat) -> Option<usize> {
    match index {
        Some(i) => if i > 0 { Some((i - 1) as usize) } else { Some(i) },
        None => jump_first(len),
    }
}

/// The first of `len` options, or nothing where there is none.
pub open spec fn jump_first(len: nat) -> Option<usize> {
    if len > 0 { Some(0usize) } else { None }
}

/// The last of `len` options, or nothing where there is none.
pub open spec fn jump_last(len: nat) -> Option<usize> {
    if len > 0 { Some((len - 1) as usize) } else { None }
}

/// Where a cursor at `index` over `len` options stands after `m`.
pub open spec fn moved(index: Option<usize>, len: nat, m: Move) -> Option<usize> {
    match m {
        Move::Back => step_back(index, len),
        Move::Forward => step_forward(index, len),
        Move::First => jump_first(len),
        Move::Last => jump_last(len),
    }
}

/// Executable form of [`moved`].
pub fn apply_move(index: Option<usize>, len: usize, m: Move) -> (next: Option<usize>)
    requires
        index_in_range(index, len as nat),
    ensures
        next == moved(index, len as nat, m),
        index_in_range(next, len as nat),
{
    match m {
        Move::Back => match index {
            Some(i) => if i > 0 { Some(i - 1) } else { Some(i) },
            None => if len > 0 { Some(0) } else { None },
        },
        Move::Forward => match index {
            Some(i) => if i + 1 < len { Some(i + 1) } else { Some(i) },
            None => if len > 0 { Some(0) } else { None },
        },
        Move::First => if len > 0 { Some(0) } else { None },
        Move::Last => if len > 0 { Some(len - 1) } else { None },
    }
}

/// A single move keeps a valid cursor valid, and never unselects a selected
/// one.
pub proof fn lemma_move_in_range(index: Option<usize>, len: nat, m: Move)
    requires
        index_in_range(index, len),
        len <= usize::MAX,
    ensures
        index_in_range(moved(index, len, m), len),
        index.is_some() ==> moved(index, len, m).is_some(),
        len > 0 ==> moved(index, len, m).is_some(),
{
}

} // verus!
