//! A window of fixed width that slides over a row of columns.
//!
//! The window is described by its first visible column (`offset`), the number
//! of columns it shows (`width`) and the number of columns there are
//! (`total`). Sliding saturates at both ends: the window never moves past the
//! last column and never before the first.

use vstd::prelude::*;

verus! {

/// The largest offset at which a window of `width` columns still lies within
/// `total` columns; zero when the window is at least as wide as the row.
pub open spec fn last_offset(width: nat, total: nat) -> nat {
    if total >= width {
        (total - width) as nat
    } else {
        0
    }
}

/// The offset after sliding one column to the right.
pub open spec fn slid_right(offset: nat, width: nat, total: nat) -> nat {
    if offset + 1 <= last_offset(width, total) {
        offset + 1
    } else {
        last_offset(width, total)
    }
}

/// The offset after sliding one column to the left.
pub open spec fn slid_left(offset: nat) -> nat {
    if offset > 0 {
        (offset - 1) as nat
    } else {
        0
    }
}

/// The offset after `steps` slides to the right.
pub open spec fn slid_right_by(offset: nat, width: nat, total: nat, steps: nat) -> nat
    decreases steps,
{
    if steps == 0 {
        offset
    } else {
        slid_right(slid_right_by(offset, width, total, (steps - 1) as nat), width, total)
    }
}

/// The offset after `steps` slides to the left.
pub open spec fn slid_left_by(offset: nat, steps: nat) -> nat
    decreases steps,
{
    if steps == 0 {
        offset
    } else {
        slid_left(slid_left_by(offset, (steps - 1) as nat))
    }
}

/// Slides the window one column to the right, stopping at the last offset.
pub fn slide_right(offset: usize, width: usize, total: usize) -> (next: usize)
    ensures
        next == slid_right(offset as nat, width as nat, total as nat),
{
    let last: usize = if total >= width {
        total - width
    } else {
        0
    };
    if offset < last {
        offset + 1
    } else {
        last
    }
}

/// Slides the window one column to the left, stopping at zero.
pub fn slide_left(offset: usize) -> (next: usize)
    ensures
        next == slid_left(offset as nat),
{
    if offset > 0 {
        offset - 1
    } else {
        0
    }
}

/// However often a window slides to the right, its offset is at most the last
/// offset at which it still lies within the row, provided it started there or
/// had slid at least once.
pub proof fn lemma_slide_right_bounded(offset: nat, width: nat, total: nat, steps: nat)
    requires
        offset <= last_offset(width, total) || steps > 0,
    ensures
        slid_right_by(offset, width, total, steps) <= last_offset(width, total),
    decreases steps,
{
    if steps > 1 {
        lemma_slide_right_bounded(offset, width, total, (steps - 1) as nat);
    }
}

/// Sliding to the left never raises the offset, so a window within bounds
/// stays within bounds; the offset, a natural number, never falls below zero.
pub proof fn lemma_slide_left_bounded(offset: nat, steps: nat)
    ensures
        slid_left_by(offset, steps) <= offset,
        steps >= offset ==> slid_left_by(offset, steps) == 0,
        steps <= offset ==> slid_left_by(offset, steps) == offset - steps,
    decreases steps,
{
    if steps > 0 {
        lemma_slide_left_bounded(offset, (steps - 1) as nat);
    }
}

} // verus!
