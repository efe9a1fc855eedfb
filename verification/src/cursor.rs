//! The selection cursor: an optional index into the displayed record
//! sequence. Moves wrap around the ends of the list, and an explicit
//! adjustment keeps the cursor valid after the selected record is removed,
//! so that no operation here ever underflows.

use vstd::prelude::*;

verus! {

/// Index that follows `i` when moving down a list of length `n`: wraps from
/// the last position back to the first.
pub open spec fn next_down(i: int, n: int) -> int {
    if i >= n - 1 {
        0
    } else {
        i + 1
    }
}

/// Index that follows `i` when moving up a list of length `n`: wraps from
/// the first position back to the last.
pub open spec fn next_up(i: int, n: int) -> int {
    if i > 0 {
        i - 1
    } else {
        n - 1
    }
}

/// Position reached from `i` after `k` repeated downward moves in a list of
/// length `n`.
pub open spec fn iterate_down(i: int, n: int, k: nat) -> int
    decreases k,
{
    if k == 0 {
        i
    } else {
        next_down(iterate_down(i, n, (k - 1) as nat), n)
    }
}

/// Tracks which record of the visible list is selected, if any.
pub struct Cursor {
    selected: Option<usize>,
}

impl View for Cursor {
    type V = Option<usize>;

    closed spec fn view(&self) -> Option<usize> {
        self.selected
    }
}

impl Cursor {
    /// A cursor is consistent with a list of length `n` when it is cleared
    /// or points inside `[0, n)`.
    pub open spec fn in_bounds(&self, n: int) -> bool {
        match self@ {
            Some(i) => i < n,
            None => true,
        }
    }

    /// A fresh cursor with nothing selected.
    pub fn new() -> (c: Cursor)
        ensures
            c@ is None,
    {
        Cursor { selected: None }
    }

    /// The selected index, if any.
    pub fn selected(&self) -> (r: Option<usize>)
        ensures
            r == self@,
    {
        self.selected
    }

    /// Force the selection, as the startup sequence does. Note that this
    /// yields `Some(0)` whatever the list length, so on an empty list the
    /// cursor is out of bounds by construction.
    pub fn select_first(&mut self)
        ensures
            final(self)@ == Some(0usize),
    {
        self.selected = Some(0);
    }

    /// Set the selection outright.
    pub fn select(&mut self, sel: Option<usize>)
        ensures
            final(self)@ == sel,
    {
        self.selected = sel;
    }

    /// Move the selection one position down a list of length `n`, wrapping
    /// to the top. An empty list or a cleared cursor leaves the selection
    /// unchanged.
    pub fn move_down(&mut self, n: usize)
        ensures
            n == 0 ==> final(self)@ == old(self)@,
            old(self)@ is None ==> final(self)@ == old(self)@,
            old(self)@ matches Some(i) ==> (n > 0 ==> final(self)@ == Some(
                next_down(i as int, n as int) as usize,
            )),
            old(self).in_bounds(n as int) && n > 0 ==> final(self).in_bounds(n as int),
    {
        if n == 0 {
            return;
        }
        if let Some(i) = self.selected {
            if i >= n - 1 {
                self.selected = Some(0);
            } else {
                self.selected = Some(i + 1);
            }
        }
    }

    /// Move the selection one position up a list of length `n`, wrapping to
    /// the bottom. An empty list or a cleared cursor leaves the selection
    /// unchanged.
    pub fn move_up(&mut self, n: usize)
        ensures
            n == 0 ==> final(self)@ == old(self)@,
            old(self)@ is None ==> final(self)@ == old(self)@,
            old(self)@ matches Some(i) ==> (n > 0 ==> final(self)@ == Some(
                next_up(i as int, n as int) as usize,
            )),
            old(self).in_bounds(n as int) && n > 0 ==> final(self).in_bounds(n as int),
    {
        if n == 0 {
            return;
        }
        if let Some(i) = self.selected {
            if i > 0 {
                self.selected = Some(i - 1);
            } else {
                self.selected = Some(n - 1);
            }
        }
    }

    /// Re-aim the cursor after the selected record was removed, where
    /// `new_len` is the length of the list after the removal: step back one
    /// position when possible, otherwise clamp to the top, or clear the
    /// selection when the list became empty.
    pub fn remove_selected_adjust(&mut self, new_len: usize)
        ensures
            old(self)@ is None ==> final(self)@ == old(self)@,
            old(self)@ matches Some(i) ==> (i > 0 ==> final(self)@ == Some((i - 1) as usize)),
            old(self)@ == Some(0usize) && new_len == 0 ==> final(self)@ is None,
            old(self)@ == Some(0usize) && new_len > 0 ==> final(self)@ == Some(0usize),
            old(self).in_bounds(new_len + 1) ==> final(self).in_bounds(new_len as int),
    {
        if let Some(i) = self.selected {
            if i > 0 {
                self.selected = Some(i - 1);
            } else if new_len == 0 {
                self.selected = None;
            } else {
                self.selected = Some(0);
            }
        }
    }
}

/// Neither move ever leaves `[0, n)` when it starts there: the wrapping
/// arithmetic keeps a valid cursor valid on a non-empty list.
pub proof fn lemma_moves_stay_in_bounds(i: int, n: int)
    requires
        1 <= n,
        0 <= i < n,
    ensures
        0 <= next_down(i, n) < n,
        0 <= next_up(i, n) < n,
{
}

/// Closed form of repeated downward movement: after `k <= n` steps from `i`
/// the cursor sits at `i + k`, reduced by `n` once it passes the end.
proof fn lemma_iterate_down_closed_form(i: int, n: int, k: nat)
    requires
        1 <= n,
        0 <= i < n,
        k <= n,
    ensures
        iterate_down(i, n, k) == if i + k < n {
            i + k
        } else {
            i + k - n
        },
    decreases k,
{
    if k > 0 {
        lemma_iterate_down_closed_form(i, n, (k - 1) as nat);
    }
}

/// Repeated downward moves over a non-empty list stay inside `[0, n)`,
/// visit every index exactly once in the first `n` steps, and return to the
/// starting index after exactly `n` steps.
pub proof fn lemma_move_down_cycles(i: int, n: int)
    requires
        1 <= n,
        0 <= i < n,
    ensures
        forall|k: nat| k <= n ==> 0 <= #[trigger] iterate_down(i, n, k) < n,
        forall|k1: nat, k2: nat|
            k1 < k2 < n ==> #[trigger] iterate_down(i, n, k1) != #[trigger] iterate_down(i, n, k2),
        iterate_down(i, n, n as nat) == i,
{
    assert forall|k: nat| k <= n implies 0 <= #[trigger] iterate_down(i, n, k) < n by {
        lemma_iterate_down_closed_form(i, n, k);
    }
    assert forall|k1: nat, k2: nat| k1 < k2 < n implies #[trigger] iterate_down(i, n, k1)
        != #[trigger] iterate_down(i, n, k2) by {
        lemma_iterate_down_closed_form(i, n, k1);
        lemma_iterate_down_closed_form(i, n, k2);
    }
    lemma_iterate_down_closed_form(i, n, n as nat);
}

/// Repeated downward moves cover the whole list: every index `j` of a
/// non-empty list is reached from any valid start within the first `n`
/// steps.
pub proof fn lemma_move_down_covers(i: int, n: int, j: int)
    requires
        1 <= n,
        0 <= i < n,
        0 <= j < n,
    ensures
        exists|k: nat| k < n && #[trigger] iterate_down(i, n, k) == j,
{
    let k: nat = if j >= i {
        (j - i) as nat
    } else {
        (j - i + n) as nat
    };
    lemma_iterate_down_closed_form(i, n, k);
    assert(k < n && iterate_down(i, n, k) == j);
}

/// Moving up is the exact inverse of moving down for the same list length:
/// either order of the two moves returns a valid cursor to where it began.
pub proof fn lemma_up_inverts_down(i: int, n: int)
    requires
        1 <= n,
        0 <= i < n,
    ensures
        next_up(next_down(i, n), n) == i,
        next_down(next_up(i, n), n) == i,
{
}

} // verus!
