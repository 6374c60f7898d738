//! Selection bookkeeping shared by every view.
//!
//! Each view keeps a cursor over its list of rows. The cursor obeys one
//! invariant: it is strictly below the list length whenever the list is
//! non-empty, and it is zero when the list is empty. Replacing the list
//! wholesale (a refresh) clamps the cursor; moving it (Up / Down keys)
//! steps it by one without wrapping.

use vstd::prelude::*;

verus! {

/// The cursor value that a refresh leaves behind: the old cursor if it
/// still points into the new list, the last row if the new list is
/// shorter, and zero if the new list is empty.
pub open spec fn clamped_selection(sel: nat, len: nat) -> nat {
    if len == 0 {
        0
    } else if sel < len {
        sel
    } else {
        (len - 1) as nat
    }
}

/// A cursor is well formed for a list length when it is zero on an empty
/// list and in bounds otherwise.
pub open spec fn selection_wf(sel: nat, len: nat) -> bool {
    if len == 0 {
        sel == 0
    } else {
        sel < len
    }
}

/// Clamping establishes the invariant for any old cursor.
pub proof fn lemma_clamp_wf(sel: nat, len: nat)
    ensures
        selection_wf(clamped_selection(sel, len), len),
{
}

/// Clamping a cursor that already satisfies the invariant leaves it
/// unchanged; with the list length fixed, a second refresh therefore
/// moves nothing.
pub proof fn lemma_clamp_idempotent(sel: nat, len: nat)
    ensures
        clamped_selection(clamped_selection(sel, len), len) == clamped_selection(sel, len),
        selection_wf(sel, len) ==> clamped_selection(sel, len) == sel,
{
}

/// Clamp a cursor to a new list length.
pub fn clamp_selection(sel: usize, len: usize) -> (r: usize)
    ensures
        r == clamped_selection(sel as nat, len as nat),
        selection_wf(r as nat, len as nat),
{
    if len == 0 {
        0
    } else if sel < len {
        sel
    } else {
        len - 1
    }
}

/// Move the cursor one row up, stopping at the first row.
pub fn selection_up(sel: usize) -> (r: usize)
    ensures
        r == if sel > 0 { (sel - 1) as int } else { 0int },
        sel > 0 ==> r < sel,
{
    if sel > 0 {
        sel - 1
    } else {
        sel
    }
}

/// Move the cursor one row down, stopping at the last row; on an empty
/// list the cursor stays put.
pub fn selection_down(sel: usize, len: usize) -> (r: usize)
    ensures
        r == if sel + 1 < len { sel + 1 } else { sel as int },
        selection_wf(sel as nat, len as nat) ==> selection_wf(r as nat, len as nat),
{
    if len > 0 && sel < len - 1 {
        sel + 1
    } else {
        sel
    }
}

} // verus!
