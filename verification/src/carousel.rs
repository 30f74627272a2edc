//! The image carousel of the web page: which image is shown after stepping back or
//! forward, and when the controls appear.
use vstd::prelude::*;

verus! {

/// The image shown after stepping back from image `idx` of `len`: the previous one,
/// wrapping from the first to the last.
pub open spec fn previous_index(idx: nat, len: nat) -> nat {
    if idx == 0 {
        (len - 1) as nat
    } else {
        (idx - 1) as nat
    }
}

/// The image shown after stepping forward from image `idx` of `len`: the next one,
/// wrapping from the last to the first.
pub open spec fn next_index(idx: nat, len: nat) -> nat {
    (idx + 1) % len
}

pub fn go_prev(idx: usize, len: usize) -> (r: usize)
    requires
        len > 0,
    ensures
        r == previous_index(idx as nat, len as nat),
{
    if idx == 0 {
        len - 1
    } else {
        idx - 1
    }
}

pub fn go_next(idx: usize, len: usize) -> (r: usize)
    requires
        len > 0,
        idx < usize::MAX,
    ensures
        r == next_index(idx as nat, len as nat),
{
    (idx + 1) % len
}

/// The controls (arrows and dots) are shown only when there is more than one image.
pub fn show_controls(len: usize) -> (b: bool)
    ensures
        b == (len > 1),
{
    len > 1
}

/// Whether dot `i` is the highlighted one while image `current` is shown.
pub fn dot_active(i: usize, current: usize) -> (b: bool)
    ensures
        b == (i == current),
{
    i == current
}

/// Stepping forward then back, or back then forward, returns to the same image, and
/// both steps stay among the images.
pub proof fn lemma_steps_undo(idx: nat, len: nat)
    requires
        idx < len,
    ensures
        next_index(idx, len) < len,
        previous_index(idx, len) < len,
        previous_index(next_index(idx, len), len) == idx,
        next_index(previous_index(idx, len), len) == idx,
{
    if idx + 1 < len {
        assert((idx + 1) % len == idx + 1) by (nonlinear_arith)
            requires
                idx + 1 < len,
        ;
    } else {
        assert((idx + 1) % len == 0) by (nonlinear_arith)
            requires
                idx + 1 == len,
        ;
    }
    if idx == 0 {
        assert(((len - 1) + 1) % (len as int) == 0) by (nonlinear_arith)
            requires
                len > 0,
        ;
    } else {
        assert(((idx - 1) + 1) % (len as int) == idx) by (nonlinear_arith)
            requires
                0 < idx < len,
        ;
    }
}

} // verus!
