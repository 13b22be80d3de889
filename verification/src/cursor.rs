//! Cyclic index arithmetic shared by the list cursor and the tab bar.

use vstd::prelude::*;
use vstd::arithmetic::div_mod::{
    lemma_add_mod_noop, lemma_mod_add_multiples_vanish, lemma_mod_self_0, lemma_small_mod,
};

verus! {

/// The position after `index` on a ring of `len` positions. A ring without
/// positions leaves the index where it is.
pub open spec fn wrap_next(index: int, len: int) -> int {
    if len <= 0 {
        index
    } else {
        (index + 1) % len
    }
}

/// The position before `index` on a ring of `len` positions; position 0 is
/// preceded by `len - 1`.
pub open spec fn wrap_prev(index: int, len: int) -> int {
    if len <= 0 {
        index
    } else {
        (index + len - 1) % len
    }
}

/// `wrap_next` applied `times` times.
pub open spec fn wrap_next_n(index: int, len: int, times: nat) -> int
    decreases times,
{
    if times == 0 {
        index
    } else {
        wrap_next(wrap_next_n(index, len, (times - 1) as nat), len)
    }
}

/// `wrap_prev` applied `times` times.
pub open spec fn wrap_prev_n(index: int, len: int, times: nat) -> int
    decreases times,
{
    if times == 0 {
        index
    } else {
        wrap_prev(wrap_prev_n(index, len, (times - 1) as nat), len)
    }
}

/// Executable `wrap_next` for an index that lies on the ring.
pub fn step_next(index: usize, len: usize) -> (next: usize)
    requires
        index < len,
    ensures
        next == wrap_next(index as int, len as int),
        next < len,
{
    proof {
        if index + 1 == len {
            lemma_mod_self_0(len as int);
        } else {
            lemma_small_mod((index + 1) as nat, len as nat);
        }
    }
    if index + 1 == len {
        0
    } else {
        index + 1
    }
}

/// Executable `wrap_prev` for an index that lies on the ring.
pub fn step_prev(index: usize, len: usize) -> (prev: usize)
    requires
        index < len,
    ensures
        prev == wrap_prev(index as int, len as int),
        prev < len,
{
    proof {
        if index == 0 {
            lemma_small_mod((len - 1) as nat, len as nat);
        } else {
            lemma_mod_add_multiples_vanish(index - 1, len as int);
            lemma_small_mod((index - 1) as nat, len as nat);
        }
    }
    if index == 0 {
        len - 1
    } else {
        index - 1
    }
}

/// After `times` steps forward the ring position is the start plus `times`,
/// reduced modulo the ring's length.
pub proof fn lemma_wrap_next_n(index: int, len: int, times: nat)
    requires
        0 <= index < len,
    ensures
        wrap_next_n(index, len, times) == (index + times) % len,
    decreases times,
{
    if times == 0 {
        lemma_small_mod(index as nat, len as nat);
    } else {
        let before = index + times - 1;
        lemma_wrap_next_n(index, len, (times - 1) as nat);
        lemma_add_mod_noop(before, 1, len);
        if len == 1 {
            lemma_mod_self_0(1);
        } else {
            lemma_small_mod(1, len as nat);
        }
    }
}

/// After `times` steps backward the ring position is the start minus
/// `times`, reduced modulo the ring's length.
pub proof fn lemma_wrap_prev_n(index: int, len: int, times: nat)
    requires
        0 <= index < len,
    ensures
        wrap_prev_n(index, len, times) == (index - times) % len,
    decreases times,
{
    if times == 0 {
        lemma_small_mod(index as nat, len as nat);
    } else {
        let before = index - (times - 1);
        lemma_wrap_prev_n(index, len, (times - 1) as nat);
        lemma_add_mod_noop(before, len - 1, len);
        lemma_small_mod((len - 1) as nat, len as nat);
        lemma_mod_add_multiples_vanish(before - 1, len);
    }
}

/// Stepping forward once for every position of the ring ends where it began.
pub proof fn lemma_wrap_next_full_cycle(index: int, len: int)
    requires
        0 <= index < len,
    ensures
        wrap_next_n(index, len, len as nat) == index,
{
    lemma_wrap_next_n(index, len, len as nat);
    lemma_mod_add_multiples_vanish(index, len);
    lemma_small_mod(index as nat, len as nat);
}

/// Stepping backward once for every position of the ring ends where it began.
pub proof fn lemma_wrap_prev_full_cycle(index: int, len: int)
    requires
        0 <= index < len,
    ensures
        wrap_prev_n(index, len, len as nat) == index,
{
    lemma_wrap_prev_n(index, len, len as nat);
    lemma_mod_add_multiples_vanish(index - len, len);
    lemma_small_mod(index as nat, len as nat);
}

} // verus!
