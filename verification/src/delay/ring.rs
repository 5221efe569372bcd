//! The circular buffer under the delay lines: indices that wrap, and
//! buffers of zeroes.

use vstd::prelude::*;
use vstd::arithmetic::div_mod::{
    lemma_add_mod_noop_right,
    lemma_fundamental_div_mod,
    lemma_mod_bound,
    lemma_mod_equivalence,
    lemma_mod_multiples_vanish,
    lemma_small_mod,
    lemma_sub_mod_noop,
    lemma_sub_mod_noop_right,
};
use crate::traits::{is_zero, Sample};

verus! {

/// The index that lies `distance` cells behind `position` in a circular
/// buffer of `len` cells.
pub open spec fn index_behind(position: int, distance: int, len: int) -> int {
    (position - distance) % len
}

/// The index that follows `position` in a circular buffer of `len` cells.
pub open spec fn index_after(position: int, len: int) -> int {
    (position + 1) % len
}

/// In a circular buffer, an index behind a valid position is a valid index.
pub proof fn lemma_index_behind_in_range(position: int, distance: int, len: int)
    requires
        0 < len,
    ensures
        0 <= index_behind(position, distance, len) < len,
{
    lemma_fundamental_div_mod(position - distance, len);
    lemma_mod_bound(position - distance, len);
}

/// Stepping back by `near` and then by `far` is stepping back by their sum.
pub proof fn lemma_index_behind_twice(position: int, near: int, far: int, len: int)
    requires
        0 < len,
    ensures
        index_behind(index_behind(position, near, len), far, len) == index_behind(
            position,
            near + far,
            len,
        ),
{
    lemma_sub_mod_noop(position - near, far, len);
    lemma_sub_mod_noop_right(position - near, far, len);
    assert(((position - near) % len - far % len) % len == (position - near - far) % len);
    lemma_sub_mod_noop_right((position - near) % len, far, len);
}

/// Stepping forward and then back is stepping back by one cell less.
pub proof fn lemma_index_after_then_behind(position: int, distance: int, len: int)
    requires
        0 < len,
    ensures
        index_behind(index_after(position, len), distance, len) == index_behind(
            position,
            distance - 1,
            len,
        ),
{
    lemma_add_mod_noop_right(-distance, position + 1, len);
    assert(-distance + (position + 1) % len == (position + 1) % len - distance);
    assert(-distance + (position + 1) == position - (distance - 1));
}

/// Stepping back and then forward is stepping back by one cell less.
pub proof fn lemma_index_behind_then_after(position: int, distance: int, len: int)
    requires
        0 < len,
    ensures
        index_after(index_behind(position, distance, len), len) == index_behind(
            position,
            distance - 1,
            len,
        ),
{
    lemma_add_mod_noop_right(1, position - distance, len);
    assert(1 + (position - distance) % len == (position - distance) % len + 1);
    assert(1 + (position - distance) == position - (distance - 1));
}

/// Within one turn of the buffer, different distances lead to different
/// cells.
pub proof fn lemma_index_behind_distinct(position: int, near: int, far: int, len: int)
    requires
        0 < len,
        near < far < near + len,
    ensures
        index_behind(position, near, len) != index_behind(position, far, len),
{
    if index_behind(position, near, len) == index_behind(position, far, len) {
        lemma_mod_equivalence(position - near, position - far, len);
        assert((position - near) - (position - far) == far - near);
        lemma_small_mod((far - near) as nat, len as nat);
    }
}

/// A valid position lies no cell behind itself.
pub proof fn lemma_index_behind_zero(position: int, len: int)
    requires
        0 <= position < len,
    ensures
        index_behind(position, 0, len) == position,
{
    lemma_small_mod(position as nat, len as nat);
}

/// Computes the index that lies `distance` cells behind `position` in a
/// circular buffer of `len` cells.
pub fn step_back(position: usize, distance: usize, len: usize) -> (index: usize)
    requires
        position < len,
    ensures
        index == index_behind(position as int, distance as int, len as int),
        index < len,
{
    let within = distance % len;
    proof {
        let p = position as int;
        let d = distance as int;
        let n = len as int;
        lemma_fundamental_div_mod(d, n);
        // d == n * (d / n) + within, so p - d and p - within differ by a
        // multiple of n.
        lemma_mod_multiples_vanish(-(d / n), p - within, n);
        assert(n * (-(d / n)) + (p - within) == p - d) by (nonlinear_arith)
            requires
                d == n * (d / n) + within,
        ;
        if p >= within {
            lemma_small_mod((p - within) as nat, n as nat);
        } else {
            lemma_mod_multiples_vanish(-1, p - within + n, n);
            lemma_small_mod((p - within + n) as nat, n as nat);
        }
    }
    if position >= within {
        position - within
    } else {
        len - (within - position)
    }
}

/// Computes the index that follows `position` in a circular buffer of `len`
/// cells.
pub fn step_forward(position: usize, len: usize) -> (index: usize)
    requires
        position < len,
    ensures
        index == index_after(position as int, len as int),
        index < len,
{
    if position + 1 == len {
        proof {
            lemma_mod_multiples_vanish(1, 0, len as int);
            lemma_small_mod(0, len as nat);
        }
        0
    } else {
        proof {
            lemma_small_mod((position + 1) as nat, len as nat);
        }
        position + 1
    }
}

/// Computes the index of the tap `tap_delay` in a buffer of `len` cells
/// whose next write goes to `write_ptr`.
pub fn tap_position(write_ptr: usize, tap_delay: usize, len: usize) -> (index: usize)
    requires
        write_ptr < len,
    ensures
        index == index_behind(write_ptr as int, tap_delay as int + 1, len as int),
        index < len,
{
    let newest = step_back(write_ptr, 1, len);
    proof {
        lemma_index_behind_twice(write_ptr as int, 1, tap_delay as int, len as int);
    }
    step_back(newest, tap_delay, len)
}

/// Makes a buffer of `len` zeroes.
pub fn zeroes<T: Sample>(len: usize) -> (memory: Vec<T>)
    ensures
        memory@.len() == len,
        forall|i: int| 0 <= i < len ==> is_zero(#[trigger] memory@[i]),
{
    let mut memory: Vec<T> = Vec::new();
    while memory.len() < len
        invariant
            memory@.len() <= len,
            forall|i: int| 0 <= i < memory@.len() ==> is_zero(#[trigger] memory@[i]),
        decreases len - memory@.len(),
    {
        memory.push(T::zero());
    }
    memory
}

/// Makes a buffer of `len` cells that starts with the samples of `memory`
/// and goes on with zeroes.
pub fn grown<T: Sample>(memory: &Vec<T>, len: usize) -> (longer: Vec<T>)
    requires
        memory@.len() <= len,
    ensures
        longer@.len() == len,
        longer@.subrange(0, memory@.len() as int) == memory@,
        forall|i: int| memory@.len() <= i < len ==> is_zero(#[trigger] longer@[i]),
{
    let mut longer: Vec<T> = Vec::new();
    while longer.len() < len
        invariant
            memory@.len() <= len,
            longer@.len() <= len,
            forall|i: int|
                0 <= i < longer@.len() && i < memory@.len() ==> longer@[i] == memory@[i],
            forall|i: int| memory@.len() <= i < longer@.len() ==> is_zero(#[trigger] longer@[i]),
        decreases len - longer@.len(),
    {
        let i = longer.len();
        if i < memory.len() {
            longer.push(memory[i]);
        } else {
            longer.push(T::zero());
        }
    }
    assert(longer@.subrange(0, memory@.len() as int) =~= memory@);
    longer
}

} // verus!
