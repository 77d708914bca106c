//! Abstract model shared by the four buffer variants.
//!
//! A buffer is modelled as the sequence of characters it holds, in insertion
//! order. The spec functions here give, for each operation, the reply it
//! returns and the contents that remain; every variant's contract is stated
//! through them, so the variants are interchangeable by construction.

use vstd::prelude::*;

verus! {

/// Number of slots in every buffer variant.
pub const CAPACITY: usize = 13;

/// A push onto contents `s` is accepted exactly when a slot is free.
pub open spec fn push_accepted(s: Seq<char>) -> bool {
    s.len() < CAPACITY
}

/// Reply of a push onto contents `s`: `Ok(())` when a slot is free,
/// `Err(())` when the buffer is full.
pub open spec fn push_result(s: Seq<char>) -> Result<(), ()> {
    if push_accepted(s) {
        Ok(())
    } else {
        Err(())
    }
}

/// Contents after a push of `c` onto contents `s`: `c` is appended when a
/// slot is free, and nothing changes when the buffer is full.
pub open spec fn contents_after_push(s: Seq<char>, c: char) -> Seq<char> {
    if push_accepted(s) {
        s.push(c)
    } else {
        s
    }
}

/// Reply of a pop from contents `s`: the most recently pushed character, or
/// `None` when the buffer is empty.
pub open spec fn pop_result(s: Seq<char>) -> Option<char> {
    if s.len() == 0 {
        None
    } else {
        Some(s.last())
    }
}

/// Contents after a pop from contents `s`: the last character is removed,
/// and nothing changes when the buffer is empty.
pub open spec fn contents_after_pop(s: Seq<char>) -> Seq<char> {
    if s.len() == 0 {
        s
    } else {
        s.drop_last()
    }
}

/// Reply of an indexed read of contents `s` at position `i`: the character
/// at logical position `i` (first pushed = position 0), or `None` when `i`
/// is out of range.
pub open spec fn get_result(s: Seq<char>, i: int) -> Option<char> {
    if 0 <= i < s.len() {
        Some(s[i])
    } else {
        None
    }
}

/// The character behind an optional reference, for stating what an indexed
/// read returns.
pub open spec fn copied(r: Option<&char>) -> Option<char> {
    match r {
        Some(c) => Some(*c),
        None => None,
    }
}

/// Law: the capacity bound is an invariant. A buffer starts empty, and no
/// push or pop drives its contents past `CAPACITY`, so every reachable
/// buffer holds at most `CAPACITY` characters.
pub proof fn lemma_capacity_invariant(s: Seq<char>, c: char)
    requires
        s.len() <= CAPACITY,
    ensures
        contents_after_push(s, c).len() <= CAPACITY,
        contents_after_pop(s).len() <= CAPACITY,
{
}

/// Law: push/pop duality. A push that is accepted is undone by an
/// immediately following pop: the pop returns the pushed character and
/// restores the prior contents (and with them the prior length).
pub proof fn lemma_push_pop_duality(s: Seq<char>, c: char)
    requires
        push_accepted(s),
    ensures
        pop_result(contents_after_push(s, c)) == Some(c),
        contents_after_pop(contents_after_push(s, c)) == s,
{
    assert(contents_after_push(s, c).drop_last() =~= s);
}

/// Law: cross-variant equivalence. Every method of every variant pins its
/// reply and its final contents to the functions above, which depend on the
/// abstract contents alone. So two buffers of any two variants that hold
/// equal contents give equal replies to the same operation and again hold
/// equal contents afterwards; by induction, identical operation sequences
/// give identical observations at every step.
pub proof fn lemma_equal_contents_equal_observations(s: Seq<char>, t: Seq<char>, c: char, i: int)
    requires
        s == t,
    ensures
        push_result(s) == push_result(t),
        contents_after_push(s, c) == contents_after_push(t, c),
        pop_result(s) == pop_result(t),
        contents_after_pop(s) == contents_after_pop(t),
        get_result(s, i) == get_result(t, i),
        s.len() == t.len(),
{
}

} // verus!
