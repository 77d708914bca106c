//! Buffer variant with a narrow occupancy count and a bounds hint.
//!
//! In unverified code the hint would be an unchecked directive to the
//! optimizer, undefined behaviour if ever wrong. In verified code its
//! counterpart is a proof assertion at the same control point: it is checked
//! statically, can never be wrong, and is erased during compilation, so this
//! variant compiles to the same code as the unhinted one. It is kept so that
//! the four-way comparison of count width and hint presence keeps its shape.

use vstd::prelude::*;
use vstd::array::ArrayAdditionalExecFns;
use crate::model::CAPACITY;
use crate::model::contents_after_pop;
use crate::model::contents_after_push;
use crate::model::copied;
use crate::model::get_result;
use crate::model::pop_result;
use crate::model::push_result;

verus! {

/// Fixed-capacity character buffer whose occupancy count is stored in an
/// 8-bit field. Each slot access is preceded by a statically proved bounds
/// assertion.
pub struct InputBufferU8Hint {
    data: [char; CAPACITY],
    len: u8,
}

impl InputBufferU8Hint {
    /// The occupancy count never exceeds the capacity; this holds of every
    /// reachable buffer.
    #[verifier::type_invariant]
    spec fn len_in_range(self) -> bool {
        self.len as usize <= CAPACITY
    }
}

impl View for InputBufferU8Hint {
    type V = Seq<char>;

    /// The characters held, in insertion order.
    closed spec fn view(&self) -> Seq<char> {
        self.data@.take(self.len as int)
    }
}

impl InputBufferU8Hint {
    /// Returns an empty buffer.
    pub fn new() -> (b: Self)
        ensures
            b@ == Seq::<char>::empty(),
    {
        let b = Self { data: ['\0'; CAPACITY], len: 0 };
        proof {
            assert(b@ =~= Seq::<char>::empty());
        }
        b
    }

    /// Stores `c` in the first free slot. Fails with `Err(())` when the
    /// buffer is full, leaving the contents unchanged.
    pub fn push(&mut self, c: char) -> (r: Result<(), ()>)
        ensures
            r == push_result(old(self)@),
            final(self)@ == contents_after_push(old(self)@, c),
    {
        proof {
            use_type_invariant(&*self);
        }
        if (self.len as usize) < CAPACITY {
            // Bounds hint: the count is within range, established by the
            // check above and proved rather than assumed.
            assert(self.len as usize <= CAPACITY);
            let mut slots = self.data;
            slots.set(self.len as usize, c);
            self.data = slots;
            self.len = self.len + 1;
            proof {
                assert(self@ =~= old(self)@.push(c));
            }
            Ok(())
        } else {
            Err(())
        }
    }

    /// Removes and returns the most recently pushed character, or `None`
    /// when the buffer is empty.
    pub fn pop(&mut self) -> (r: Option<char>)
        ensures
            r == pop_result(old(self)@),
            final(self)@ == contents_after_pop(old(self)@),
    {
        proof {
            use_type_invariant(&*self);
        }
        if self.len > 0 {
            self.len = self.len - 1;
            // Bounds hint: the count was positive and has just been
            // decremented, so it is within range; proved, not assumed.
            assert(self.len as usize <= CAPACITY);
            let c = self.data[self.len as usize];
            proof {
                assert(self@ =~= old(self)@.drop_last());
                assert(c == old(self)@.last());
            }
            Some(c)
        } else {
            None
        }
    }

    /// Returns a reference to the character at logical position `index`
    /// (first pushed = position 0), or `None` when `index` is out of range.
    /// Never mutates the buffer.
    pub fn get(&self, index: usize) -> (r: Option<&char>)
        ensures
            copied(r) == get_result(self@, index as int),
    {
        proof {
            use_type_invariant(&*self);
        }
        if index < self.len as usize {
            // Bounds hint: the count is within range, so the checked index
            // is too; proved, not assumed.
            assert(self.len as usize <= CAPACITY);
            Some(&self.data[index])
        } else {
            None
        }
    }

    /// Returns the number of characters held: the number of accepted pushes
    /// minus the number of successful pops since creation. Always at most
    /// `CAPACITY`.
    pub fn len(&self) -> (n: usize)
        ensures
            n == self@.len(),
            n <= CAPACITY,
    {
        proof {
            use_type_invariant(&*self);
        }
        self.len as usize
    }
}

impl Default for InputBufferU8Hint {
    /// Returns an empty buffer.
    fn default() -> (b: Self)
        ensures
            b@ == Seq::<char>::empty(),
    {
        Self::new()
    }
}

} // verus!
