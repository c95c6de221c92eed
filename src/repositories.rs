use vstd::prelude::*;
use crate::models::{Counter, wrap, i32_range, lemma_wrap_in_range};

verus! {

/// The value after one increment, wrapping from `i32::MAX` to `i32::MIN`.
pub open spec fn incremented(v: i32) -> i32 {
    wrap(v + 1) as i32
}

/// The value after one decrement, wrapping from `i32::MIN` to `i32::MAX`.
pub open spec fn decremented(v: i32) -> i32 {
    wrap(v - 1) as i32
}

/// A store that owns one counter value and offers exactly three operations.
/// It does no locking of its own: callers serialise access.
pub trait CounterRepository {
    /// The value currently stored.
    spec fn value(&self) -> i32;

    fn increment(&mut self)
        ensures
            final(self).value() == incremented(old(self).value()),
    ;

    fn decrement(&mut self)
        ensures
            final(self).value() == decremented(old(self).value()),
    ;

    fn get_value(&self) -> (r: i32)
        ensures
            r == self.value(),
    ;
}

/// A counter store held in memory for the life of the process.
pub struct InMemoryCounterRepository {
    counter: Counter,
}

impl InMemoryCounterRepository {
    pub fn new(value: i32) -> (r: Self)
        ensures
            r.value() == value,
    {
        InMemoryCounterRepository { counter: Counter::new(value) }
    }
}

impl CounterRepository for InMemoryCounterRepository {
    closed spec fn value(&self) -> i32 {
        self.counter.value
    }

    fn increment(&mut self) {
        proof {
            let v = self.counter.value as int;
            if v == i32::MAX {
                lemma_wrap_in_range(v + 1 - i32_range());
                vstd::arithmetic::div_mod::lemma_mod_add_multiples_vanish(
                    v + 1 - i32_range() + 0x8000_0000,
                    i32_range(),
                );
            } else {
                lemma_wrap_in_range(v + 1);
            }
        }
        self.counter.value = self.counter.value.wrapping_add(1);
    }

    fn decrement(&mut self) {
        proof {
            let v = self.counter.value as int;
            if v == i32::MIN {
                lemma_wrap_in_range(v - 1 + i32_range());
                vstd::arithmetic::div_mod::lemma_mod_sub_multiples_vanish(
                    v - 1 + i32_range() + 0x8000_0000,
                    i32_range(),
                );
            } else {
                lemma_wrap_in_range(v - 1);
            }
        }
        self.counter.value = self.counter.value.wrapping_sub(1);
    }

    fn get_value(&self) -> (r: i32) {
        self.counter.value
    }
}

} // verus!
