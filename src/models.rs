use vstd::prelude::*;

verus! {

/// Number of distinct `i32` values.
pub open spec fn i32_range() -> int {
    0x1_0000_0000
}

/// `x` brought into the `i32` range the way two's-complement wrapping does.
pub open spec fn wrap(x: int) -> int {
    (x + 0x8000_0000) % i32_range() - 0x8000_0000
}

/// A value already in the `i32` range wraps to itself.
pub proof fn lemma_wrap_in_range(x: int)
    requires
        i32::MIN <= x <= i32::MAX,
    ensures
        wrap(x) == x,
{
    vstd::arithmetic::div_mod::lemma_small_mod((x + 0x8000_0000) as nat, i32_range() as nat);
}

/// Wrapping is always in the `i32` range.
pub proof fn lemma_wrap_bounds(x: int)
    ensures
        i32::MIN <= wrap(x) <= i32::MAX,
{
    vstd::arithmetic::div_mod::lemma_mod_bound(x + 0x8000_0000, i32_range());
}

/// Wrapping an intermediate result changes nothing once the final result is wrapped.
pub proof fn lemma_wrap_absorbs(a: int, b: int)
    ensures
        wrap(wrap(a) + b) == wrap(a + b),
{
    let m = i32_range();
    vstd::arithmetic::div_mod::lemma_add_mod_noop(a + 0x8000_0000, b, m);
    vstd::arithmetic::div_mod::lemma_add_mod_noop((a + 0x8000_0000) % m, b, m);
    vstd::arithmetic::div_mod::lemma_mod_twice(a + 0x8000_0000, m);
}

/// The single integer held by a counter store.
#[derive(Debug, Default, Clone, Copy)]
pub struct Counter {
    pub value: i32,
}

impl Counter {
    pub fn new(value: i32) -> (r: Self)
        ensures
            r.value == value,
    {
        Counter { value }
    }
}

} // verus!
