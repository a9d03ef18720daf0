use vstd::prelude::*;

verus! {

/// Smallest number of slots a non-empty backing allocation may have.
pub const VEC_MIN_SIZE: usize = 64;

/// Whether `n` is a power of two.
pub open spec fn is_power_of_two(n: nat) -> bool
    decreases n,
{
    if n == 0 {
        false
    } else if n == 1 {
        true
    } else {
        n % 2 == 0 && is_power_of_two(n / 2)
    }
}

/// Smallest power of two that is at least `needed`, found by doubling from
/// `cap` (meaningful for `cap >= 1`).
pub open spec fn pow2_at_least(cap: nat, needed: nat) -> nat
    decreases (if needed > cap { needed - cap } else { 0 }),
{
    if cap == 0 || cap >= needed {
        cap
    } else {
        pow2_at_least(cap * 2, needed)
    }
}

/// The capacity the capacity manager chooses for a request of `needed` slots:
/// the smallest power of two at least `needed`, floored at `VEC_MIN_SIZE`,
/// except that a zero-slot request in zero-allocation mode is honoured exactly.
pub open spec fn grow_target(needed: nat, zero_alloc: bool) -> nat {
    if needed == 0 && zero_alloc {
        0
    } else {
        pow2_at_least(VEC_MIN_SIZE as nat, needed)
    }
}

proof fn lemma_min_size_is_power_of_two()
    ensures
        is_power_of_two(VEC_MIN_SIZE as nat),
{
    reveal_with_fuel(is_power_of_two, 8);
}

proof fn lemma_pow2_at_least(cap: nat, needed: nat)
    requires
        1 <= cap,
        is_power_of_two(cap),
    ensures
        pow2_at_least(cap, needed) >= cap,
        pow2_at_least(cap, needed) >= needed,
        is_power_of_two(pow2_at_least(cap, needed)),
    decreases (if needed > cap { needed - cap } else { 0 }),
{
    if cap < needed {
        assert(is_power_of_two(cap * 2)) by {
            assert(cap * 2 != 1);
            assert((cap * 2) % 2 == 0);
            assert((cap * 2) / 2 == cap);
        }
        lemma_pow2_at_least(cap * 2, needed);
    }
}

/// Any capacity the manager chooses is either 0 — possible only for a
/// zero-slot request in zero-allocation mode — or a power of two no smaller
/// than `VEC_MIN_SIZE` that covers the request.
pub proof fn lemma_grow_target_shape(needed: nat, zero_alloc: bool)
    ensures
        grow_target(needed, zero_alloc) == 0 <==> (needed == 0 && zero_alloc),
        grow_target(needed, zero_alloc) != 0 ==> is_power_of_two(grow_target(needed, zero_alloc)),
        grow_target(needed, zero_alloc) != 0 ==> grow_target(needed, zero_alloc) >= VEC_MIN_SIZE,
        grow_target(needed, zero_alloc) >= needed,
{
    if !(needed == 0 && zero_alloc) {
        lemma_min_size_is_power_of_two();
        lemma_pow2_at_least(VEC_MIN_SIZE as nat, needed);
    }
}

/// The zero-allocation flag matters only for a zero-slot request: for any
/// positive request the manager chooses the same capacity whatever the flag.
/// With the contracts of `Vec::clear`, `Vec::new` and `Vec::push`, this is why
/// an array that was cleared behaves under `push` exactly like a fresh one.
pub proof fn lemma_grow_target_ignores_flag(needed: nat, a: bool, b: bool)
    requires
        needed > 0,
    ensures
        grow_target(needed, a) == grow_target(needed, b),
{
}

/// Executable form of `grow_target`; `None` when the chosen capacity does not
/// fit in `usize` (such an allocation can never succeed).
pub(crate) fn grow_target_exec(needed: usize, zero_alloc: bool) -> (r: Option<usize>)
    ensures
        r matches Some(c) ==> c as nat == grow_target(needed as nat, zero_alloc),
        r is None ==> grow_target(needed as nat, zero_alloc) > usize::MAX,
{
    if needed == 0 && zero_alloc {
        return Some(0);
    }
    let mut cap: usize = VEC_MIN_SIZE;
    proof {
        lemma_min_size_is_power_of_two();
    }
    while cap < needed
        invariant
            1 <= cap,
            is_power_of_two(cap as nat),
            pow2_at_least(cap as nat, needed as nat) == grow_target(needed as nat, zero_alloc),
        decreases (if needed > cap { needed - cap } else { 0 }) as int,
    {
        if cap > usize::MAX / 2 {
            proof {
                assert(pow2_at_least(cap as nat, needed as nat) == pow2_at_least(
                    (cap * 2) as nat,
                    needed as nat,
                ));
                assert(is_power_of_two((cap * 2) as nat)) by {
                    assert(cap * 2 != 1);
                    assert((cap * 2) % 2 == 0);
                    assert((cap * 2) / 2 == cap);
                }
                lemma_pow2_at_least((cap * 2) as nat, needed as nat);
                assert(cap * 2 > usize::MAX);
            }
            return None;
        }
        proof {
            assert(pow2_at_least(cap as nat, needed as nat) == pow2_at_least(
                (cap * 2) as nat,
                needed as nat,
            ));
            assert(is_power_of_two((cap * 2) as nat)) by {
                assert(cap * 2 != 1);
                assert((cap * 2) % 2 == 0);
                assert((cap * 2) / 2 == cap);
            }
        }
        cap = cap * 2;
    }
    Some(cap)
}

} // verus!
