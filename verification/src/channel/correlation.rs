//! Correlation identifiers that pair responses with their requests.

use vstd::prelude::*;

verus! {

/// Hands out correlation identifiers one after the other, starting at 1.
#[derive(Debug)]
pub struct CorrelationIdGenerator {
    next_id: u64,
}

/// The identifier handed out `k` calls after the generator stood at
/// `start`: counting wraps around at the end of `u64`.
pub open spec fn id_after(start: u64, k: nat) -> u64 {
    ((start as nat + k) % 0x1_0000_0000_0000_0000) as u64
}

impl CorrelationIdGenerator {
    /// The identifier that the next call hands out.
    pub closed spec fn spec_next(&self) -> u64 {
        self.next_id
    }

    /// A generator whose first identifier is 1.
    pub fn new() -> (g: Self)
        ensures
            g.spec_next() == 1,
    {
        CorrelationIdGenerator { next_id: 1 }
    }

    /// Hands out the next identifier and moves on by one.
    pub fn next(&mut self) -> (id: u64)
        ensures
            id == old(self).spec_next(),
            final(self).spec_next() == id_after(old(self).spec_next(), 1),
    {
        let id = self.next_id;
        self.next_id = self.next_id.wrapping_add(1);
        id
    }

    /// The identifier that the next call hands out, without taking it.
    pub fn current(&self) -> (id: u64)
        ensures
            id == self.spec_next(),
    {
        self.next_id
    }
}

impl Default for CorrelationIdGenerator {
    fn default() -> (g: Self)
        ensures
            g.spec_next() == 1,
    {
        Self::new()
    }
}

/// Identifiers handed out by one generator do not repeat until the counter
/// wraps around: the `i`-th and the `j`-th call after the generator stood
/// at `start` give different identifiers whenever fewer than 2^64 calls
/// separate them.
pub proof fn lemma_ids_distinct(start: u64, i: nat, j: nat)
    requires
        i < j,
        j - i < 0x1_0000_0000_0000_0000,
    ensures
        id_after(start, i) != id_after(start, j),
{
    let m: int = 0x1_0000_0000_0000_0000;
    let a: int = start as int + i;
    let b: int = start as int + j;
    assert(a % m != b % m) by (nonlinear_arith)
        requires
            0 <= a < b,
            b - a < m,
            m > 0,
    {
        let qa = a / m;
        let qb = b / m;
        if a % m == b % m {
            assert(a == qa * m + a % m);
            assert(b == qb * m + b % m);
            assert((qb - qa) * m == b - a);
        }
    }
}

/// Successive identifiers: one call after `id_after(start, k)` the generator
/// hands out `id_after(start, k + 1)`.
pub proof fn lemma_id_after_step(start: u64, k: nat)
    ensures
        id_after(id_after(start, k), 1) == id_after(start, k + 1),
{
    let m: int = 0x1_0000_0000_0000_0000;
    let a: int = start as int + k;
    assert(((a % m) + 1) % m == (a + 1) % m) by (nonlinear_arith)
        requires
            a >= 0,
            m > 0,
    {
        vstd::arithmetic::div_mod::lemma_add_mod_noop(a, 1, m);
        vstd::arithmetic::div_mod::lemma_mod_twice(a, m);
    }
}

} // verus!
