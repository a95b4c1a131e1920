//! Key-index generators. The uniform generator reduces a fresh random
//! 64-bit draw modulo the record count.
use vstd::prelude::*;

verus! {

/// Relies on rand's `random::<u64>()`: one draw from the thread-local
/// generator. Nothing is promised of the value.
#[verifier::external_body]
pub(crate) fn random_u64() -> (r: u64) {
    rand::random::<u64>()
}

/// Picks each index in `[0, n)` with equal probability.
#[derive(Debug, Clone, Copy)]
pub struct Uniform {
    /// Number of indices.
    pub n: u64,
}

impl Uniform {
    pub open spec fn wf(&self) -> bool {
        self.n > 0
    }

    pub fn new(n: u64) -> (r: Uniform)
        requires
            n > 0,
        ensures
            r.n == n,
            r.wf(),
    {
        Uniform { n }
    }

    /// The index that a raw 64-bit draw selects.
    pub fn index_of(&self, raw: u64) -> (r: u64)
        requires
            self.wf(),
        ensures
            r == raw % self.n,
            r < self.n,
    {
        raw % self.n
    }

    /// Draws an index.
    pub fn next(&self) -> (r: u64)
        requires
            self.wf(),
        ensures
            r < self.n,
    {
        let raw = random_u64();
        self.index_of(raw)
    }
}

/// Within any aligned block of `n` consecutive draws, `q * n` up to
/// `q * n + n - 1`, each index in `[0, n)` is selected by exactly one draw:
/// the `k`-th draw of the block selects `k`, and no other draw of the block does.
pub proof fn lemma_uniform_block(n: nat, q: nat, k: nat)
    requires
        n > 0,
        k < n,
    ensures
        (q * n + k) % n == k,
        forall|j: nat| j < n && #[trigger] ((q * n + j) % n) == k ==> j == k,
{
    assert forall|j: nat| j < n implies #[trigger] ((q * n + j) % n) == j by {
        vstd::arithmetic::div_mod::lemma_fundamental_div_mod_converse(
            (q * n + j) as int,
            n as int,
            q as int,
            j as int,
        );
    }
}

} // verus!
