//! The first row of a grid: a single live cell in the middle, or a row of
//! independent coin flips.
use vstd::prelude::*;
use rand::distributions::{Distribution, Uniform};

verus! {

/// The fixed seed row of width `n`: the one live cell stands at column `n / 2`.
pub open spec fn fixed_seed(n: nat) -> Seq<bool> {
    Seq::new(n, |i: int| i == n as int / 2)
}

/// A row of width `n` whose only live cell is the middle one.
pub fn fixed_seed_row(n: u32) -> (row: Vec<bool>)
    ensures
        row@ == fixed_seed(n as nat),
{
    let mut row: Vec<bool> = Vec::new();
    let middle: u32 = n / 2;
    let mut i: u32 = 0;
    while i < n
        invariant
            i <= n,
            middle == n / 2,
            row@.len() == i,
            forall|k: int| 0 <= k < i ==> row@[k] == (k == middle),
        decreases n - i,
    {
        row.push(i == middle);
        i = i + 1;
    }
    assert(row@ =~= fixed_seed(n as nat));
    row
}

/// Relies on rand's `thread_rng` and on `Uniform::from(0..2)`, which samples
/// from the half-open range `[0, 2)`: the result is 0 or 1.
#[verifier::external_body]
fn coin_flip() -> (r: u32)
    ensures
        r < 2,
{
    let mut rng = rand::thread_rng();
    Uniform::from(0..2u32).sample(&mut rng)
}

/// A row of width `n` whose cells are independent fair coin flips: a cell is
/// alive where the coin shows 1.
pub fn random_seed_row(n: u32) -> (row: Vec<bool>)
    ensures
        row@.len() == n,
{
    let mut row: Vec<bool> = Vec::new();
    let mut i: u32 = 0;
    while i < n
        invariant
            i <= n,
            row@.len() == i,
        decreases n - i,
    {
        let value: u32 = coin_flip();
        row.push(value != 0);
        i = i + 1;
    }
    row
}

/// The fixed seed row of a non-empty width has exactly one live cell, and it
/// stands at column `n / 2`.
pub proof fn lemma_fixed_seed_single_live_cell(n: nat)
    requires
        n >= 1,
    ensures
        fixed_seed(n).len() == n,
        0 <= n as int / 2 < n,
        fixed_seed(n)[n as int / 2],
        forall|i: int| 0 <= i < n && fixed_seed(n)[i] ==> i == n as int / 2,
{
}

} // verus!
