use vstd::prelude::*;

verus! {

/// `2^e`.
pub open spec fn doubling(e: nat) -> nat
    decreases e,
{
    if e == 0 {
        1
    } else {
        2 * doubling((e - 1) as nat)
    }
}

/// The doubling exponent of a retry after `attempts` tries: `attempts - 1`,
/// at least 0 and at most 6.
pub open spec fn backoff_exponent(attempts: i32) -> nat {
    if attempts <= 1 {
        0
    } else if attempts >= 7 {
        6
    } else {
        (attempts - 1) as nat
    }
}

pub proof fn lemma_doubling_monotonic(a: nat, b: nat)
    requires
        a <= b,
    ensures
        1 <= doubling(a) <= doubling(b),
    decreases b,
{
    if b > a {
        lemma_doubling_monotonic(a, (b - 1) as nat);
    } else if a > 0 {
        lemma_doubling_monotonic((a - 1) as nat, (a - 1) as nat);
    }
}

pub proof fn lemma_backoff_exponent_monotonic(a: i32, b: i32)
    requires
        a <= b,
    ensures
        backoff_exponent(a) <= backoff_exponent(b) <= 6,
{
}

pub fn exponent_of(attempts: i32) -> (e: u32)
    ensures
        e == backoff_exponent(attempts),
{
    if attempts <= 1 {
        0
    } else if attempts >= 7 {
        6
    } else {
        (attempts - 1) as u32
    }
}

/// `2^e` for a small exponent.
pub fn doubling_of(e: u32) -> (r: u64)
    requires
        e <= 6,
    ensures
        r == doubling(e as nat),
        r <= 64,
{
    let mut r: u64 = 1;
    let mut k: u32 = 0;
    while k < e
        invariant
            k <= e <= 6,
            r == doubling(k as nat),
            r <= doubling(k as nat),
        decreases e - k,
    {
        proof {
            lemma_doubling_monotonic(k as nat, 6);
            reveal_with_fuel(doubling, 7);
        }
        r = r * 2;
        k += 1;
    }
    proof {
        lemma_doubling_monotonic(e as nat, 6);
        reveal_with_fuel(doubling, 7);
    }
    r
}

} // verus!
