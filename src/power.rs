use vstd::arithmetic::power::{lemma_pow0, lemma_pow_increases, pow};
use vstd::prelude::*;

verus! {

/// Raising a number to a `u32` power, with the result in a `u32`.
pub trait Power: Sized {
    /// The number being raised, as an integer.
    spec fn base(&self) -> int;

    fn power(self, n: u32) -> (r: u32)
        requires
            pow(self.base(), n as nat) <= u32::MAX,
        ensures
            r == pow(self.base(), n as nat),
    ;
}

/// `b` to the power `n` by repeated multiplication.
fn pow_u32(b: u32, n: u32) -> (r: u32)
    requires
        pow(b as int, n as nat) <= u32::MAX,
    ensures
        r == pow(b as int, n as nat),
{
    let mut acc: u32 = 1;
    let mut i: u32 = 0;
    proof {
        lemma_pow0(b as int);
    }
    while i < n
        invariant
            i <= n,
            acc == pow(b as int, i as nat),
            pow(b as int, n as nat) <= u32::MAX,
        decreases n - i,
    {
        proof {
            reveal(pow);
            assert(pow(b as int, (i + 1) as nat) == b * pow(b as int, i as nat));
            if b > 0 {
                lemma_pow_increases(b as nat, (i + 1) as nat, n as nat);
            }
        }
        acc = b * acc;
        i = i + 1;
    }
    acc
}

impl Power for u32 {
    open spec fn base(&self) -> int {
        *self as int
    }

    fn power(self, n: u32) -> (r: u32) {
        pow_u32(self, n)
    }
}

impl Power for u16 {
    open spec fn base(&self) -> int {
        *self as int
    }

    fn power(self, n: u32) -> (r: u32) {
        pow_u32(self as u32, n)
    }
}

} // verus!
