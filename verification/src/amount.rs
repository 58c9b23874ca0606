//! 256-bit token amounts (in WEI), as four 64-bit limbs.

use vstd::prelude::*;

verus! {

/// 2^256, one more than the largest amount.
pub open spec fn amount_bound() -> nat {
    0x1_0000_0000_0000_0000_0000_0000_0000_0000_0000_0000_0000_0000_0000_0000_0000_0000nat
}

/// `a + b` wrapped around at 2^256, for a sum below 2^257.
pub open spec fn wrapped_sum(a: nat, b: nat) -> nat {
    if a + b < amount_bound() {
        a + b
    } else {
        (a + b - amount_bound()) as nat
    }
}

proof fn lemma_wrap_is_mod(s: int)
    requires
        0 <= s < 2 * amount_bound(),
    ensures
        (if s < amount_bound() { s } else { s - amount_bound() }) == s % (amount_bound() as int),
{
    let b = amount_bound() as int;
    if s < b {
        vstd::arithmetic::div_mod::lemma_small_mod(s as nat, b as nat);
    } else {
        vstd::arithmetic::div_mod::lemma_small_mod((s - b) as nat, b as nat);
        vstd::arithmetic::div_mod::lemma_mod_add_multiples_vanish(s - b, b);
    }
}

/// The wrapped sum is the sum modulo 2^256.
pub proof fn lemma_wrapped_sum_is_mod(a: nat, b: nat)
    requires
        a < amount_bound(),
        b < amount_bound(),
    ensures
        wrapped_sum(a, b) == ((a + b) as int) % (amount_bound() as int),
{
    lemma_wrap_is_mod((a + b) as int);
}

/// The number that four little-endian 64-bit limbs stand for.
pub open spec fn limbs_value(l: Seq<u64>) -> nat {
    (l[0] + 0x1_0000_0000_0000_0000nat * l[1] + 0x1_0000_0000_0000_0000_0000_0000_0000_0000nat
        * l[2] + 0x1_0000_0000_0000_0000_0000_0000_0000_0000_0000_0000_0000_0000nat
        * l[3]) as nat
}

/// An unsigned 256-bit amount, least significant limb first.
#[derive(Clone, Copy, Debug, PartialEq, Eq)]
pub struct TokenAmount {
    pub limbs: [u64; 4],
}

impl View for TokenAmount {
    type V = nat;

    open spec fn view(&self) -> nat {
        limbs_value(self.limbs@)
    }
}

proof fn lemma_value_bounds(l: Seq<u64>)
    requires
        l.len() == 4,
    ensures
        limbs_value(l) < amount_bound(),
        limbs_value(l) >= 0x1_0000_0000_0000_0000_0000_0000_0000_0000_0000_0000_0000_0000nat
            * l[3],
        limbs_value(l) < 0x1_0000_0000_0000_0000_0000_0000_0000_0000_0000_0000_0000_0000nat * (
        l[3] + 1),
        l[0] + 0x1_0000_0000_0000_0000nat * l[1] + 0x1_0000_0000_0000_0000_0000_0000_0000_0000nat
            * l[2] < 0x1_0000_0000_0000_0000_0000_0000_0000_0000_0000_0000_0000_0000nat,
        l[0] + 0x1_0000_0000_0000_0000nat * l[1] < 0x1_0000_0000_0000_0000_0000_0000_0000_0000nat,
{
}

impl TokenAmount {
    /// The amount `x`.
    pub fn from_u64(x: u64) -> (r: Self)
        ensures
            r@ == x,
    {
        TokenAmount { limbs: [x, 0, 0, 0] }
    }

    /// Whether `self` is at most `other`.
    pub fn le(&self, other: &Self) -> (r: bool)
        ensures
            r == (self@ <= other@),
    {
        let a = self.limbs;
        let b = other.limbs;
        proof {
            lemma_value_bounds(a@);
            lemma_value_bounds(b@);
        }
        if a[3] != b[3] {
            a[3] < b[3]
        } else if a[2] != b[2] {
            a[2] < b[2]
        } else if a[1] != b[1] {
            a[1] < b[1]
        } else {
            a[0] <= b[0]
        }
    }

    /// `self + x`, wrapping around at 2^256.
    pub fn wrapping_add_u64(&self, x: u64) -> (r: Self)
        ensures
            r@ == (self@ + x) % (amount_bound() as int),
            r@ == wrapped_sum(self@, x as nat),
    {
        let a = self.limbs;
        proof {
            lemma_value_bounds(a@);
        }
        let (r0, c0): (u64, bool) = if a[0] <= u64::MAX - x {
            (a[0] + x, false)
        } else {
            (a[0] - (u64::MAX - x) - 1, true)
        };
        let (r1, c1): (u64, bool) = if !c0 {
            (a[1], false)
        } else if a[1] < u64::MAX {
            (a[1] + 1, false)
        } else {
            (0, true)
        };
        let (r2, c2): (u64, bool) = if !c1 {
            (a[2], false)
        } else if a[2] < u64::MAX {
            (a[2] + 1, false)
        } else {
            (0, true)
        };
        let (r3, c3): (u64, bool) = if !c2 {
            (a[3], false)
        } else if a[3] < u64::MAX {
            (a[3] + 1, false)
        } else {
            (0, true)
        };
        let s = TokenAmount { limbs: [r0, r1, r2, r3] };
        assert(s.limbs@[0] == r0 && s.limbs@[1] == r1 && s.limbs@[2] == r2 && s.limbs@[3] == r3);
        proof {
            lemma_value_bounds(s.limbs@);
            lemma_wrap_is_mod(self@ + x);
        }
        s
    }
}

/// The limbs of an amount are its digits in base 2^64, least significant
/// first: the amount is their weighted sum, and below 2^256.
pub proof fn amount_is_base_two_64(a: TokenAmount)
    ensures
        a@ == a.limbs[0] as int + a.limbs[1] as int * 0x1_0000_0000_0000_0000int + a.limbs[2] as int
            * 0x1_0000_0000_0000_0000_0000_0000_0000_0000int + a.limbs[3] as int
            * 0x1_0000_0000_0000_0000_0000_0000_0000_0000_0000_0000_0000_0000int,
        a@ < amount_bound(),
{
    lemma_value_bounds(a.limbs@);
}

} // verus!
