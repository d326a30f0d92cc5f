//! The running score and the text shown for it.

use vstd::prelude::*;

verus! {

/// The points collected so far.
#[derive(Clone, Copy, Debug, PartialEq, Eq, Structural)]
pub struct Score {
    pub val: u32,
}

/// The decimal digits of `n`, as ASCII bytes, most significant first,
/// with no leading zeros (zero itself is the single digit `"0"`).
pub open spec fn spec_decimal(n: nat) -> Seq<u8>
    decreases n,
{
    if n < 10 {
        seq![(48 + n) as u8]
    } else {
        spec_decimal(n / 10).push((48 + n % 10) as u8)
    }
}

impl Score {
    /// A game starts at zero points.
    pub fn new() -> (r: Score)
        ensures
            r.val == 0,
    {
        Score { val: 0 }
    }

    /// The text the score display shows: the score's decimal digits.
    pub fn text(&self) -> (r: Vec<u8>)
        ensures
            r@ == spec_decimal(self.val as nat),
    {
        decimal_digits(self.val)
    }
}

/// Render a number as its decimal digits, most significant first.
pub fn decimal_digits(val: u32) -> (r: Vec<u8>)
    ensures
        r@ == spec_decimal(val as nat),
    decreases val,
{
    if val < 10 {
        let mut r: Vec<u8> = Vec::new();
        r.push(48 + val as u8);
        proof {
            assert(r@ =~= spec_decimal(val as nat));
        }
        r
    } else {
        let mut r = decimal_digits(val / 10);
        r.push(48 + (val % 10) as u8);
        proof {
            assert(r@ =~= spec_decimal(val as nat));
        }
        r
    }
}

} // verus!
