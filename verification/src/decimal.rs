use vstd::prelude::*;

verus! {

/// Ten to the power `n`.
pub open spec fn pow10(n: nat) -> real
    decreases n,
{
    if n == 0 {
        1real
    } else {
        10real * pow10((n - 1) as nat)
    }
}

/// An exact decimal number: `digits` divided by ten to the power `scale`.
///
/// `Decimal { digits: -15, scale: 1 }` is -1.5.
#[derive(Clone, Copy, Debug, PartialEq, Eq, Structural)]
pub struct Decimal {
    pub digits: i64,
    pub scale: u8,
}

impl Decimal {
    /// The number this decimal stands for.
    pub open spec fn value(self) -> real {
        self.digits as real / pow10(self.scale as nat)
    }

    /// The decimal that stands for the integer `n`.
    pub fn whole(n: i64) -> (d: Decimal)
        ensures
            d == (Decimal { digits: n, scale: 0 }),
            d.value() == n as real,
    {
        Decimal { digits: n, scale: 0 }
    }
}

/// A decimal with scale zero stands for its digits.
pub proof fn whole_value(n: i64)
    ensures
        (Decimal { digits: n, scale: 0 }).value() == n as real,
{
    assert(pow10(0) == 1real);
}

} // verus!
