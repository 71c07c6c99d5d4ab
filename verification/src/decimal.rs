use vstd::prelude::*;

verus! {

/// Number of thousandths that make up one whole.
pub const SCALE: u64 = 1000;

/// A non-negative decimal number with three fractional digits, stored as a
/// count of thousandths.
#[derive(Clone, Copy, Debug, PartialEq, Eq, Structural)]
pub struct Decimal {
    pub thousandths: u64,
}

/// `x` where it fits a `u64`, else the nearest `u64`.
pub open spec fn saturate(x: int) -> u64 {
    if x < 0 {
        0
    } else if x > u64::MAX {
        u64::MAX
    } else {
        x as u64
    }
}

impl Decimal {
    /// The decimal made of `thousandths` thousandths.
    pub fn from_thousandths(thousandths: u64) -> (d: Decimal)
        ensures
            d.thousandths == thousandths,
    {
        Decimal { thousandths }
    }

    /// The decimal nearest to `thousandths` thousandths.
    pub fn saturating_from_thousandths(thousandths: u128) -> (d: Decimal)
        ensures
            d.thousandths == saturate(thousandths as int),
    {
        if thousandths > u64::MAX as u128 {
            Decimal { thousandths: u64::MAX }
        } else {
            Decimal { thousandths: thousandths as u64 }
        }
    }

    /// The decimal `whole + fraction / 1000`, or `None` where it is too large
    /// to hold or `fraction` is not below 1000.
    pub fn from_parts(whole: u64, fraction: u16) -> (d: Option<Decimal>)
        ensures
            d is Some <==> fraction < 1000 && whole * 1000 + fraction <= u64::MAX,
            d matches Some(v) ==> v.thousandths == whole * 1000 + fraction,
    {
        if fraction >= 1000 {
            return None;
        }
        match whole.checked_mul(SCALE) {
            Some(scaled) => match scaled.checked_add(fraction as u64) {
                Some(thousandths) => Some(Decimal { thousandths }),
                None => None,
            },
            None => None,
        }
    }

    /// Zero.
    pub fn zero() -> (d: Decimal)
        ensures
            d.thousandths == 0,
    {
        Decimal { thousandths: 0 }
    }

    /// The whole part.
    pub fn whole(&self) -> (w: u64)
        ensures
            w == self.thousandths / 1000,
    {
        self.thousandths / SCALE
    }

    /// The fractional part, in thousandths.
    pub fn fraction(&self) -> (f: u16)
        ensures
            f == self.thousandths % 1000,
    {
        (self.thousandths % SCALE) as u16
    }
}

} // verus!
