use vstd::prelude::*;

verus! {

/// Tri-state value of the checked-arithmetic pipeline.
///
/// A computation starts `Val`, and every arithmetic step either stays `Val`
/// or turns it into one of the two poison states.  Once poisoned, all
/// further operations pass the poison through unchanged, so overflow and
/// division by zero are ordinary data until the final conversion point
/// ([`crate::utils::int_to_u64`]).
///
/// The carried value is a `u64`; operations that the fee formulas perform
/// at 32-bit width narrow their result against `u32::MAX` instead
/// (`mul_u32`, `add_int_u32`), which is exactly the checked behaviour of
/// the corresponding `u32` primitives.
#[derive(Clone, Copy, Debug, PartialEq, Eq, Structural)]
pub enum Int {
    Val(u64),
    Overflow,
    DivisionByZero,
}

impl Int {
    /// Checked multiplication by a raw `u64`.
    pub open spec fn spec_mul(self, rhs: u64) -> Int {
        match self {
            Int::Val(v) => if v * rhs <= u64::MAX {
                Int::Val((v * rhs) as u64)
            } else {
                Int::Overflow
            },
            _ => self,
        }
    }

    pub fn mul(self, rhs: u64) -> (r: Int)
        ensures
            r == self.spec_mul(rhs),
    {
        match self {
            Int::Val(v) => match v.checked_mul(rhs) {
                Some(p) => Int::Val(p),
                None => Int::Overflow,
            },
            _ => self,
        }
    }

    /// Checked addition of a raw `u64`.
    pub open spec fn spec_add(self, rhs: u64) -> Int {
        match self {
            Int::Val(v) => if v + rhs <= u64::MAX {
                Int::Val((v + rhs) as u64)
            } else {
                Int::Overflow
            },
            _ => self,
        }
    }

    pub fn add(self, rhs: u64) -> (r: Int)
        ensures
            r == self.spec_add(rhs),
    {
        match self {
            Int::Val(v) => match v.checked_add(rhs) {
                Some(s) => Int::Val(s),
                None => Int::Overflow,
            },
            _ => self,
        }
    }

    /// Checked subtraction of a raw `u64`; underflow poisons with `Overflow`.
    pub open spec fn spec_sub(self, rhs: u64) -> Int {
        match self {
            Int::Val(v) => if v >= rhs {
                Int::Val((v - rhs) as u64)
            } else {
                Int::Overflow
            },
            _ => self,
        }
    }

    pub fn sub(self, rhs: u64) -> (r: Int)
        ensures
            r == self.spec_sub(rhs),
    {
        match self {
            Int::Val(v) => match v.checked_sub(rhs) {
                Some(d) => Int::Val(d),
                None => Int::Overflow,
            },
            _ => self,
        }
    }

    /// Checked division by a raw `u64`; a zero divisor poisons with
    /// `DivisionByZero`.
    pub open spec fn spec_div(self, rhs: u64) -> Int {
        match self {
            Int::Val(v) => if rhs == 0 {
                Int::DivisionByZero
            } else {
                Int::Val((v / rhs) as u64)
            },
            _ => self,
        }
    }

    pub fn div(self, rhs: u64) -> (r: Int)
        ensures
            r == self.spec_div(rhs),
    {
        match self {
            Int::Val(v) => if rhs == 0 {
                Int::DivisionByZero
            } else {
                Int::Val(v / rhs)
            },
            _ => self,
        }
    }

    /// Checked addition of two pipeline values.  A poison on the left wins
    /// over a poison on the right.
    pub open spec fn spec_add_int(self, rhs: Int) -> Int {
        match (self, rhs) {
            (Int::Val(a), Int::Val(b)) => if a + b <= u64::MAX {
                Int::Val((a + b) as u64)
            } else {
                Int::Overflow
            },
            (Int::Val(_), _) => rhs,
            _ => self,
        }
    }

    pub fn add_int(self, rhs: Int) -> (r: Int)
        ensures
            r == self.spec_add_int(rhs),
    {
        match (self, rhs) {
            (Int::Val(a), Int::Val(b)) => match a.checked_add(b) {
                Some(s) => Int::Val(s),
                None => Int::Overflow,
            },
            (Int::Val(_), _) => rhs,
            _ => self,
        }
    }

    /// Checked subtraction of two pipeline values; underflow poisons with
    /// `Overflow`.  A poison on the left wins over a poison on the right.
    pub open spec fn spec_sub_int(self, rhs: Int) -> Int {
        match (self, rhs) {
            (Int::Val(a), Int::Val(b)) => if a >= b {
                Int::Val((a - b) as u64)
            } else {
                Int::Overflow
            },
            (Int::Val(_), _) => rhs,
            _ => self,
        }
    }

    pub fn sub_int(self, rhs: Int) -> (r: Int)
        ensures
            r == self.spec_sub_int(rhs),
    {
        match (self, rhs) {
            (Int::Val(a), Int::Val(b)) => match a.checked_sub(b) {
                Some(d) => Int::Val(d),
                None => Int::Overflow,
            },
            (Int::Val(_), _) => rhs,
            _ => self,
        }
    }

    /// Multiplies in a 128-bit intermediate before dividing and narrowing
    /// back to `u64`, so that an intermediate product above `u64::MAX` does
    /// not yield a false `Overflow`.  A zero denominator yields
    /// `DivisionByZero`; a quotient above `u64::MAX` yields `Overflow`.
    pub open spec fn spec_mul_div(self, numerator: u64, denominator: u64) -> Int {
        match self {
            Int::Val(v) => if denominator == 0 {
                Int::DivisionByZero
            } else if v * numerator / (denominator as int) <= u64::MAX {
                Int::Val((v * numerator / (denominator as int)) as u64)
            } else {
                Int::Overflow
            },
            _ => self,
        }
    }

    pub fn mul_div(self, numerator: u64, denominator: u64) -> (r: Int)
        ensures
            r == self.spec_mul_div(numerator, denominator),
    {
        match self {
            Int::Val(v) => {
                if denominator == 0 {
                    Int::DivisionByZero
                } else {
                    proof {
                        assert(v as int * numerator as int <= u64::MAX as int * u64::MAX as int)
                            by (nonlinear_arith)
                            requires
                                v <= u64::MAX,
                                numerator <= u64::MAX,
                        ;
                    }
                    let wide: u128 = (v as u128) * (numerator as u128);
                    let q: u128 = wide / (denominator as u128);
                    if q <= u64::MAX as u128 {
                        Int::Val(q as u64)
                    } else {
                        Int::Overflow
                    }
                }
            },
            _ => self,
        }
    }

    /// Clamps a `Val` value from below; poison passes through unchanged.
    pub open spec fn spec_at_least(self, floor: u64) -> Int {
        match self {
            Int::Val(v) => if v >= floor {
                Int::Val(v)
            } else {
                Int::Val(floor)
            },
            _ => self,
        }
    }

    pub fn at_least(self, floor: u64) -> (r: Int)
        ensures
            r == self.spec_at_least(floor),
    {
        match self {
            Int::Val(v) => if v >= floor {
                Int::Val(v)
            } else {
                Int::Val(floor)
            },
            _ => self,
        }
    }

    /// Checked multiplication of two raw `u32`s at 32-bit width, as the
    /// fee formulas compute their per-unit products.
    pub open spec fn spec_mul_u32(a: u32, b: u32) -> Int {
        if a * b <= u32::MAX {
            Int::Val((a * b) as u64)
        } else {
            Int::Overflow
        }
    }

    pub fn mul_u32(a: u32, b: u32) -> (r: Int)
        ensures
            r == Int::spec_mul_u32(a, b),
    {
        match a.checked_mul(b) {
            Some(p) => Int::Val(p as u64),
            None => Int::Overflow,
        }
    }

    /// Checked addition of two pipeline values narrowed at 32-bit width.
    pub open spec fn spec_add_int_u32(self, rhs: Int) -> Int {
        match (self, rhs) {
            (Int::Val(a), Int::Val(b)) => if a + b <= u32::MAX {
                Int::Val((a + b) as u64)
            } else {
                Int::Overflow
            },
            (Int::Val(_), _) => rhs,
            _ => self,
        }
    }

    pub fn add_int_u32(self, rhs: Int) -> (r: Int)
        ensures
            r == self.spec_add_int_u32(rhs),
    {
        match (self, rhs) {
            (Int::Val(a), Int::Val(b)) => match a.checked_add(b) {
                Some(s) => if s <= u32::MAX as u64 {
                    Int::Val(s)
                } else {
                    Int::Overflow
                },
                None => Int::Overflow,
            },
            (Int::Val(_), _) => rhs,
            _ => self,
        }
    }
}

/// `Val` carries exactly the checked-`u64` results of the corresponding
/// language primitives, for all operands.
pub proof fn lemma_ops_match_checked_primitives(a: u64, b: u64)
    ensures
        Int::Val(a).spec_mul(b) == (match a.checked_mul(b) {
            Some(p) => Int::Val(p),
            None => Int::Overflow,
        }),
        Int::Val(a).spec_add(b) == (match a.checked_add(b) {
            Some(s) => Int::Val(s),
            None => Int::Overflow,
        }),
        Int::Val(a).spec_sub(b) == (match a.checked_sub(b) {
            Some(d) => Int::Val(d),
            None => Int::Overflow,
        }),
        Int::Val(a).spec_div(b) == (match a.checked_div(b) {
            Some(q) => Int::Val(q),
            None => Int::DivisionByZero,
        }),
{
}

/// Any operation applied to a poisoned value returns the same poison
/// unchanged.
pub proof fn lemma_poison_passes_through(p: Int, a: u64, b: u64, q: Int)
    requires
        !(p matches Int::Val(_)),
    ensures
        p.spec_mul(a) == p,
        p.spec_add(a) == p,
        p.spec_sub(a) == p,
        p.spec_div(a) == p,
        p.spec_add_int(q) == p,
        p.spec_sub_int(q) == p,
        p.spec_mul_div(a, b) == p,
        p.spec_at_least(a) == p,
        p.spec_add_int_u32(q) == p,
{
}

} // verus!
