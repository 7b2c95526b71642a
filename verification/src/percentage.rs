//! Fan and pump actuation percentages, stored as a Q13.3 fixed-point value:
//! a signed 16-bit count of eighths of a percent.
use vstd::prelude::*;

verus! {

/// Number of eighths of a percent in 100 percent.
pub const PERCENT_EIGHTHS_MAX: i16 = 800;

/// A 0 to 100 percent value with a resolution of 0.125 percent.
/// The stored value counts eighths of a percent.
#[derive(Debug, Clone, Copy, PartialEq, Eq)]
pub struct Percentage {
    value: i16,
}

/// Errors in creating or using the `Percentage` type.
#[derive(Debug, Clone, Copy, PartialEq, Eq, Structural)]
pub enum PercentageError {
    /// The value lies outside the representable 0 to 100 percent range.
    OutOfValidStateSpace,
}

impl Percentage {
    /// The percentage as a count of eighths of a percent, in spec land.
    pub closed spec fn spec_eighths(self) -> int {
        self.value as int
    }

    /// Every percentage that the library hands out lies between 0 and
    /// 100 percent; constructors establish this and methods preserve it.
    #[verifier::type_invariant]
    pub closed spec fn inv(self) -> bool {
        0 <= self.value <= PERCENT_EIGHTHS_MAX
    }

    /// Construct a percentage from a count of eighths of a percent.
    /// Succeeds exactly on values between 0 (0 percent) and 800 (100 percent).
    pub fn new(eighths: i16) -> (r: Result<Self, PercentageError>)
        ensures
            0 <= eighths <= PERCENT_EIGHTHS_MAX <==> r is Ok,
            r matches Ok(p) ==> p.spec_eighths() == eighths && p.inv(),
            !(0 <= eighths <= PERCENT_EIGHTHS_MAX) ==> r == Err::<Self, PercentageError>(
                PercentageError::OutOfValidStateSpace,
            ),
    {
        if eighths < 0 || eighths > PERCENT_EIGHTHS_MAX {
            return Err(PercentageError::OutOfValidStateSpace);
        }
        Ok(Self { value: eighths })
    }

    /// Construct a percentage from a count of eighths of a percent that is
    /// already known to be in range.
    pub(crate) fn from_eighths(eighths: i16) -> (r: Self)
        requires
            0 <= eighths <= PERCENT_EIGHTHS_MAX,
        ensures
            r.spec_eighths() == eighths,
    {
        Self { value: eighths }
    }

    /// The underlying count of eighths of a percent.
    pub fn value(&self) -> (r: i16)
        ensures
            r == self.spec_eighths(),
            0 <= r <= PERCENT_EIGHTHS_MAX,
    {
        proof {
            use_type_invariant(self);
        }
        self.value
    }

    /// Subtract a percentage from this percentage. Succeeds exactly when the
    /// difference is still a valid percentage, that is when `rhs` is no
    /// larger than `self`.
    pub fn sub(&self, rhs: Self) -> (r: Result<Self, PercentageError>)
        ensures
            rhs.spec_eighths() <= self.spec_eighths() <==> r is Ok,
            r matches Ok(p) ==> p.spec_eighths() == self.spec_eighths() - rhs.spec_eighths(),
            rhs.spec_eighths() > self.spec_eighths() ==> r == Err::<Self, PercentageError>(
                PercentageError::OutOfValidStateSpace,
            ),
    {
        proof {
            use_type_invariant(self);
            use_type_invariant(rhs);
        }
        Self::new(self.value - rhs.value)
    }
}

} // verus!
