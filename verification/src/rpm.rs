//! Rotations-per-minute values shared over the wire. Speeds are stored as
//! integer hundredths of an RPM (250.5 RPM is stored as 25050) so that the
//! microcontroller needs no floating point.
use vstd::prelude::*;
use crate::percentage::{Percentage, PERCENT_EIGHTHS_MAX};

verus! {

/// A rotation speed together with the maximum speed the axis can reach.
#[derive(Debug, Clone, Copy, PartialEq, Eq)]
pub struct Rpm {
    /// The maximum speed this value can represent, in hundredths of an RPM.
    max_speed_raw: u32,
    /// The represented speed, in hundredths of an RPM.
    speed_raw: u32,
}

/// Errors in creating or using the `Rpm` type.
#[derive(Debug, Clone, Copy, PartialEq, Eq, Structural)]
pub enum RpmError {
    /// The speed lies outside the valid range: above the maximum speed.
    OutOfValidStateSpace,
}

impl Rpm {
    /// The maximum speed, in hundredths of an RPM, in spec land.
    pub closed spec fn spec_max(self) -> int {
        self.max_speed_raw as int
    }

    /// The current speed, in hundredths of an RPM, in spec land.
    pub closed spec fn spec_speed(self) -> int {
        self.speed_raw as int
    }

    /// The current speed never exceeds the maximum speed; constructors
    /// establish this and methods preserve it.
    #[verifier::type_invariant]
    pub closed spec fn inv(self) -> bool {
        self.speed_raw <= self.max_speed_raw
    }

    /// Construct an RPM value from a maximum and a current speed, both in
    /// hundredths of an RPM. Succeeds exactly when the speed does not exceed
    /// the maximum.
    pub fn new(max_speed: u32, speed: u32) -> (r: Result<Self, RpmError>)
        ensures
            speed <= max_speed <==> r is Ok,
            r matches Ok(rpm) ==> rpm.spec_max() == max_speed && rpm.spec_speed() == speed
                && rpm.inv(),
            speed > max_speed ==> r == Err::<Self, RpmError>(RpmError::OutOfValidStateSpace),
    {
        if speed > max_speed {
            return Err(RpmError::OutOfValidStateSpace);
        }
        Ok(Self { max_speed_raw: max_speed, speed_raw: speed })
    }

    /// The maximum speed this value can represent, in hundredths of an RPM.
    pub fn max_speed(&self) -> (r: u32)
        ensures
            r == self.spec_max(),
    {
        self.max_speed_raw
    }

    /// The current represented speed, in hundredths of an RPM.
    pub fn speed(&self) -> (r: u32)
        ensures
            r == self.spec_speed(),
            r <= self.spec_max(),
    {
        proof {
            use_type_invariant(self);
        }
        self.speed_raw
    }

    /// Subtract another RPM's speed from this one, keeping this RPM's
    /// maximum. Succeeds exactly when the difference is not negative.
    pub fn sub(&self, rhs: Self) -> (r: Result<Self, RpmError>)
        ensures
            rhs.spec_speed() <= self.spec_speed() <==> r is Ok,
            r matches Ok(rpm) ==> rpm.spec_max() == self.spec_max() && rpm.spec_speed()
                == self.spec_speed() - rhs.spec_speed(),
            rhs.spec_speed() > self.spec_speed() ==> r == Err::<Self, RpmError>(
                RpmError::OutOfValidStateSpace,
            ),
    {
        proof {
            use_type_invariant(self);
        }
        if rhs.speed_raw > self.speed_raw {
            return Err(RpmError::OutOfValidStateSpace);
        }
        Self::new(self.max_speed_raw, self.speed_raw - rhs.speed_raw)
    }

    /// Convert the speed into the percentage of the maximum speed that it
    /// reaches, rounded down to the nearest eighth of a percent.
    pub fn into_percentage(&self) -> (r: Percentage)
        requires
            self.spec_max() > 0,
        ensures
            r.spec_eighths() == self.spec_speed() * PERCENT_EIGHTHS_MAX / self.spec_max(),
    {
        proof {
            use_type_invariant(self);
        }
        let eighths: u64 = (self.speed_raw as u64) * (PERCENT_EIGHTHS_MAX as u64) / (
        self.max_speed_raw as u64);
        proof {
            let s = self.spec_speed();
            let m = self.spec_max();
            let k = PERCENT_EIGHTHS_MAX as int;
            vstd::arithmetic::mul::lemma_mul_inequality(s, m, k);
            vstd::arithmetic::mul::lemma_mul_is_commutative(m, k);
            vstd::arithmetic::div_mod::lemma_div_is_ordered(s * k, m * k, m);
            vstd::arithmetic::div_mod::lemma_div_multiples_vanish(k, m);
            vstd::arithmetic::div_mod::lemma_div_pos_is_pos(s * k, m);
            vstd::arithmetic::mul::lemma_mul_nonnegative(s, k);
        }
        Percentage::from_eighths(eighths as i16)
    }
}

} // verus!
