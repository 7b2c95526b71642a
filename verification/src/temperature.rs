//! Host CPU temperature samples, stored as integer hundredths of a degree
//! Celsius so that curve lookups need no floating point.
use vstd::prelude::*;

verus! {

/// Upper bound on a constructible temperature: 100 degrees Celsius, in
/// hundredths of a degree.
pub const TEMPERATURE_CENTI_MAX: i32 = 10000;

/// A CPU temperature in hundredths of a degree Celsius.
#[derive(Debug, Clone, Copy, PartialEq, Eq)]
pub struct Temperature {
    centi_celsius: i32,
}

/// Errors in creating the `Temperature` type.
#[derive(Debug, Clone, Copy, PartialEq, Eq, Structural)]
pub enum TemperatureError {
    /// The temperature lies above the supported 100 degree Celsius maximum.
    TooHigh,
}

impl Temperature {
    /// The temperature as a count of hundredths of a degree Celsius, in spec
    /// land.
    pub closed spec fn spec_centi(self) -> int {
        self.centi_celsius as int
    }

    /// Every temperature lies at or below 100 degrees Celsius; construction
    /// rejects anything higher.
    #[verifier::type_invariant]
    pub closed spec fn inv(self) -> bool {
        self.centi_celsius <= TEMPERATURE_CENTI_MAX
    }

    /// Construct a temperature from hundredths of a degree Celsius. Succeeds
    /// exactly on values at or below 100 degrees.
    pub fn new(centi_celsius: i32) -> (r: Result<Self, TemperatureError>)
        ensures
            centi_celsius <= TEMPERATURE_CENTI_MAX <==> r is Ok,
            r matches Ok(t) ==> t.spec_centi() == centi_celsius,
            centi_celsius > TEMPERATURE_CENTI_MAX ==> r == Err::<Self, TemperatureError>(
                TemperatureError::TooHigh,
            ),
    {
        if centi_celsius > TEMPERATURE_CENTI_MAX {
            return Err(TemperatureError::TooHigh);
        }
        Ok(Self { centi_celsius })
    }

    /// The temperature as a count of hundredths of a degree Celsius.
    pub fn centi_celsius(&self) -> (r: i32)
        ensures
            r == self.spec_centi(),
            r <= TEMPERATURE_CENTI_MAX,
    {
        proof {
            use_type_invariant(self);
        }
        self.centi_celsius
    }
}

} // verus!
