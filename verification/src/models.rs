//! Small self-contained value models: a bounded rotation speed with its
//! maximum as a type parameter, a packet discriminator, and a CPU clock
//! frequency.
use vstd::prelude::*;

verus! {

/// A rotation speed bounded by a compile-time maximum, in whole RPM.
#[derive(Debug, Clone, Copy, PartialEq, Eq)]
pub struct Rpm<const MAX: u16> {
    pub value: u16,
}

/// Errors in creating a bounded rotation speed.
#[derive(Debug, Clone, Copy, PartialEq, Eq, Structural)]
pub enum RpmError {
    /// The value lies above the compile-time maximum.
    InvalidRange,
}

impl<const MAX: u16> Rpm<MAX> {
    /// Construct a speed; succeeds exactly on values up to the maximum.
    pub fn new(value: u16) -> (r: Result<Self, RpmError>)
        ensures
            value <= MAX <==> r is Ok,
            r matches Ok(rpm) ==> rpm.value == value,
            value > MAX ==> r == Err::<Self, RpmError>(RpmError::InvalidRange),
    {
        if value > MAX {
            return Err(RpmError::InvalidRange);
        }
        Ok(Self { value })
    }

    /// Construct a speed from a normalized 16-bit reading, scaled down by
    /// the byte range.
    pub fn try_from_norm(norm: u16) -> (r: Result<Self, RpmError>)
        ensures
            norm / 255 <= MAX <==> r is Ok,
            r matches Ok(rpm) ==> rpm.value == norm / 255,
    {
        Self::new(norm / 255)
    }

    /// Convert to a normalized byte: zero RPM maps to 0 and the full 16-bit
    /// range to 255.
    pub fn into_norm(self) -> (r: u8)
        ensures
            r == self.value * 255 / 65535,
    {
        proof {
            vstd::arithmetic::div_mod::lemma_div_is_ordered(
                self.value * 255,
                65535int * 255,
                65535int,
            );
        }
        ((self.value as u32) * 255 / 65535) as u8
    }
}

/// Discriminates the kinds of traffic the wire carries.
#[derive(Debug, Clone, Copy, PartialEq, Eq, Structural)]
pub enum PacketType {
    RequestConnection,
    AcceptConnection,
    ReportClientSensorState,
    ControlState,
}

/// A CPU clock frequency in megahertz.
#[derive(Debug, Clone, Copy, PartialEq, Eq, Structural)]
pub struct ClockFrequency {
    pub megahertz: u16,
}

/// Errors in creating a clock frequency.
#[derive(Debug, Clone, Copy, PartialEq, Eq, Structural)]
pub enum ClockFrequencyError {
    /// The frequency lies outside the supported range.
    OutOfRange,
}

impl ClockFrequency {
    /// Construct a clock frequency; succeeds exactly up to 5000 megahertz.
    pub fn new(megahertz: u16) -> (r: Result<Self, ClockFrequencyError>)
        ensures
            megahertz <= 5000 <==> r is Ok,
            r matches Ok(c) ==> c.megahertz == megahertz,
            megahertz > 5000 ==> r == Err::<Self, ClockFrequencyError>(
                ClockFrequencyError::OutOfRange,
            ),
    {
        if megahertz > 5000 {
            return Err(ClockFrequencyError::OutOfRange);
        }
        Ok(ClockFrequency { megahertz })
    }
}

} // verus!
