//! Instants in time, normalized to Terrestrial Time.
//!
//! All timescale arithmetic (TAI/UTC/UT1/TDB offsets) is the business of
//! the external time and earth-orientation collaborator: the numeric
//! engine's own TAI-TT conversion carries a known several-microsecond
//! error, so this layer accepts only splits that are already expressed
//! in TT and hands them on unchanged.

use vstd::prelude::*;

use crate::scalar::Scalar;

verus! {

/// Astronomical timescales, in the numeric engine's own order.
#[derive(Debug, Clone, Copy, PartialEq, Eq, Structural)]
pub enum Timescale {
    /// Barycentric Coordinate Time.
    TCB,
    /// Barycentric Dynamical Time.
    TDB,
    /// Geocentric Coordinate Time.
    TCG,
    /// Terrestrial Time.
    TT,
    /// International Atomic Time.
    TAI,
    /// GPS time.
    GPS,
    /// Coordinated Universal Time.
    UTC,
    /// Earth-rotation time, from measured Earth-orientation parameters.
    UT1,
}

impl Timescale {
    /// The integer code the numeric engine uses for this timescale.
    pub fn code(&self) -> (c: u32)
        ensures
            c == self.spec_code(),
    {
        match self {
            Timescale::TCB => 0,
            Timescale::TDB => 1,
            Timescale::TCG => 2,
            Timescale::TT => 3,
            Timescale::TAI => 4,
            Timescale::GPS => 5,
            Timescale::UTC => 6,
            Timescale::UT1 => 7,
        }
    }

    pub open spec fn spec_code(&self) -> u32 {
        match self {
            Timescale::TCB => 0,
            Timescale::TDB => 1,
            Timescale::TCG => 2,
            Timescale::TT => 3,
            Timescale::TAI => 4,
            Timescale::GPS => 5,
            Timescale::UTC => 6,
            Timescale::UT1 => 7,
        }
    }
}

/// An instant, as the split-Julian-date record the numeric engine's time
/// routines are seeded with: integer and fractional Julian day in TT,
/// accumulated leap seconds, and the measured UT1-UTC delta in seconds.
/// Immutable once built.
#[derive(Debug, Clone, Copy, PartialEq, Eq, Structural)]
pub struct Timespec {
    /// Integer part of the Julian date, in TT days.
    pub ijd_tt: i64,
    /// Fractional part of the Julian date, in TT days.  Highest precision
    /// is reached when it is at most one day, but any split is accepted.
    pub fjd_tt: Scalar,
    /// Accumulated leap seconds, as published in IERS Bulletin C.
    pub leap_seconds: i32,
    /// UT1-UTC difference in seconds, as published in IERS Bulletin A.
    pub dut1: Scalar,
}

impl Timespec {
    /// Record an astronomical time given as a split Julian date.
    ///
    /// The split between integer and fractional part may be made in any
    /// convenient way.  The timescale parameter names the scale of the
    /// supplied split; because every conversion between timescales is
    /// delegated to the external time collaborator, only TT itself is
    /// admitted here — handing this layer a split in any other scale is
    /// a programming error, not a runtime failure.
    pub fn from_split_time(
        timescale: Timescale,
        ijd: i64,
        fjd: Scalar,
        leap: i32,
        dut1: Scalar,
    ) -> (t: Timespec)
        requires
            timescale == Timescale::TT,
        ensures
            t.ijd_tt == ijd,
            t.fjd_tt == fjd,
            t.leap_seconds == leap,
            t.dut1 == dut1,
    {
        Timespec { ijd_tt: ijd, fjd_tt: fjd, leap_seconds: leap, dut1 }
    }
}

} // verus!
