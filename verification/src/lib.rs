//! Observation-frame construction and apparent-position resolution for
//! celestial objects, together with the ephemeris-provider registry that
//! supplies solar-system body state vectors to the numeric astrometry
//! engine.
//!
//! The heavy precession/nutation/aberration numerics live in an external
//! engine; this crate prepares every value that crosses that boundary
//! (validated catalog records, observer records, time records, frame
//! composites, lookup plans) and checks every record that comes back.
//! Engine-side real numbers are carried as opaque IEEE-754 bit patterns
//! ([`scalar::Scalar`]): this layer moves them, never computes with them.

use vstd::prelude::*;

pub mod catalog;
pub mod error;
pub mod frame;
pub mod observer;
pub mod parse;
pub mod registry;
pub mod scalar;
pub mod simbad;
pub mod sky;
pub mod time;
pub mod xml;

verus! {

/// Precision mode for the numeric engine's nutation calculations.
#[derive(Debug, Copy, Clone, PartialEq, Eq, Structural)]
pub enum Accuracy {
    /// Full precision calculations, to micro-arcsecond accuracy.
    Full,
    /// Truncated series, faster, a few milliarcseconds of accuracy.
    Reduced,
}

impl Accuracy {
    /// The integer code the numeric engine uses for this accuracy mode.
    pub fn code(&self) -> (c: u32)
        ensures
            c == self.spec_code(),
    {
        match self {
            Accuracy::Full => 0,
            Accuracy::Reduced => 1,
        }
    }

    pub open spec fn spec_code(&self) -> u32 {
        match self {
            Accuracy::Full => 0,
            Accuracy::Reduced => 1,
        }
    }
}

/// Positional coordinate reference systems.
///
/// These determine only how the celestial pole is to be located, not how
/// velocities are referenced.
#[derive(Debug, Copy, Clone, PartialEq, Eq, Structural)]
pub enum ReferenceSystem {
    /// Geocentric Celestial Reference System: ICRS plus aberration and
    /// gravitational deflection for an observer around Earth.
    GCRS,
    /// True equinox of date: the dynamical system of the true equator
    /// with its origin at the true equinox (pre-IAU-2006, less precise
    /// because it rests on older precession and nutation models).
    TOD,
    /// Celestial Intermediate Reference System: the dynamical system of
    /// the true equator with its origin at the CIO (preferred since
    /// IAU 2006).
    CIRS,
    /// International Celestial Reference System: the equatorial system
    /// fixed to the frame of distant quasars.
    ICRS,
    /// The J2000 dynamical reference system, fixed at the J2000 epoch.
    J2000,
    /// Mean equinox of date: the dynamical system of the mean equator
    /// with its origin at the mean equinox (precession only, no
    /// nutation).
    MOD,
}

impl ReferenceSystem {
    /// The integer code the numeric engine uses for this system.
    pub fn code(&self) -> (c: u32)
        ensures
            c == self.spec_code(),
    {
        match self {
            ReferenceSystem::GCRS => 0,
            ReferenceSystem::TOD => 1,
            ReferenceSystem::CIRS => 2,
            ReferenceSystem::ICRS => 3,
            ReferenceSystem::J2000 => 4,
            ReferenceSystem::MOD => 5,
        }
    }

    pub open spec fn spec_code(&self) -> u32 {
        match self {
            ReferenceSystem::GCRS => 0,
            ReferenceSystem::TOD => 1,
            ReferenceSystem::CIRS => 2,
            ReferenceSystem::ICRS => 3,
            ReferenceSystem::J2000 => 4,
            ReferenceSystem::MOD => 5,
        }
    }
}

} // verus!
