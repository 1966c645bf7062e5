//! The ephemeris-provider registry.
//!
//! The numeric engine obtains solar-system body state vectors through
//! three callback shapes.  All three are served from one single-slot
//! registry: at most one provider is active, a new one replaces the old
//! atomically, and every lookup is answered from the slot as it stands
//! at that moment — no lookup ever observes a mixed state.  A lookup
//! issued while the slot is empty fails deterministically.
//!
//! The provider's native units are kilometers for positions and
//! kilometers per day for velocities, keyed by NAIF-style integer body
//! identifiers; the engine expects astronomical units and astronomical
//! units per day, so every component of a provider answer is divided by
//! the astronomical-unit constant carried in the lookup plan.

use vstd::prelude::*;

use crate::error::Error;
use crate::scalar::{Scalar, Vector3};

verus! {

/// Bit pattern of the astronomical unit in kilometers,
/// 149 597 870.700, as fixed by the IAU in 2012.  Every component of a
/// provider's answer is divided by this value to reach the engine's
/// astronomical-unit system.
pub const AU_KM_BITS: u64 = 0x41A1_D55D_5D66_6666;

/// The frame origin a lookup is computed relative to.
#[derive(Debug, Clone, Copy, PartialEq, Eq, Structural)]
pub enum Origin {
    /// The solar-system barycenter.
    Barycenter,
    /// The center of the Sun.
    Heliocenter,
}

impl Origin {
    /// The integer code the numeric engine uses for this origin.
    pub fn code(&self) -> (c: u32)
        ensures
            c == self.spec_code(),
    {
        match self {
            Origin::Barycenter => 0,
            Origin::Heliocenter => 1,
        }
    }

    pub open spec fn spec_code(&self) -> u32 {
        match self {
            Origin::Barycenter => 0,
            Origin::Heliocenter => 1,
        }
    }

    /// The NAIF identifier of the body this origin centers on: the
    /// solar-system barycenter or the Sun.
    pub fn naif_center(&self) -> (c: i32)
        ensures
            c == self.spec_naif_center(),
    {
        match self {
            Origin::Barycenter => 0,
            Origin::Heliocenter => 10,
        }
    }

    pub open spec fn spec_naif_center(&self) -> i32 {
        match self {
            Origin::Barycenter => 0,
            Origin::Heliocenter => 10,
        }
    }
}

/// The eleven canonical bodies of the engine's planet-lookup shapes,
/// plus the solar-system barycenter.
#[derive(Debug, Clone, Copy, PartialEq, Eq, Structural)]
pub enum Planet {
    /// The solar-system barycenter.
    Ssb,
    Mercury,
    Venus,
    Earth,
    Mars,
    Jupiter,
    Saturn,
    Uranus,
    Neptune,
    Pluto,
    Sun,
    Moon,
}

impl Planet {
    /// The integer code the numeric engine uses for this body.
    pub fn code(&self) -> (c: u32)
        ensures
            c == self.spec_code(),
    {
        match self {
            Planet::Ssb => 0,
            Planet::Mercury => 1,
            Planet::Venus => 2,
            Planet::Earth => 3,
            Planet::Mars => 4,
            Planet::Jupiter => 5,
            Planet::Saturn => 6,
            Planet::Uranus => 7,
            Planet::Neptune => 8,
            Planet::Pluto => 9,
            Planet::Sun => 10,
            Planet::Moon => 11,
        }
    }

    pub open spec fn spec_code(&self) -> u32 {
        match self {
            Planet::Ssb => 0,
            Planet::Mercury => 1,
            Planet::Venus => 2,
            Planet::Earth => 3,
            Planet::Mars => 4,
            Planet::Jupiter => 5,
            Planet::Saturn => 6,
            Planet::Uranus => 7,
            Planet::Neptune => 8,
            Planet::Pluto => 9,
            Planet::Sun => 10,
            Planet::Moon => 11,
        }
    }

    /// The NAIF identifier of this body: barycenters of the planetary
    /// systems for the planets, the bodies themselves for the Sun and
    /// the Moon, zero for the solar-system barycenter.
    pub fn naif_id(&self) -> (id: i32)
        ensures
            id == self.spec_naif_id(),
    {
        match self {
            Planet::Ssb => 0,
            Planet::Mercury => 199,
            Planet::Venus => 299,
            Planet::Earth => 399,
            Planet::Mars => 499,
            Planet::Jupiter => 599,
            Planet::Saturn => 699,
            Planet::Uranus => 799,
            Planet::Neptune => 899,
            Planet::Pluto => 999,
            Planet::Sun => 10,
            Planet::Moon => 301,
        }
    }

    pub open spec fn spec_naif_id(&self) -> i32 {
        match self {
            Planet::Ssb => 0,
            Planet::Mercury => 199,
            Planet::Venus => 299,
            Planet::Earth => 399,
            Planet::Mars => 499,
            Planet::Jupiter => 599,
            Planet::Saturn => 699,
            Planet::Uranus => 799,
            Planet::Neptune => 899,
            Planet::Pluto => 999,
            Planet::Sun => 10,
            Planet::Moon => 301,
        }
    }
}

/// A body's state vector, as a provider returns it and as the engine
/// consumes it: a position and a velocity.
#[derive(Debug, Clone, Copy, PartialEq, Eq, Structural)]
pub struct StateVector {
    /// Position components.
    pub position: Vector3,
    /// Velocity components.
    pub velocity: Vector3,
}

/// One fully-determined provider query: which body, relative to which
/// center, at which split epoch, and the unit divisor to apply to every
/// component of the answer.
#[derive(Debug, Clone, Copy, PartialEq, Eq, Structural)]
pub struct LookupCall {
    /// NAIF identifier of the body looked up.
    pub target_id: i32,
    /// NAIF identifier of the center the state is relative to.
    pub center_id: i32,
    /// High part of the split Julian date, in TDB days.
    pub jd_tdb_high: Scalar,
    /// Low part of the split Julian date, in TDB days.
    pub jd_tdb_low: Scalar,
    /// The astronomical unit in kilometers; every component of the
    /// provider's answer is divided by exactly this value.
    pub au_km: Scalar,
}

/// The query a generic lookup resolves to.
pub open spec fn spec_lookup_call(
    target_id: i32,
    origin: Origin,
    jd_tdb_high: Scalar,
    jd_tdb_low: Scalar,
) -> LookupCall {
    LookupCall {
        target_id,
        center_id: origin.spec_naif_center(),
        jd_tdb_high,
        jd_tdb_low,
        au_km: Scalar { bits: AU_KM_BITS },
    }
}

/// The single-slot registry of the active ephemeris provider.
///
/// `P` is whatever stands for an opened provider: the registry keeps at
/// most one value of it alive, replaces it atomically on
/// [`EphemerisRegistry::provide`], and answers every lookup shape from
/// it.  Callers guard a shared registry with a lock held for the
/// duration of a single lookup or replacement, never across a whole
/// position computation.
#[derive(Debug)]
pub struct EphemerisRegistry<P> {
    provider: Option<P>,
}

impl<P> EphemerisRegistry<P> {
    /// The active provider, or nothing before the first provide.
    pub closed spec fn spec_active(&self) -> Option<P> {
        self.provider
    }

    /// The registry a successful provide leaves behind: the new
    /// provider alone, whatever was active before.
    pub closed spec fn spec_after_provide(&self, provider: P) -> EphemerisRegistry<P> {
        EphemerisRegistry { provider: Some(provider) }
    }

    /// How a generic lookup is answered: deterministic failure while
    /// the slot is empty, the fully-determined query otherwise.
    pub open spec fn spec_lookup(
        &self,
        target_id: i32,
        origin: Origin,
        jd_tdb_high: Scalar,
        jd_tdb_low: Scalar,
    ) -> Result<LookupCall, Error> {
        if self.spec_active() is Some {
            Ok(spec_lookup_call(target_id, origin, jd_tdb_high, jd_tdb_low))
        } else {
            Err(Error::EphemNotLoaded)
        }
    }

    /// A registry with no provider: every lookup fails until one is
    /// provided.
    pub fn new() -> (r: EphemerisRegistry<P>)
        ensures
            r.spec_active() is None,
    {
        EphemerisRegistry { provider: None }
    }

    /// Install `provider` as the sole active provider, atomically
    /// replacing any previous one.  Every later lookup is answered from
    /// the new provider alone.
    pub fn provide(&mut self, provider: P)
        ensures
            *final(self) == old(self).spec_after_provide(provider),
            final(self).spec_active() == Some(provider),
    {
        self.provider = Some(provider);
    }

    /// Whether a provider is active.
    pub fn is_loaded(&self) -> (b: bool)
        ensures
            b == (self.spec_active() is Some),
    {
        self.provider.is_some()
    }

    /// The active provider itself, for running a planned query against.
    pub fn active(&self) -> (r: Option<&P>)
        ensures
            r is Some <==> self.spec_active() is Some,
            r matches Some(p) ==> self.spec_active() == Some(*p),
    {
        self.provider.as_ref()
    }

    /// Resolve a generic body-by-identifier lookup, relative to the
    /// solar-system barycenter or the heliocenter, at a split TDB
    /// Julian date.
    ///
    /// Fails with [`Error::EphemNotLoaded`] exactly when no provider is
    /// registered; otherwise returns the fully-determined provider
    /// query, center mapped to its NAIF identifier and the
    /// astronomical-unit divisor fixed.
    pub fn naif_ephem_lookup(
        &self,
        target_id: i32,
        origin: Origin,
        jd_tdb_high: Scalar,
        jd_tdb_low: Scalar,
    ) -> (r: Result<LookupCall, Error>)
        ensures
            r == self.spec_lookup(target_id, origin, jd_tdb_high, jd_tdb_low),
            r is Ok <==> self.spec_active() is Some,
            r matches Err(e) ==> e == Error::EphemNotLoaded,
    {
        if self.provider.is_some() {
            Ok(LookupCall {
                target_id,
                center_id: origin.naif_center(),
                jd_tdb_high,
                jd_tdb_low,
                au_km: Scalar::from_bits(AU_KM_BITS),
            })
        } else {
            Err(Error::EphemNotLoaded)
        }
    }

    /// Resolve the single-epoch planet-lookup shape for one of the
    /// canonical bodies: the body mapped to its NAIF identifier, the
    /// epoch used as the high part of the split date with a zero low
    /// part.
    pub fn lookup_planet(&self, body: Planet, origin: Origin, jd_tdb: Scalar) -> (r: Result<
        LookupCall,
        Error,
    >)
        ensures
            r == self.spec_lookup(body.spec_naif_id(), origin, jd_tdb, Scalar::spec_zero()),
            r is Ok <==> self.spec_active() is Some,
    {
        self.naif_ephem_lookup(body.naif_id(), origin, jd_tdb, Scalar::zero())
    }

    /// Resolve the split-epoch planet-lookup shape for one of the
    /// canonical bodies; meant for the engine's full-accuracy mode,
    /// which carries the epoch as a (high, low) pair for extended
    /// precision.
    pub fn lookup_planet_hp(
        &self,
        body: Planet,
        origin: Origin,
        jd_tdb: (Scalar, Scalar),
    ) -> (r: Result<LookupCall, Error>)
        ensures
            r == self.spec_lookup(body.spec_naif_id(), origin, jd_tdb.0, jd_tdb.1),
            r is Ok <==> self.spec_active() is Some,
    {
        self.naif_ephem_lookup(body.naif_id(), origin, jd_tdb.0, jd_tdb.1)
    }
}

/// What the generic callback shape reports back to the engine: a
/// status, the origin the state is relative to, and the state itself on
/// success.
#[derive(Debug, Clone, Copy, PartialEq, Eq, Structural)]
pub struct GenericAnswer {
    /// Zero for success, nonzero for failure.
    pub status: i32,
    /// The engine code of the origin; this shape always answers
    /// relative to the solar-system barycenter.
    pub origin_code: u32,
    /// The converted state vector; nothing is written on failure.
    pub state: Option<StateVector>,
}

/// What either planet callback shape reports back to the engine.
#[derive(Debug, Clone, Copy, PartialEq, Eq, Structural)]
pub struct PlanetAnswer {
    /// Zero for success, nonzero for failure.
    pub status: i16,
    /// The converted state vector; nothing is written on failure.
    pub state: Option<StateVector>,
}

/// Fold the outcome of a generic-shape lookup — the provider's
/// unit-converted answer, or nothing if no provider was registered or
/// the query failed — into the shape's report.  Any failure degrades to
/// the shape's neutral failure status; no positional data is exposed
/// with it, and nothing ever faults across the boundary.
pub fn answer_generic_shape(outcome: Option<StateVector>) -> (a: GenericAnswer)
    ensures
        a.origin_code == Origin::Barycenter.spec_code(),
        outcome matches Some(v) ==> a.status == 0 && a.state == Some(v),
        outcome is None ==> a.status == -1 && a.state is None,
{
    match outcome {
        Some(v) => GenericAnswer { status: 0, origin_code: Origin::Barycenter.code(), state: Some(v) },
        None => GenericAnswer { status: -1, origin_code: Origin::Barycenter.code(), state: None },
    }
}

/// Fold the outcome of a planet-shape lookup into the shape's report.
/// Any failure degrades to the planet shapes' neutral failure status;
/// no positional data is exposed with it.
pub fn answer_planet_shape(outcome: Option<StateVector>) -> (a: PlanetAnswer)
    ensures
        outcome matches Some(v) ==> a.status == 0 && a.state == Some(v),
        outcome is None ==> a.status == 3 && a.state is None,
{
    match outcome {
        Some(v) => PlanetAnswer { status: 0, state: Some(v) },
        None => PlanetAnswer { status: 3, state: None },
    }
}

/// Unit conversion is one fixed division: whatever the registry's
/// state and whatever the query, a successful lookup always instructs
/// division of every state-vector component by the same constant, the
/// astronomical unit in kilometers as the IAU fixed it in 2012.
pub proof fn lemma_lookup_unit_divisor<P>(
    registry: EphemerisRegistry<P>,
    target_id: i32,
    origin: Origin,
    jd_tdb_high: Scalar,
    jd_tdb_low: Scalar,
)
    ensures
        registry.spec_lookup(target_id, origin, jd_tdb_high, jd_tdb_low) matches Ok(call)
            ==> call.au_km.bits == AU_KM_BITS,
{
}

/// The single-slot discipline of the registry: a lookup issued before
/// any provide fails with the not-loaded error; after a provide, the
/// same lookup succeeds and is answered with the fully-determined
/// query; a second provide leaves only the latest provider active, so
/// no lookup can observe a mixed state.
pub proof fn lemma_registry_single_slot<P>(
    empty: EphemerisRegistry<P>,
    first: P,
    second: P,
    target_id: i32,
    origin: Origin,
    jd_tdb_high: Scalar,
    jd_tdb_low: Scalar,
)
    requires
        empty.spec_active() is None,
    ensures
        empty.spec_lookup(target_id, origin, jd_tdb_high, jd_tdb_low) == Err::<
            LookupCall,
            Error,
        >(Error::EphemNotLoaded),
        empty.spec_after_provide(first).spec_lookup(target_id, origin, jd_tdb_high, jd_tdb_low)
            == Ok::<LookupCall, Error>(
            spec_lookup_call(target_id, origin, jd_tdb_high, jd_tdb_low),
        ),
        empty.spec_after_provide(first).spec_after_provide(second).spec_active() == Some(second),
{
}

} // verus!
