//! Observer positions.
//!
//! An observer is placed at the Earth's geocenter, on the Earth's
//! surface, or in space near the Earth.  The numeric values are opaque
//! to this layer (the numeric engine validates them); they are stored
//! exactly as supplied and read back exactly.

use vstd::prelude::*;

use crate::scalar::{Scalar, Vector3};

verus! {

/// The kind of place an observer can be.
#[derive(Debug, Clone, Copy, PartialEq, Eq, Structural)]
pub enum ObserverLocation {
    /// A hypothetical observer at the Earth's geocenter.
    Geocenter,
    /// An observer on the surface of the Earth.
    Surface,
    /// An observer in space near the Earth, such as a spacecraft.
    Space,
}

/// The parameters that place an observer on the Earth's surface.
#[derive(Debug, Clone, Copy, PartialEq, Eq, Structural)]
pub struct SurfaceSite {
    /// Geodetic (ITRS) latitude in degrees; north positive.
    pub latitude: Scalar,
    /// Geodetic (ITRS) longitude in degrees; east positive.
    pub longitude: Scalar,
    /// Altitude above sea level in meters.
    pub elevation: Scalar,
    /// Ambient temperature in degrees Celsius.
    pub temperature: Scalar,
    /// Atmospheric pressure in millibars.
    pub pressure: Scalar,
}

/// The parameters that place an observer in space near the Earth.
#[derive(Debug, Clone, Copy, PartialEq, Eq, Structural)]
pub struct SpaceSite {
    /// Geocentric position in kilometers.
    pub position: Vector3,
    /// Geocentric velocity in kilometers per second.
    pub velocity: Vector3,
}

/// An observer's place, with the variant's parameters.
#[derive(Debug, Clone, Copy, PartialEq, Eq, Structural)]
pub enum ObserverSite {
    Geocenter,
    Surface(SurfaceSite),
    Space(SpaceSite),
}

/// An observer position, ready to be handed to the numeric engine.
#[derive(Debug, Clone, Copy, PartialEq, Eq, Structural)]
pub struct Observer {
    pub site: ObserverSite,
}

impl Observer {
    /// Construct an observer on the surface of the Earth.  Always
    /// succeeds: the parameters are stored exactly as given.
    pub fn new_on_surface(
        lat: Scalar,
        lon: Scalar,
        elev: Scalar,
        temp: Scalar,
        pressure: Scalar,
    ) -> (o: Observer)
        ensures
            o.site == ObserverSite::Surface(SurfaceSite {
                latitude: lat,
                longitude: lon,
                elevation: elev,
                temperature: temp,
                pressure: pressure,
            }),
    {
        Observer {
            site: ObserverSite::Surface(SurfaceSite {
                latitude: lat,
                longitude: lon,
                elevation: elev,
                temperature: temp,
                pressure,
            }),
        }
    }

    /// Construct an observer in space near the Earth.  Always succeeds:
    /// the state vector is stored exactly as given.
    pub fn new_in_space(pos: Vector3, vel: Vector3) -> (o: Observer)
        ensures
            o.site == ObserverSite::Space(SpaceSite { position: pos, velocity: vel }),
    {
        Observer { site: ObserverSite::Space(SpaceSite { position: pos, velocity: vel }) }
    }

    /// Construct an observer at the Earth's geocenter.
    pub fn new_at_geocenter() -> (o: Observer)
        ensures
            o.site == ObserverSite::Geocenter,
    {
        Observer { site: ObserverSite::Geocenter }
    }

    /// Which kind of place this observer is at.
    pub fn location(&self) -> (l: ObserverLocation)
        ensures
            l == self.spec_location(),
    {
        match self.site {
            ObserverSite::Geocenter => ObserverLocation::Geocenter,
            ObserverSite::Surface(_) => ObserverLocation::Surface,
            ObserverSite::Space(_) => ObserverLocation::Space,
        }
    }

    pub open spec fn spec_location(&self) -> ObserverLocation {
        match self.site {
            ObserverSite::Geocenter => ObserverLocation::Geocenter,
            ObserverSite::Surface(_) => ObserverLocation::Surface,
            ObserverSite::Space(_) => ObserverLocation::Space,
        }
    }

    /// The surface parameters, exactly as supplied at construction, for
    /// a surface observer; nothing for the other variants.
    pub fn surface(&self) -> (s: Option<SurfaceSite>)
        ensures
            match self.site {
                ObserverSite::Surface(p) => s == Some(p),
                _ => s is None,
            },
    {
        match self.site {
            ObserverSite::Surface(p) => Some(p),
            _ => None,
        }
    }

    /// The space state vector, exactly as supplied at construction, for
    /// a space observer; nothing for the other variants.
    pub fn space(&self) -> (s: Option<SpaceSite>)
        ensures
            match self.site {
                ObserverSite::Space(p) => s == Some(p),
                _ => s is None,
            },
    {
        match self.site {
            ObserverSite::Space(p) => Some(p),
            _ => None,
        }
    }
}

} // verus!
