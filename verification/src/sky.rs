//! Resolved apparent places on the sky.
//!
//! The numeric engine fills a sky-position record in place and reports
//! a status.  This layer builds the exact invocation records the engine
//! is to be called with, and accepts the engine's answer only when the
//! status says success, so a partially-filled record is never exposed.

use vstd::prelude::*;

use crate::catalog::CatalogEntry;
use crate::error::Error;
use crate::frame::Frame;
use crate::observer::Observer;
use crate::scalar::{Scalar, Vector3};
use crate::{Accuracy, ReferenceSystem};

verus! {

/// The engine's integer code for an object backed by catalog
/// astrometry (as opposed to a major planet or an ephemeris body).
pub const CATALOG_OBJECT_TYPE: u32 = 2;

/// The engine's object record for a sidereal source: the catalog record
/// wrapped with the engine's catalog-object type code.
#[derive(Debug, Clone)]
pub struct CatalogObject {
    /// The engine's object-type code; always the catalog-object code.
    pub object_type: u32,
    /// The astrometry the object is resolved from.
    pub entry: CatalogEntry,
}

impl CatalogObject {
    /// Wrap a catalog entry in the object form the engine's position
    /// routines take.
    pub fn from_entry(entry: &CatalogEntry) -> (o: CatalogObject)
        ensures
            o.object_type == CATALOG_OBJECT_TYPE,
            o.entry@ == entry@,
    {
        CatalogObject { object_type: CATALOG_OBJECT_TYPE, entry: entry.duplicate() }
    }
}

/// Everything the engine's frame-based sky-position routine is to be
/// invoked with.
#[derive(Debug, Clone)]
pub struct SkyRequest {
    /// The object form of the source.
    pub object: CatalogObject,
    /// The frame the place is computed against.
    pub frame: Frame,
    /// The engine code of the reference system the place is expressed in.
    pub ref_sys_code: u32,
}

/// Everything the engine's frame-less apparent-place routine for a
/// sidereal source is to be invoked with.
#[derive(Debug, Clone)]
pub struct PlaceRequest {
    /// Epoch as a Julian date in TT.
    pub jd_tt: Scalar,
    /// The source's astrometry.
    pub entry: CatalogEntry,
    /// The observer.
    pub observer: Observer,
    /// UT1-TT difference in seconds at the epoch.
    pub ut1_to_tt: Scalar,
    /// The engine code of the reference system.
    pub ref_sys_code: u32,
    /// The engine code of the accuracy mode.
    pub accuracy_code: u32,
}

/// What the engine hands back from a sky-position computation: its
/// status, and the record it filled.  Zero status means success; on a
/// nonzero status the record's contents are meaningless and are never
/// exposed.
#[derive(Debug, Clone, Copy, PartialEq, Eq, Structural)]
pub struct SkyReport {
    /// The engine's status: zero for success.
    pub status: i32,
    /// Right ascension in hours.
    pub ra: Scalar,
    /// Declination in degrees.
    pub dec: Scalar,
    /// Radial velocity in km/s.
    pub rad_vel: Scalar,
    /// True (geometric) distance in astronomical units; zero for a
    /// sidereal source.
    pub dis: Scalar,
    /// Unit vector toward the object (dimensionless).
    pub r_hat: Vector3,
}

/// A celestial object's resolved place on the sky.
#[derive(Debug, Clone, Copy, PartialEq, Eq, Structural)]
pub struct SkyPosition {
    ra: Scalar,
    dec: Scalar,
    rad_vel: Scalar,
    dis: Scalar,
    r_hat: Vector3,
}

impl SkyPosition {
    /// What a successful report resolves to.
    pub closed spec fn spec_of_report(rep: SkyReport) -> SkyPosition {
        SkyPosition {
            ra: rep.ra,
            dec: rep.dec,
            rad_vel: rep.rad_vel,
            dis: rep.dis,
            r_hat: rep.r_hat,
        }
    }

    /// How any engine report is accepted: the filled record exactly when
    /// the status is zero, the status passed through as an opaque
    /// failure otherwise.
    pub closed spec fn spec_accept(rep: SkyReport) -> Result<SkyPosition, Error> {
        if rep.status == 0 {
            Ok(SkyPosition::spec_of_report(rep))
        } else {
            Err(Error::LowerLevel(rep.status))
        }
    }

    /// Accept the engine's answer to a sky-position request.  The
    /// position is exposed exactly when the status is zero; a nonzero
    /// status is surfaced opaquely, never reinterpreted.
    pub fn from_report(report: &SkyReport) -> (r: Result<SkyPosition, Error>)
        ensures
            r == SkyPosition::spec_accept(*report),
            r is Ok <==> report.status == 0,
            report.status == 0 ==> r == Ok::<SkyPosition, Error>(
                SkyPosition::spec_of_report(*report),
            ),
            r matches Ok(p) ==> {
                &&& p.spec_ra() == report.ra
                &&& p.spec_dec() == report.dec
                &&& p.spec_rad_vel() == report.rad_vel
                &&& p.spec_dis() == report.dis
                &&& p.spec_r_hat() == report.r_hat
            },
            r matches Err(e) ==> e == Error::LowerLevel(report.status),
    {
        if report.status == 0 {
            Ok(SkyPosition {
                ra: report.ra,
                dec: report.dec,
                rad_vel: report.rad_vel,
                dis: report.dis,
                r_hat: report.r_hat,
            })
        } else {
            Err(Error::LowerLevel(report.status))
        }
    }

    /// Prepare the apparent place of a catalog source against a frame:
    /// the exact invocation of the engine's sky-position routine, the
    /// object form built from the entry and the reference system mapped
    /// to its engine code.  The engine's answer is folded back in
    /// through [`SkyPosition::from_report`], which accounts for the
    /// proper motion, parallax and accuracy-dependent corrections the
    /// engine applies.
    pub fn try_from_frame_entry(
        entry: &CatalogEntry,
        frame: &Frame,
        ref_sys: ReferenceSystem,
    ) -> (req: SkyRequest)
        ensures
            req.object.object_type == CATALOG_OBJECT_TYPE,
            req.object.entry@ == entry@,
            req.frame == *frame,
            req.ref_sys_code == ref_sys.spec_code(),
    {
        SkyRequest {
            object: CatalogObject::from_entry(entry),
            frame: *frame,
            ref_sys_code: ref_sys.code(),
        }
    }

    /// Prepare the frame-less apparent-place computation of a sidereal
    /// source, taken directly from an epoch and a UT1-TT offset; used
    /// when a full frame is unnecessary.
    ///
    /// - `jd_tt`: epoch as a Julian date in TT
    /// - `entry`: the source's astrometry
    /// - `obs`: the observer
    /// - `ut1_to_tt`: UT1-TT difference in seconds
    /// - `ref_sys`: reference system for the result
    /// - `accuracy`: the accuracy mode to run with
    pub fn place(
        jd_tt: Scalar,
        entry: &CatalogEntry,
        obs: &Observer,
        ut1_to_tt: Scalar,
        ref_sys: ReferenceSystem,
        accuracy: Accuracy,
    ) -> (req: PlaceRequest)
        ensures
            req.jd_tt == jd_tt,
            req.entry@ == entry@,
            req.observer == *obs,
            req.ut1_to_tt == ut1_to_tt,
            req.ref_sys_code == ref_sys.spec_code(),
            req.accuracy_code == accuracy.spec_code(),
    {
        PlaceRequest {
            jd_tt,
            entry: entry.duplicate(),
            observer: *obs,
            ut1_to_tt,
            ref_sys_code: ref_sys.code(),
            accuracy_code: accuracy.code(),
        }
    }

    /// Apparent, topocentric or astrometric right ascension in hours.
    pub fn ra(&self) -> (v: Scalar)
        ensures
            v == self.spec_ra(),
    {
        self.ra
    }

    pub closed spec fn spec_ra(&self) -> Scalar {
        self.ra
    }

    /// Apparent, topocentric or astrometric declination in degrees.
    pub fn dec(&self) -> (v: Scalar)
        ensures
            v == self.spec_dec(),
    {
        self.dec
    }

    pub closed spec fn spec_dec(&self) -> Scalar {
        self.dec
    }

    /// Radial velocity in km/s.
    pub fn rad_vel(&self) -> (v: Scalar)
        ensures
            v == self.spec_rad_vel(),
    {
        self.rad_vel
    }

    pub closed spec fn spec_rad_vel(&self) -> Scalar {
        self.rad_vel
    }

    /// True (geometric, Euclidean) distance to a solar-system body.
    /// A sidereal source carries the engine's zero sentinel there, so
    /// nothing is returned for it.
    pub fn distance(&self) -> (d: Option<Scalar>)
        ensures
            self.spec_dis().spec_is_zero() ==> d is None,
            !self.spec_dis().spec_is_zero() ==> d == Some(self.spec_dis()),
    {
        if self.dis.is_zero() {
            None
        } else {
            Some(self.dis)
        }
    }

    pub closed spec fn spec_dis(&self) -> Scalar {
        self.dis
    }

    /// Unit vector toward the object (dimensionless).
    pub fn r_hat(&self) -> (v: Vector3)
        ensures
            v == self.spec_r_hat(),
    {
        self.r_hat
    }

    pub closed spec fn spec_r_hat(&self) -> Vector3 {
        self.r_hat
    }
}

} // verus!
