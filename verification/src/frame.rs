//! Observation frames: the bound place-and-time context every position
//! computation runs against.
//!
//! A frame is an immutable composite of an accuracy mode, an observer,
//! a time record and the celestial-pole offsets.  It owns exact copies
//! of the observer and time it was built from, so it can never outlive
//! them.  Constructed once, read many times.

use vstd::prelude::*;

use crate::error::Error;
use crate::observer::Observer;
use crate::scalar::Scalar;
use crate::sky::{SkyPosition, SkyReport};
use crate::time::Timespec;
use crate::{Accuracy, ReferenceSystem};

verus! {

/// A set of parameters that uniquely defines the place and time of
/// observation.
#[derive(Debug, Clone, Copy, PartialEq, Eq, Structural)]
pub struct Frame {
    /// The accuracy mode the engine computes this frame's positions in.
    pub accuracy: Accuracy,
    /// The observer the frame was built from, copied exactly.
    pub observer: Observer,
    /// The time record the frame was built from, copied exactly.
    pub time: Timespec,
    /// Celestial-pole offset dx, in arcseconds; zero when no correction
    /// is available.
    pub dx: Scalar,
    /// Celestial-pole offset dy, in arcseconds; zero when no correction
    /// is available.
    pub dy: Scalar,
}

impl Frame {
    /// The frame that a given construction describes.
    pub open spec fn spec_new(
        accuracy: Accuracy,
        observer: Observer,
        time: Timespec,
        dx: Scalar,
        dy: Scalar,
    ) -> Frame {
        Frame { accuracy, observer, time, dx, dy }
    }

    /// Construct a frame from an accuracy mode, an observer, a time
    /// record and the celestial-pole offsets.
    ///
    /// The engine initializes its per-frame state for exactly these
    /// inputs and reports a status; `engine_status` is that verdict.  It
    /// is nonzero exactly when the engine's internal precondition checks
    /// failed (for instance an accuracy and observer combination it
    /// cannot serve), and any nonzero status is surfaced opaquely as
    /// [`Error::LowerLevel`], never reinterpreted.  On success the frame
    /// holds exact copies of every input.
    pub fn new(
        accuracy: Accuracy,
        obs: &Observer,
        time: &Timespec,
        dx: Scalar,
        dy: Scalar,
        engine_status: i32,
    ) -> (r: Result<Frame, Error>)
        ensures
            r is Ok <==> engine_status == 0,
            engine_status == 0 ==> r == Ok::<Frame, Error>(
                Frame::spec_new(accuracy, *obs, *time, dx, dy),
            ),
            engine_status != 0 ==> r == Err::<Frame, Error>(Error::LowerLevel(engine_status)),
    {
        if engine_status != 0 {
            return Err(Error::LowerLevel(engine_status));
        }
        Ok(Frame { accuracy, observer: *obs, time: *time, dx, dy })
    }
}

/// Everything the engine's apparent-to-horizontal reduction is to be
/// invoked with.  The refraction flag is always off: the reduction is
/// performed without an atmospheric refraction model by design.
#[derive(Debug, Clone, Copy, PartialEq, Eq, Structural)]
pub struct HorizontalRequest {
    /// The frame whose observer the reduction is for.
    pub frame: Frame,
    /// The engine code of the reference system the coordinates are in.
    pub ref_sys_code: u32,
    /// Apparent right ascension in hours.
    pub ra: Scalar,
    /// Apparent declination in degrees.
    pub dec: Scalar,
    /// Whether an atmospheric refraction model is applied; always off.
    pub refraction: bool,
}

/// What the engine hands back from the apparent-to-horizontal
/// reduction.
#[derive(Debug, Clone, Copy, PartialEq, Eq, Structural)]
pub struct HorizontalOutcome {
    /// Azimuth in degrees, east of north.
    pub azimuth: Scalar,
    /// Elevation above the horizon in degrees.
    pub elevation: Scalar,
}

/// An apparent place reduced to the local horizon, together with the
/// exact reduction request it answers.
#[derive(Debug, Clone, Copy, PartialEq, Eq, Structural)]
pub struct LocalHorizontal {
    /// The reduction the engine was asked for.
    pub request: HorizontalRequest,
    /// Azimuth in degrees, east of north.
    pub azimuth: Scalar,
    /// Elevation above the horizon in degrees.
    pub elevation: Scalar,
}

impl Frame {
    /// The reduction request for an already-resolved apparent position.
    pub open spec fn spec_horizontal_request(
        &self,
        ref_sys: ReferenceSystem,
        pos: SkyPosition,
    ) -> HorizontalRequest {
        HorizontalRequest {
            frame: *self,
            ref_sys_code: ref_sys.spec_code(),
            ra: pos.spec_ra(),
            dec: pos.spec_dec(),
            refraction: false,
        }
    }

    /// Build the engine invocation that reduces an already-resolved
    /// apparent position to local horizontal coordinates for this
    /// frame's observer, with the refraction model disabled.
    pub fn horizontal_request(
        &self,
        ref_sys: ReferenceSystem,
        pos: &SkyPosition,
    ) -> (req: HorizontalRequest)
        ensures
            req == self.spec_horizontal_request(ref_sys, *pos),
            !req.refraction,
    {
        HorizontalRequest {
            frame: *self,
            ref_sys_code: ref_sys.code(),
            ra: pos.ra(),
            dec: pos.dec(),
            refraction: false,
        }
    }

    /// The local coordinates (azimuth and elevation, in degrees) of a
    /// catalog source, assembled from the two engine answers the
    /// computation takes: the sky report for this frame's sky-position
    /// request for the source, and the engine's horizontal reduction of
    /// the resolved place.
    ///
    /// A failed sky report is surfaced as [`Error::LowerLevel`] and the
    /// reduction is never consulted.  On success the result carries the
    /// reduction request that `reduction` must answer — the resolved
    /// right ascension and declination under the same reference system,
    /// refraction disabled — beside the reduced coordinates.
    pub fn apparent_local_coordinates(
        &self,
        ref_sys: ReferenceSystem,
        sky_report: &SkyReport,
        reduction: &HorizontalOutcome,
    ) -> (r: Result<LocalHorizontal, Error>)
        ensures
            r is Ok <==> sky_report.status == 0,
            sky_report.status == 0 ==> r == Ok::<LocalHorizontal, Error>(LocalHorizontal {
                request: self.spec_horizontal_request(
                    ref_sys,
                    SkyPosition::spec_of_report(*sky_report),
                ),
                azimuth: reduction.azimuth,
                elevation: reduction.elevation,
            }),
            sky_report.status != 0 ==> r == Err::<LocalHorizontal, Error>(
                Error::LowerLevel(sky_report.status),
            ),
    {
        let pos = match SkyPosition::from_report(sky_report) {
            Ok(p) => p,
            Err(e) => {
                return Err(e);
            },
        };
        let request = self.horizontal_request(ref_sys, &pos);
        Ok(LocalHorizontal {
            request,
            azimuth: reduction.azimuth,
            elevation: reduction.elevation,
        })
    }
}

/// Constructing a frame twice from identical inputs yields the
/// identical frame, and identical frames and engine reports resolve to
/// identical sky positions: position resolution has no hidden state
/// beyond its inputs.
pub proof fn lemma_observation_idempotent(
    accuracy: Accuracy,
    observer: Observer,
    time: Timespec,
    dx: Scalar,
    dy: Scalar,
    f1: Frame,
    f2: Frame,
    report: SkyReport,
    r1: Result<SkyPosition, Error>,
    r2: Result<SkyPosition, Error>,
)
    requires
        f1 == Frame::spec_new(accuracy, observer, time, dx, dy),
        f2 == Frame::spec_new(accuracy, observer, time, dx, dy),
        r1 == SkyPosition::spec_accept(report),
        r2 == SkyPosition::spec_accept(report),
    ensures
        f1 == f2,
        r1 == r2,
{
}

} // verus!
