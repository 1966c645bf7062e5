//! Astrometric catalog records for sidereal sources, and the bounded
//! coordinate-transform operation on them.
//!
//! The numeric engine stores the object name and the catalog code in
//! fixed-size null-terminated text fields, so both are validated here,
//! at the input boundary: a record only ever holds text that fits the
//! engine's fields and contains no embedded terminator.

use vstd::prelude::*;
use vstd::slice::slice_to_vec;
use vstd::string::StringSliceAdditionalSpecFns;

use crate::error::Error;
use crate::scalar::Scalar;

verus! {

/// Size of the engine's fixed object-name field: the longest name, in
/// bytes, that a record accepts.
pub const SIZE_OF_OBJ_NAME: usize = 51;

/// Size of the engine's fixed catalog-code field: the longest catalog
/// code, in bytes, that a record accepts.
pub const SIZE_OF_CAT_NAME: usize = 4;

/// Text that fits a fixed-size engine field of size `max`: no longer
/// than `max` bytes and free of embedded terminator bytes.
pub open spec fn valid_text(s: Seq<u8>, max: int) -> bool {
    s.len() <= max && forall|i: int| 0 <= i < s.len() ==> s[i] != 0u8
}

/// Whether `b` holds a zero byte, which a null-terminated engine field
/// cannot store.
pub fn contains_nul(b: &[u8]) -> (found: bool)
    ensures
        found == exists|i: int| 0 <= i < b@.len() && b@[i] == 0u8,
{
    let mut k: usize = 0;
    while k < b.len()
        invariant
            0 <= k <= b@.len(),
            forall|i: int| 0 <= i < k ==> b@[i] != 0u8,
        decreases b@.len() - k,
    {
        if b[k] == 0 {
            return true;
        }
        k = k + 1;
    }
    false
}

/// The spec-level contents of a [`CatalogEntry`].
pub ghost struct CatalogModel {
    /// The object name, as bytes.
    pub name: Seq<u8>,
    /// The catalog code, as bytes.
    pub catalog: Seq<u8>,
    /// The object's number within the catalog.
    pub number: i64,
    /// Right ascension in hours.
    pub ra: Scalar,
    /// Declination in degrees.
    pub dec: Scalar,
    /// Proper motion in right ascension, milliarcseconds per year.
    pub pm_ra: Scalar,
    /// Proper motion in declination, milliarcseconds per year.
    pub pm_dec: Scalar,
    /// Parallax in milliarcseconds.
    pub parallax: Scalar,
    /// Radial velocity in kilometers per second.
    pub rad_vel: Scalar,
}

/// Astrometric data for a sidereal object outside the solar system.
/// Immutable except through [`CatalogEntry::apply_transform`].
#[derive(Debug, Clone)]
pub struct CatalogEntry {
    name: Vec<u8>,
    catalog: Vec<u8>,
    number: i64,
    ra: Scalar,
    dec: Scalar,
    pm_ra: Scalar,
    pm_dec: Scalar,
    parallax: Scalar,
    rad_vel: Scalar,
}

impl View for CatalogEntry {
    type V = CatalogModel;

    closed spec fn view(&self) -> CatalogModel {
        CatalogModel {
            name: self.name@,
            catalog: self.catalog@,
            number: self.number,
            ra: self.ra,
            dec: self.dec,
            pm_ra: self.pm_ra,
            pm_dec: self.pm_dec,
            parallax: self.parallax,
            rad_vel: self.rad_vel,
        }
    }
}

impl CatalogEntry {
    /// Every record holds text that fits the engine's fixed fields.
    pub open spec fn wf(&self) -> bool {
        valid_text(self@.name, SIZE_OF_OBJ_NAME as int)
            && valid_text(self@.catalog, SIZE_OF_CAT_NAME as int)
    }

    /// Construct a catalog entry.
    ///
    /// - `name`: the object name
    /// - `catalog`: the catalog identifier
    /// - `number`: the object number in the catalog
    /// - `ra`: right ascension in hours
    /// - `dec`: declination in degrees
    /// - `pm_ra`, `pm_dec`: proper motion in mas/yr
    /// - `parallax`: parallax in mas
    /// - `rad_vel`: radial velocity in km/s
    ///
    /// Fails with [`Error::InvalidString`] exactly when `name` or
    /// `catalog` is too long for the engine's fixed text fields or
    /// contains an embedded terminator byte; otherwise the record holds
    /// the inputs exactly.
    pub fn new(
        name: &str,
        catalog: &str,
        number: i64,
        ra: Scalar,
        dec: Scalar,
        pm_ra: Scalar,
        pm_dec: Scalar,
        parallax: Scalar,
        rad_vel: Scalar,
    ) -> (r: Result<CatalogEntry, Error>)
        ensures
            r is Ok <==> valid_text(name.spec_bytes(), SIZE_OF_OBJ_NAME as int)
                && valid_text(catalog.spec_bytes(), SIZE_OF_CAT_NAME as int),
            r matches Ok(e) ==> e@ == (CatalogModel {
                name: name.spec_bytes(),
                catalog: catalog.spec_bytes(),
                number,
                ra,
                dec,
                pm_ra,
                pm_dec,
                parallax,
                rad_vel,
            }) && e.wf(),
            r matches Err(err) ==> err == Error::InvalidString,
    {
        let name_bytes = name.as_bytes();
        let catalog_bytes = catalog.as_bytes();
        if name_bytes.len() > SIZE_OF_OBJ_NAME {
            return Err(Error::InvalidString);
        }
        if catalog_bytes.len() > SIZE_OF_CAT_NAME {
            return Err(Error::InvalidString);
        }
        if contains_nul(name_bytes) {
            return Err(Error::InvalidString);
        }
        if contains_nul(catalog_bytes) {
            return Err(Error::InvalidString);
        }
        Ok(CatalogEntry {
            name: slice_to_vec(name_bytes),
            catalog: slice_to_vec(catalog_bytes),
            number,
            ra,
            dec,
            pm_ra,
            pm_dec,
            parallax,
            rad_vel,
        })
    }

    /// The object name, as stored for the engine's text field.
    pub fn name(&self) -> (n: &Vec<u8>)
        ensures
            n@ == self@.name,
    {
        &self.name
    }

    /// The catalog code, as stored for the engine's text field.
    pub fn catalog(&self) -> (c: &Vec<u8>)
        ensures
            c@ == self@.catalog,
    {
        &self.catalog
    }

    /// The object number within the catalog.
    pub fn number(&self) -> (n: i64)
        ensures
            n == self@.number,
    {
        self.number
    }

    /// Right ascension in hours.
    pub fn ra(&self) -> (v: Scalar)
        ensures
            v == self@.ra,
    {
        self.ra
    }

    /// Declination in degrees.
    pub fn dec(&self) -> (v: Scalar)
        ensures
            v == self@.dec,
    {
        self.dec
    }

    /// Proper motion in right ascension, mas/yr.
    pub fn pm_ra(&self) -> (v: Scalar)
        ensures
            v == self@.pm_ra,
    {
        self.pm_ra
    }

    /// Proper motion in declination, mas/yr.
    pub fn pm_dec(&self) -> (v: Scalar)
        ensures
            v == self@.pm_dec,
    {
        self.pm_dec
    }

    /// Parallax in milliarcseconds.
    pub fn parallax(&self) -> (v: Scalar)
        ensures
            v == self@.parallax,
    {
        self.parallax
    }

    /// Radial velocity in km/s.
    pub fn rad_vel(&self) -> (v: Scalar)
        ensures
            v == self@.rad_vel,
    {
        self.rad_vel
    }

    /// An exact copy, for embedding this entry in an engine request.
    /// Unlike the derived `Clone`, this copy's contract states that the
    /// contents are kept.
    pub fn duplicate(&self) -> (e: CatalogEntry)
        ensures
            e@ == self@,
    {
        CatalogEntry {
            name: slice_to_vec(self.name.as_slice()),
            catalog: slice_to_vec(self.catalog.as_slice()),
            number: self.number,
            ra: self.ra,
            dec: self.dec,
            pm_ra: self.pm_ra,
            pm_dec: self.pm_dec,
            parallax: self.parallax,
            rad_vel: self.rad_vel,
        }
    }

    /// Prepare a coordinate transformation of this entry.
    ///
    /// Validates the optional replacement catalog code (the same bound
    /// and terminator rule as construction; [`Error::InvalidString`]
    /// exactly when it breaks them), extracts the Julian-date pair the
    /// transformation kind carries (zero for the epochless J2000/ICRS
    /// frame ties), and assembles the exact record set the engine's
    /// transform routine is to be invoked with.  The entry itself is
    /// only changed when the engine's answer is folded back in through
    /// [`CatalogEntry::apply_transform`].
    pub fn transform(
        &self,
        transformation: Transformation,
        new_catalog: Option<&str>,
    ) -> (r: Result<TransformRequest, Error>)
        ensures
            r is Ok <==> match new_catalog {
                Some(c) => valid_text(c.spec_bytes(), SIZE_OF_CAT_NAME as int),
                None => true,
            },
            r matches Ok(req) ==> {
                &&& req.kind_code == transformation.spec_code()
                &&& req.jd_tt_in == transformation.spec_epochs().0
                &&& req.jd_tt_out == transformation.spec_epochs().1
                &&& req.entry@ == self@
                &&& match new_catalog {
                    Some(c) => req.new_catalog matches Some(nc) && nc@ == c.spec_bytes(),
                    None => req.new_catalog is None,
                }
                &&& req.wf()
            },
            r matches Err(err) ==> err == Error::InvalidString,
    {
        let validated: Option<Vec<u8>> = match new_catalog {
            Some(c) => {
                let bytes = c.as_bytes();
                if bytes.len() > SIZE_OF_CAT_NAME {
                    return Err(Error::InvalidString);
                }
                if contains_nul(bytes) {
                    return Err(Error::InvalidString);
                }
                Some(slice_to_vec(bytes))
            },
            None => None,
        };
        let (jd_tt_in, jd_tt_out) = transformation.epochs();
        Ok(TransformRequest {
            kind_code: transformation.code(),
            jd_tt_in,
            jd_tt_out,
            entry: self.duplicate(),
            new_catalog: validated,
        })
    }

    /// Fold the engine's answer to a transform request back into this
    /// entry.
    ///
    /// The engine rewrites the numeric astrometry; the object name and
    /// number are preserved, and the catalog code is replaced exactly
    /// when the request carried a replacement, else kept.
    pub fn apply_transform(&mut self, request: &TransformRequest, outcome: TransformOutcome)
        requires
            request.wf(),
        ensures
            final(self)@.name == old(self)@.name,
            final(self)@.number == old(self)@.number,
            final(self)@.catalog == match request.new_catalog {
                Some(c) => c@,
                None => old(self)@.catalog,
            },
            final(self)@.ra == outcome.ra,
            final(self)@.dec == outcome.dec,
            final(self)@.pm_ra == outcome.pm_ra,
            final(self)@.pm_dec == outcome.pm_dec,
            final(self)@.parallax == outcome.parallax,
            final(self)@.rad_vel == outcome.rad_vel,
            old(self).wf() ==> final(self).wf(),
    {
        match &request.new_catalog {
            Some(c) => {
                self.catalog = c.clone();
            },
            None => {},
        }
        self.ra = outcome.ra;
        self.dec = outcome.dec;
        self.pm_ra = outcome.pm_ra;
        self.pm_dec = outcome.pm_dec;
        self.parallax = outcome.parallax;
        self.rad_vel = outcome.rad_vel;
    }
}

/// Coordinate transformations for [`CatalogEntry::transform`].  The
/// epoch-pair variants carry explicit Julian-date (TT) bounds; the two
/// frame ties between the J2000 dynamical system and ICRS carry none.
#[derive(Debug, Clone, Copy, PartialEq, Eq, Structural)]
pub enum Transformation {
    /// Account for proper motion between two dates in a fixed frame.
    ProperMotion { jd_tt_in: Scalar, jd_tt_out: Scalar },
    /// Rotate the reference frame between two epochs.
    Precession { jd_tt_in: Scalar, jd_tt_out: Scalar },
    /// The combined action of proper motion and precession.
    ChangeEpoch { jd_tt_in: Scalar, jd_tt_out: Scalar },
    /// From the dynamical system of J2000.0 to ICRS.
    J2000ToICRS,
    /// The inverse of the J2000.0-to-ICRS tie.
    ICRSToJ2000,
}

impl Transformation {
    /// The integer code the numeric engine uses for this kind.
    pub fn code(&self) -> (c: u32)
        ensures
            c == self.spec_code(),
    {
        match self {
            Transformation::ProperMotion { .. } => 1,
            Transformation::Precession { .. } => 2,
            Transformation::ChangeEpoch { .. } => 3,
            Transformation::J2000ToICRS => 4,
            Transformation::ICRSToJ2000 => 5,
        }
    }

    pub open spec fn spec_code(&self) -> u32 {
        match self {
            Transformation::ProperMotion { .. } => 1,
            Transformation::Precession { .. } => 2,
            Transformation::ChangeEpoch { .. } => 3,
            Transformation::J2000ToICRS => 4,
            Transformation::ICRSToJ2000 => 5,
        }
    }

    /// The Julian-date pair this kind carries: its explicit bounds for
    /// the epoch-pair kinds, zero for the epochless frame ties.
    pub fn epochs(&self) -> (p: (Scalar, Scalar))
        ensures
            p == self.spec_epochs(),
    {
        match self {
            Transformation::ProperMotion { jd_tt_in, jd_tt_out } => (*jd_tt_in, *jd_tt_out),
            Transformation::Precession { jd_tt_in, jd_tt_out } => (*jd_tt_in, *jd_tt_out),
            Transformation::ChangeEpoch { jd_tt_in, jd_tt_out } => (*jd_tt_in, *jd_tt_out),
            Transformation::J2000ToICRS => (Scalar::zero(), Scalar::zero()),
            Transformation::ICRSToJ2000 => (Scalar::zero(), Scalar::zero()),
        }
    }

    pub open spec fn spec_epochs(&self) -> (Scalar, Scalar) {
        match self {
            Transformation::ProperMotion { jd_tt_in, jd_tt_out } => (*jd_tt_in, *jd_tt_out),
            Transformation::Precession { jd_tt_in, jd_tt_out } => (*jd_tt_in, *jd_tt_out),
            Transformation::ChangeEpoch { jd_tt_in, jd_tt_out } => (*jd_tt_in, *jd_tt_out),
            Transformation::J2000ToICRS => (
                Scalar { bits: crate::scalar::POS_ZERO_BITS },
                Scalar { bits: crate::scalar::POS_ZERO_BITS },
            ),
            Transformation::ICRSToJ2000 => (
                Scalar { bits: crate::scalar::POS_ZERO_BITS },
                Scalar { bits: crate::scalar::POS_ZERO_BITS },
            ),
        }
    }
}

/// Everything the engine's transform routine is to be invoked with: the
/// kind's integer code, the Julian-date pair, the input record, and the
/// validated replacement catalog code, if any.
#[derive(Debug, Clone)]
pub struct TransformRequest {
    /// The engine's integer code for the transformation kind.
    pub kind_code: u32,
    /// Julian date (TT) the input astrometry refers to.
    pub jd_tt_in: Scalar,
    /// Julian date (TT) the output astrometry is to refer to.
    pub jd_tt_out: Scalar,
    /// The record handed to the engine as input.
    pub entry: CatalogEntry,
    /// A validated replacement catalog code, or nothing to keep the old.
    pub new_catalog: Option<Vec<u8>>,
}

impl TransformRequest {
    /// A request only carries a replacement code that fits the engine's
    /// catalog field.
    pub open spec fn wf(&self) -> bool {
        match self.new_catalog {
            Some(c) => valid_text(c@, SIZE_OF_CAT_NAME as int),
            None => true,
        }
    }
}

/// The numeric astrometry the engine hands back for a transform
/// request.
#[derive(Debug, Clone, Copy, PartialEq, Eq, Structural)]
pub struct TransformOutcome {
    /// Transformed right ascension in hours.
    pub ra: Scalar,
    /// Transformed declination in degrees.
    pub dec: Scalar,
    /// Transformed proper motion in right ascension, mas/yr.
    pub pm_ra: Scalar,
    /// Transformed proper motion in declination, mas/yr.
    pub pm_dec: Scalar,
    /// Parallax in milliarcseconds, as the engine returns it.
    pub parallax: Scalar,
    /// Radial velocity in km/s, as the engine returns it.
    pub rad_vel: Scalar,
}

} // verus!
