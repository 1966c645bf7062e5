//! Observers, frames and sky positions, end to end at the data level.

use supernovas::catalog::CatalogEntry;
use supernovas::error::Error;
use supernovas::frame::{Frame, HorizontalOutcome};
use supernovas::observer::{Observer, ObserverLocation, ObserverSite};
use supernovas::scalar::{Scalar, Vector3};
use supernovas::sky::{SkyPosition, SkyReport, CATALOG_OBJECT_TYPE};
use supernovas::time::{Timescale, Timespec};
use supernovas::{Accuracy, ReferenceSystem};

fn s(v: f64) -> Scalar {
    Scalar::from_bits(v.to_bits())
}

fn surface_observer() -> Observer {
    Observer::new_on_surface(s(37.2339), s(-118.282), s(1222.0), s(10.0), s(1010.0))
}

#[test]
fn surface_observer_reads_back_exact_inputs() {
    let o = surface_observer();
    assert_eq!(o.location(), ObserverLocation::Surface);
    let p = o.surface().unwrap();
    assert_eq!(f64::from_bits(p.latitude.bits()), 37.2339);
    assert_eq!(f64::from_bits(p.longitude.bits()), -118.282);
    assert_eq!(f64::from_bits(p.elevation.bits()), 1222.0);
    assert_eq!(f64::from_bits(p.temperature.bits()), 10.0);
    assert_eq!(f64::from_bits(p.pressure.bits()), 1010.0);
    assert!(o.space().is_none());
}

#[test]
fn geocenter_observer_has_no_parameters() {
    let o = Observer::new_at_geocenter();
    assert_eq!(o.location(), ObserverLocation::Geocenter);
    assert!(o.surface().is_none());
    assert!(o.space().is_none());
    assert_eq!(o.site, ObserverSite::Geocenter);
}

#[test]
fn space_observer_reads_back_state_vector() {
    let pos = Vector3::new(s(6524.834), s(6862.875), s(6448.296));
    let vel = Vector3::new(s(4.901327), s(5.533756), s(-1.976341));
    let o = Observer::new_in_space(pos, vel);
    assert_eq!(o.location(), ObserverLocation::Space);
    let sp = o.space().unwrap();
    assert_eq!(f64::from_bits(sp.position.y.bits()), 6862.875);
    assert_eq!(f64::from_bits(sp.velocity.z.bits()), -1.976341);
}

fn utc_2024_09_17_time() -> Timespec {
    // 2024-09-17T06:12:18 UTC expressed in TT by the external time
    // collaborator: the TT split, the leap count and the published
    // UT1-UTC delta are its outputs, consumed here as given.
    Timespec::from_split_time(Timescale::TT, 2460570, s(0.759236), 37, s(0.0153))
}

#[test]
fn timespec_stores_the_split_exactly() {
    let t = utc_2024_09_17_time();
    assert_eq!(t.ijd_tt, 2460570);
    assert_eq!(f64::from_bits(t.fjd_tt.bits()), 0.759236);
    assert_eq!(t.leap_seconds, 37);
    assert_eq!(f64::from_bits(t.dut1.bits()), 0.0153);
}

#[test]
fn frame_surfaces_engine_refusal_opaquely() {
    let o = surface_observer();
    let t = utc_2024_09_17_time();
    let err = Frame::new(Accuracy::Reduced, &o, &t, s(0.0), s(0.0), 70).unwrap_err();
    assert_eq!(err, Error::LowerLevel(70));
}

#[test]
fn frame_copies_its_inputs() {
    let o = surface_observer();
    let t = utc_2024_09_17_time();
    let f = Frame::new(Accuracy::Reduced, &o, &t, s(0.1), s(-0.2), 0).unwrap();
    assert_eq!(f.accuracy, Accuracy::Reduced);
    assert_eq!(f.observer, o);
    assert_eq!(f.time, t);
    assert_eq!(f64::from_bits(f.dx.bits()), 0.1);
    assert_eq!(f64::from_bits(f.dy.bits()), -0.2);
}

#[test]
fn identical_inputs_build_identical_frames() {
    let o = surface_observer();
    let t = utc_2024_09_17_time();
    let f1 = Frame::new(Accuracy::Full, &o, &t, s(0.0), s(0.0), 0).unwrap();
    let f2 = Frame::new(Accuracy::Full, &o, &t, s(0.0), s(0.0), 0).unwrap();
    assert_eq!(f1, f2);
}

fn vega() -> CatalogEntry {
    CatalogEntry::new(
        "Vega",
        "HIP",
        91262,
        s(18.615649),
        s(38.783689),
        s(200.94),
        s(19.23725227),
        s(130.23),
        s(-13.5),
    )
    .unwrap()
}

fn good_report() -> SkyReport {
    SkyReport {
        status: 0,
        ra: s(18.6),
        dec: s(38.8),
        rad_vel: s(-13.45),
        dis: s(0.0),
        r_hat: Vector3::new(s(0.1), s(0.2), s(0.3)),
    }
}

#[test]
fn sky_request_carries_object_frame_and_system() {
    let o = surface_observer();
    let t = utc_2024_09_17_time();
    let f = Frame::new(Accuracy::Reduced, &o, &t, s(0.0), s(0.0), 0).unwrap();
    let e = vega();
    let req = SkyPosition::try_from_frame_entry(&e, &f, ReferenceSystem::CIRS);
    assert_eq!(req.object.object_type, CATALOG_OBJECT_TYPE);
    assert_eq!(req.object.entry.name().as_slice(), b"Vega");
    assert_eq!(req.frame, f);
    assert_eq!(req.ref_sys_code, 2);
}

#[test]
fn place_request_carries_every_input() {
    let o = Observer::new_at_geocenter();
    let e = vega();
    let req = SkyPosition::place(
        s(2460570.75),
        &e,
        &o,
        s(69.18),
        ReferenceSystem::GCRS,
        Accuracy::Full,
    );
    assert_eq!(f64::from_bits(req.jd_tt.bits()), 2460570.75);
    assert_eq!(req.entry.number(), 91262);
    assert_eq!(req.observer, o);
    assert_eq!(f64::from_bits(req.ut1_to_tt.bits()), 69.18);
    assert_eq!(req.ref_sys_code, 0);
    assert_eq!(req.accuracy_code, 0);
}

#[test]
fn sky_position_is_exposed_only_on_success() {
    let rep = good_report();
    let p = SkyPosition::from_report(&rep).unwrap();
    assert_eq!(f64::from_bits(p.ra().bits()), 18.6);
    assert_eq!(f64::from_bits(p.dec().bits()), 38.8);
    assert_eq!(f64::from_bits(p.rad_vel().bits()), -13.45);

    let mut bad = rep;
    bad.status = 13;
    assert_eq!(SkyPosition::from_report(&bad).unwrap_err(), Error::LowerLevel(13));
}

#[test]
fn distance_uses_the_zero_sentinel() {
    let mut rep = good_report();
    assert!(SkyPosition::from_report(&rep).unwrap().distance().is_none());
    rep.dis = s(-0.0);
    assert!(SkyPosition::from_report(&rep).unwrap().distance().is_none());
    rep.dis = s(1.52);
    let d = SkyPosition::from_report(&rep).unwrap().distance().unwrap();
    assert_eq!(f64::from_bits(d.bits()), 1.52);
}

#[test]
fn local_coordinates_compose_the_two_engine_answers() {
    let o = surface_observer();
    let t = utc_2024_09_17_time();
    let f = Frame::new(Accuracy::Reduced, &o, &t, s(0.0), s(0.0), 0).unwrap();
    let rep = good_report();
    let reduced = HorizontalOutcome { azimuth: s(294.3286), elevation: s(37.6468) };
    let out = f
        .apparent_local_coordinates(ReferenceSystem::CIRS, &rep, &reduced)
        .unwrap();
    assert_eq!(f64::from_bits(out.azimuth.bits()), 294.3286);
    assert_eq!(f64::from_bits(out.elevation.bits()), 37.6468);
    assert_eq!(out.request.frame, f);
    assert_eq!(out.request.ref_sys_code, 2);
    assert_eq!(f64::from_bits(out.request.ra.bits()), 18.6);
    assert_eq!(f64::from_bits(out.request.dec.bits()), 38.8);
    assert!(!out.request.refraction);
}

#[test]
fn local_coordinates_surface_a_failed_resolution() {
    let o = surface_observer();
    let t = utc_2024_09_17_time();
    let f = Frame::new(Accuracy::Reduced, &o, &t, s(0.0), s(0.0), 0).unwrap();
    let mut rep = good_report();
    rep.status = -3;
    let reduced = HorizontalOutcome { azimuth: s(0.0), elevation: s(0.0) };
    assert_eq!(
        f.apparent_local_coordinates(ReferenceSystem::CIRS, &rep, &reduced)
            .unwrap_err(),
        Error::LowerLevel(-3)
    );
}
