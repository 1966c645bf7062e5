//! The ephemeris registry: the single slot, the lookup shapes, the
//! unit-conversion constant and the callback answers.

use supernovas::error::Error;
use supernovas::registry::{
    answer_generic_shape, answer_planet_shape, EphemerisRegistry, Origin, Planet, StateVector,
    AU_KM_BITS,
};
use supernovas::scalar::{Scalar, Vector3};

fn s(v: f64) -> Scalar {
    Scalar::from_bits(v.to_bits())
}

#[test]
fn lookup_before_any_provide_fails_deterministically() {
    let reg: EphemerisRegistry<u64> = EphemerisRegistry::new();
    assert!(!reg.is_loaded());
    assert!(reg.active().is_none());
    assert_eq!(
        reg.naif_ephem_lookup(301, Origin::Barycenter, s(2460570.5), s(0.25))
            .unwrap_err(),
        Error::EphemNotLoaded
    );
    assert_eq!(
        reg.lookup_planet(Planet::Mars, Origin::Heliocenter, s(2460570.5))
            .unwrap_err(),
        Error::EphemNotLoaded
    );
    assert_eq!(
        reg.lookup_planet_hp(Planet::Moon, Origin::Barycenter, (s(2460570.5), s(0.25)))
            .unwrap_err(),
        Error::EphemNotLoaded
    );
}

#[test]
fn provide_fills_the_slot_and_lookups_succeed() {
    let mut reg: EphemerisRegistry<u64> = EphemerisRegistry::new();
    reg.provide(1);
    assert!(reg.is_loaded());
    assert_eq!(reg.active(), Some(&1));
    let call = reg
        .naif_ephem_lookup(301, Origin::Barycenter, s(2460570.5), s(0.25))
        .unwrap();
    assert_eq!(call.target_id, 301);
    assert_eq!(call.center_id, 0);
    assert_eq!(f64::from_bits(call.jd_tdb_high.bits()), 2460570.5);
    assert_eq!(f64::from_bits(call.jd_tdb_low.bits()), 0.25);
}

#[test]
fn a_second_provide_replaces_the_first_entirely() {
    let mut reg: EphemerisRegistry<u64> = EphemerisRegistry::new();
    reg.provide(1);
    reg.provide(2);
    assert_eq!(reg.active(), Some(&2));
    assert!(reg
        .naif_ephem_lookup(399, Origin::Barycenter, s(2451545.0), s(0.0))
        .is_ok());
}

#[test]
fn heliocentric_lookups_center_on_the_sun() {
    let mut reg: EphemerisRegistry<u64> = EphemerisRegistry::new();
    reg.provide(9);
    let call = reg
        .naif_ephem_lookup(499, Origin::Heliocenter, s(2451545.0), s(0.0))
        .unwrap();
    assert_eq!(call.center_id, 10);
}

#[test]
fn the_unit_divisor_is_the_iau_astronomical_unit() {
    assert_eq!(f64::from_bits(AU_KM_BITS), 149_597_870.700);
    let mut reg: EphemerisRegistry<u64> = EphemerisRegistry::new();
    reg.provide(1);
    let call = reg
        .naif_ephem_lookup(301, Origin::Barycenter, s(2451545.0), s(0.0))
        .unwrap();
    assert_eq!(call.au_km.bits(), AU_KM_BITS);
    // For a provider answering a fixed state vector, dividing each
    // component by the call's divisor is exactly the division by the
    // astronomical-unit constant.
    let provided = [299195741.4_f64, 0.0, -149597870.7, 149597870.7, 74798935.35, 0.0];
    let converted: Vec<f64> = provided
        .iter()
        .map(|c| c / f64::from_bits(call.au_km.bits()))
        .collect();
    assert_eq!(converted, vec![2.0, 0.0, -1.0, 1.0, 0.5, 0.0]);
}

#[test]
fn planet_lookup_maps_bodies_to_naif_identifiers() {
    assert_eq!(Planet::Ssb.naif_id(), 0);
    assert_eq!(Planet::Mercury.naif_id(), 199);
    assert_eq!(Planet::Venus.naif_id(), 299);
    assert_eq!(Planet::Earth.naif_id(), 399);
    assert_eq!(Planet::Mars.naif_id(), 499);
    assert_eq!(Planet::Jupiter.naif_id(), 599);
    assert_eq!(Planet::Saturn.naif_id(), 699);
    assert_eq!(Planet::Uranus.naif_id(), 799);
    assert_eq!(Planet::Neptune.naif_id(), 899);
    assert_eq!(Planet::Pluto.naif_id(), 999);
    assert_eq!(Planet::Sun.naif_id(), 10);
    assert_eq!(Planet::Moon.naif_id(), 301);
}

#[test]
fn planet_engine_codes_are_in_order() {
    assert_eq!(Planet::Ssb.code(), 0);
    assert_eq!(Planet::Mercury.code(), 1);
    assert_eq!(Planet::Pluto.code(), 9);
    assert_eq!(Planet::Sun.code(), 10);
    assert_eq!(Planet::Moon.code(), 11);
    assert_eq!(Origin::Barycenter.code(), 0);
    assert_eq!(Origin::Heliocenter.code(), 1);
}

#[test]
fn single_epoch_lookup_uses_a_zero_low_part() {
    let mut reg: EphemerisRegistry<u64> = EphemerisRegistry::new();
    reg.provide(1);
    let call = reg
        .lookup_planet(Planet::Jupiter, Origin::Barycenter, s(2460570.5))
        .unwrap();
    assert_eq!(call.target_id, 599);
    assert_eq!(f64::from_bits(call.jd_tdb_high.bits()), 2460570.5);
    assert_eq!(f64::from_bits(call.jd_tdb_low.bits()), 0.0);
}

#[test]
fn split_epoch_lookup_keeps_both_parts() {
    let mut reg: EphemerisRegistry<u64> = EphemerisRegistry::new();
    reg.provide(1);
    let call = reg
        .lookup_planet_hp(Planet::Saturn, Origin::Heliocenter, (s(2460570.0), s(0.5)))
        .unwrap();
    assert_eq!(call.target_id, 699);
    assert_eq!(call.center_id, 10);
    assert_eq!(f64::from_bits(call.jd_tdb_high.bits()), 2460570.0);
    assert_eq!(f64::from_bits(call.jd_tdb_low.bits()), 0.5);
}

fn state() -> StateVector {
    StateVector {
        position: Vector3::new(s(1.0), s(2.0), s(3.0)),
        velocity: Vector3::new(s(0.1), s(0.2), s(0.3)),
    }
}

#[test]
fn generic_shape_answers_barycentric_success_and_neutral_failure() {
    let a = answer_generic_shape(Some(state()));
    assert_eq!(a.status, 0);
    assert_eq!(a.origin_code, 0);
    assert_eq!(a.state, Some(state()));

    let a = answer_generic_shape(None);
    assert_eq!(a.status, -1);
    assert_eq!(a.origin_code, 0);
    assert!(a.state.is_none());
}

#[test]
fn planet_shapes_answer_success_and_neutral_failure() {
    let a = answer_planet_shape(Some(state()));
    assert_eq!(a.status, 0);
    assert_eq!(a.state, Some(state()));

    let a = answer_planet_shape(None);
    assert_eq!(a.status, 3);
    assert!(a.state.is_none());
}
