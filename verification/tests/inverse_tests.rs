use geodesic_routines::inverse::{
    antipodal_case, closed_form_method, guessed_method, inverse_symmetry, meridian_outcome,
    AntipodalCase, InverseMethod, MeridianOutcome, StartCase, start_case,
};
use geodesic_routines::lengths::{lengths_plan, IntegralRoute, LengthsPlan, LengthsRequest};

#[test]
fn symmetry_signs() {
    let s = inverse_symmetry(false, false, true);
    assert_eq!((s.lonsign, s.swapp, s.latsign), (1, 1, 1));
    let s = inverse_symmetry(true, true, false);
    assert_eq!((s.lonsign, s.swapp, s.latsign), (-1, -1, -1));
    assert_eq!(s.lonsign_after_swap(), 1);
    assert_eq!(s.azimuth_signs(), (-1, 1));
}

#[test]
fn sine_sign_ignores_swap() {
    for lon in [false, true] {
        for swap in [false, true] {
            for lat in [false, true] {
                let s = inverse_symmetry(lon, swap, lat);
                let (ss, cs) = s.azimuth_signs();
                assert_eq!(ss, s.lonsign);
                assert_eq!(cs, s.swapp * s.latsign);
                assert_eq!(ss * ss, 1);
                assert_eq!(cs * cs, 1);
            }
        }
    }
}

#[test]
fn meridian_outcomes() {
    assert_eq!(meridian_outcome(true, false, false, false, false), MeridianOutcome::Accept { snap_to_zero: false });
    assert_eq!(meridian_outcome(false, true, true, false, false), MeridianOutcome::Accept { snap_to_zero: true });
    assert_eq!(meridian_outcome(true, true, false, true, true), MeridianOutcome::Accept { snap_to_zero: true });
    assert_eq!(meridian_outcome(true, true, false, true, false), MeridianOutcome::Accept { snap_to_zero: false });
    assert_eq!(meridian_outcome(false, false, true, true, true), MeridianOutcome::Reject);
}

#[test]
fn method_choice() {
    assert_eq!(closed_form_method(true, true), Some(InverseMethod::Meridian));
    assert_eq!(closed_form_method(false, true), Some(InverseMethod::Equatorial));
    assert_eq!(closed_form_method(false, false), None);
    assert_eq!(guessed_method(true), InverseMethod::ShortLine);
    assert_eq!(guessed_method(false), InverseMethod::Search);
}

#[test]
fn starting_guess_cases() {
    assert_eq!(start_case(true, true, false), StartCase::Close);
    assert_eq!(start_case(true, false, true), StartCase::Spherical);
    assert_eq!(start_case(false, true, true), StartCase::Spherical);
    assert_eq!(start_case(false, true, false), StartCase::Antipodal);
    assert_eq!(antipodal_case(true, true), AntipodalCase::OblateAxis);
    assert_eq!(antipodal_case(false, true), AntipodalCase::ProlateAxis);
    assert_eq!(antipodal_case(true, false), AntipodalCase::Astroid);
}

fn request(distance: bool, reduced_length: bool, m0: bool, scale12: bool, scale21: bool) -> LengthsRequest {
    LengthsRequest { distance, reduced_length, m0, scale12, scale21 }
}

#[test]
fn lengths_plans() {
    assert_eq!(
        lengths_plan(&request(true, true, false, false, false)),
        LengthsPlan { first_series: true, second_series: true, integral: IntegralRoute::Separate, scales: false }
    );
    assert_eq!(
        lengths_plan(&request(false, true, true, false, false)),
        LengthsPlan { first_series: true, second_series: true, integral: IntegralRoute::Combined, scales: false }
    );
    assert_eq!(
        lengths_plan(&request(true, false, false, false, false)),
        LengthsPlan { first_series: true, second_series: false, integral: IntegralRoute::Unneeded, scales: false }
    );
    assert_eq!(
        lengths_plan(&request(false, true, false, true, true)),
        LengthsPlan { first_series: true, second_series: true, integral: IntegralRoute::Combined, scales: true }
    );
    assert_eq!(
        lengths_plan(&request(false, false, false, false, false)),
        LengthsPlan { first_series: false, second_series: false, integral: IntegralRoute::Unneeded, scales: false }
    );
}
