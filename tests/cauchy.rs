use probability::quantile::ProbabilityError;
use probability::{Cauchy, ParameterError};

fn new(x_0: f64, gamma: f64) -> Cauchy {
    Cauchy::new(x_0.to_bits(), gamma.to_bits()).unwrap()
}

#[test]
fn median() {
    assert_eq!(f64::from_bits(new(2.0, 1.0).median()), 2.0);
}

#[test]
fn modes() {
    let modes: Vec<f64> = new(2.0, 1.0).modes().into_iter().map(f64::from_bits).collect();
    assert_eq!(modes, vec![2.0]);
}

#[test]
fn parameters_are_kept() {
    let d = new(35.4, 12.3);
    assert_eq!(f64::from_bits(d.x_0()), 35.4);
    assert_eq!(f64::from_bits(d.gamma()), 12.3);
}

#[test]
fn median_and_modes_are_the_location() {
    for &x_0 in &[-7.5, -0.0, 0.0, 2.0, 1e300, f64::INFINITY] {
        let d = new(x_0, 3.0);
        assert_eq!(d.median(), x_0.to_bits());
        assert_eq!(d.modes(), vec![x_0.to_bits()]);
    }
}

#[test]
fn construction_rejects_a_scale_that_is_not_positive() {
    for &gamma in &[0.0, -0.0, -1.0, -f64::MIN_POSITIVE, f64::NEG_INFINITY, f64::NAN, -f64::NAN] {
        for _ in 0..3 {
            assert_eq!(
                Cauchy::new(2.0f64.to_bits(), gamma.to_bits()).map(|d| d.gamma()),
                Err(ParameterError::NonPositiveScale)
            );
        }
    }
}

#[test]
fn construction_accepts_a_positive_scale() {
    for &gamma in &[8.0, 1e-320, f64::MIN_POSITIVE, f64::MAX, f64::INFINITY] {
        let d = Cauchy::new(2.0f64.to_bits(), gamma.to_bits()).unwrap();
        assert_eq!(d.gamma(), gamma.to_bits());
        assert_eq!(d.x_0(), 2.0f64.to_bits());
    }
}

#[test]
fn inverse_at_the_boundaries() {
    let d = new(2.0, 3.0);
    assert_eq!(d.inverse_bound(0.0f64.to_bits()), Ok(Some(f64::NEG_INFINITY.to_bits())));
    assert_eq!(d.inverse_bound((-0.0f64).to_bits()), Ok(Some(f64::NEG_INFINITY.to_bits())));
    assert_eq!(d.inverse_bound(1.0f64.to_bits()), Ok(Some(f64::INFINITY.to_bits())));
}

#[test]
fn inverse_inside_the_unit_interval_is_left_to_the_formula() {
    let d = new(2.0, 3.0);
    for &p in &[0.1, 0.25, 0.5, 0.75, 0.9, 1e-300, 1.0 - f64::EPSILON / 2.0] {
        assert_eq!(d.inverse_bound(p.to_bits()), Ok(None));
    }
}

#[test]
fn inverse_rejects_what_is_not_a_probability() {
    let d = new(2.0, 3.0);
    for &p in &[-1e-300, -0.5, 1.0 + f64::EPSILON, 2.0, f64::INFINITY, f64::NEG_INFINITY, f64::NAN] {
        assert_eq!(d.inverse_bound(p.to_bits()), Err(ProbabilityError::OutOfRange));
    }
}
