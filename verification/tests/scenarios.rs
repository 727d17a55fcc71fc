use assert_within::check::{check_additive, check_relative};
use assert_within::message::Diagnostics;
use assert_within::outcome::{ComparisonFacts, FailureKind, Operand};

fn additive_facts(eps: f64, val: f64, target: f64) -> ComparisonFacts {
    ComparisonFacts {
        tolerance_is_nan: eps.is_nan(),
        tolerance_is_negative: eps < 0.0,
        measurement_is_nan: val.is_nan(),
        target_is_nan: target.is_nan(),
        below_lower_bound: val < target - eps,
        above_upper_bound: val > target + eps,
    }
}

fn relative_facts(eps: f64, val: f64, target: f64) -> ComparisonFacts {
    ComparisonFacts {
        tolerance_is_nan: eps.is_nan(),
        tolerance_is_negative: eps < 0.0,
        measurement_is_nan: val.is_nan(),
        target_is_nan: target.is_nan(),
        below_lower_bound: val < (1.0 - eps) * target,
        above_upper_bound: val > (1.0 + eps) * target,
    }
}

fn diag(eps: f64, val: f64, target: f64) -> Diagnostics {
    Diagnostics {
        site: "tests/scenarios.rs:1".to_string(),
        measurement_label: "val".to_string(),
        target_label: "target".to_string(),
        measurement_text: format!("{val}"),
        target_text: format!("{target}"),
        tolerance_text: format!("{eps}"),
        context: String::new(),
    }
}

#[test]
fn additive_within_margin() {
    let (eps, val, target) = (0.001, 1.0005, 1.0);
    let r = check_additive(&additive_facts(eps, val, target), &diag(eps, val, target));
    assert!(r.is_ok());
}

#[test]
fn additive_above_margin() {
    let (eps, val, target) = (0.001, 1.002, 1.0);
    let r = check_additive(&additive_facts(eps, val, target), &diag(eps, val, target));
    assert_eq!(r.unwrap_err().kind, FailureKind::AboveRange);
}

#[test]
fn additive_below_margin() {
    let (eps, val, target) = (0.001, 0.998, 1.0);
    let r = check_additive(&additive_facts(eps, val, target), &diag(eps, val, target));
    assert_eq!(r.unwrap_err().kind, FailureKind::BelowRange);
}

#[test]
fn relative_within_margin() {
    let (eps, val, target) = (0.05, 104.0, 100.0);
    let r = check_relative(&relative_facts(eps, val, target), &diag(eps, val, target));
    assert!(r.is_ok());
}

#[test]
fn relative_near_lower_boundary() {
    let (eps, val, target) = (0.05, 96.0, 100.0);
    let r = check_relative(&relative_facts(eps, val, target), &diag(eps, val, target));
    assert!(r.is_ok());
}

#[test]
fn relative_below_margin() {
    let (eps, val, target) = (0.05, 94.9, 100.0);
    let r = check_relative(&relative_facts(eps, val, target), &diag(eps, val, target));
    assert_eq!(r.unwrap_err().kind, FailureKind::BelowRange);
}

#[test]
fn relative_above_margin() {
    let (eps, val, target) = (0.05, 105.2, 100.0);
    let r = check_relative(&relative_facts(eps, val, target), &diag(eps, val, target));
    assert_eq!(r.unwrap_err().kind, FailureKind::AboveRange);
}

#[test]
fn nan_tolerance_beats_matching_values() {
    let (eps, val, target) = (f64::NAN, 1.0, 1.0);
    let r = check_additive(&additive_facts(eps, val, target), &diag(eps, val, target));
    assert_eq!(r.unwrap_err().kind, FailureKind::InvalidTolerance);
}

#[test]
fn nan_tolerance_beats_matching_values_relative() {
    let (eps, val, target) = (f64::NAN, 1.0, 1.0);
    let r = check_relative(&relative_facts(eps, val, target), &diag(eps, val, target));
    assert_eq!(r.unwrap_err().kind, FailureKind::InvalidTolerance);
}

#[test]
fn negative_tolerance_beats_matching_values() {
    let (eps, val, target) = (-0.5, 2.0, 2.0);
    let r = check_additive(&additive_facts(eps, val, target), &diag(eps, val, target));
    assert_eq!(r.unwrap_err().kind, FailureKind::InvalidTolerance);
    let r = check_relative(&relative_facts(eps, val, target), &diag(eps, val, target));
    assert_eq!(r.unwrap_err().kind, FailureKind::InvalidTolerance);
}

#[test]
fn nan_measurement_names_measurement() {
    let (eps, val, target) = (0.1, f64::NAN, 1.0);
    let r = check_additive(&additive_facts(eps, val, target), &diag(eps, val, target));
    assert_eq!(
        r.unwrap_err().kind,
        FailureKind::NotANumber(Operand::Measurement)
    );
}

#[test]
fn nan_target_names_target() {
    let (eps, val, target) = (0.1, 1.0, f64::NAN);
    let r = check_relative(&relative_facts(eps, val, target), &diag(eps, val, target));
    assert_eq!(r.unwrap_err().kind, FailureKind::NotANumber(Operand::Target));
}

#[test]
fn nan_measurement_examined_before_target() {
    let (eps, val, target) = (0.1, f64::NAN, f64::NAN);
    let r = check_additive(&additive_facts(eps, val, target), &diag(eps, val, target));
    assert_eq!(
        r.unwrap_err().kind,
        FailureKind::NotANumber(Operand::Measurement)
    );
}

#[test]
fn zero_distance_succeeds_for_any_tolerance() {
    for eps in [0.0, 0.001, 1.5, 1.0e9] {
        for target in [0.0, 1.0, -3.25, 1.0e12] {
            let val = target;
            let r = check_additive(&additive_facts(eps, val, target), &diag(eps, val, target));
            assert!(r.is_ok());
        }
        // Relative mode: (1 - eps) * target can exceed a negative target,
        // so zero distance is only owed for non-negative targets.
        for target in [0.0, 1.0, 1.0e12] {
            let val = target;
            let r = check_relative(&relative_facts(eps, val, target), &diag(eps, val, target));
            assert!(r.is_ok());
        }
    }
}

#[test]
fn additive_lower_boundary_inclusive() {
    let (eps, target) = (0.5, 2.0);
    let val = target - eps;
    let r = check_additive(&additive_facts(eps, val, target), &diag(eps, val, target));
    assert!(r.is_ok());
    let val = target - eps - 0.0001;
    let r = check_additive(&additive_facts(eps, val, target), &diag(eps, val, target));
    assert_eq!(r.unwrap_err().kind, FailureKind::BelowRange);
}

#[test]
fn additive_upper_boundary_inclusive() {
    let (eps, target) = (0.5, 2.0);
    let val = target + eps;
    let r = check_additive(&additive_facts(eps, val, target), &diag(eps, val, target));
    assert!(r.is_ok());
    let val = target + eps + 0.0001;
    let r = check_additive(&additive_facts(eps, val, target), &diag(eps, val, target));
    assert_eq!(r.unwrap_err().kind, FailureKind::AboveRange);
}

#[test]
fn relative_lower_boundary_inclusive() {
    let (eps, target) = (0.05, 100.0);
    let val = (1.0 - eps) * target;
    let r = check_relative(&relative_facts(eps, val, target), &diag(eps, val, target));
    assert!(r.is_ok());
    let val = (1.0 - eps) * target - 0.001;
    let r = check_relative(&relative_facts(eps, val, target), &diag(eps, val, target));
    assert_eq!(r.unwrap_err().kind, FailureKind::BelowRange);
}

#[test]
fn relative_upper_boundary_inclusive() {
    let (eps, target) = (0.05, 100.0);
    let val = (1.0 + eps) * target;
    let r = check_relative(&relative_facts(eps, val, target), &diag(eps, val, target));
    assert!(r.is_ok());
    let val = (1.0 + eps) * target + 0.001;
    let r = check_relative(&relative_facts(eps, val, target), &diag(eps, val, target));
    assert_eq!(r.unwrap_err().kind, FailureKind::AboveRange);
}

#[test]
fn repeated_check_repeats_outcome() {
    let (eps, val, target) = (0.001, 1.002, 1.0);
    let facts = additive_facts(eps, val, target);
    let d = diag(eps, val, target);
    let r1 = check_additive(&facts, &d);
    let r2 = check_additive(&facts, &d);
    let f1 = r1.unwrap_err();
    let f2 = r2.unwrap_err();
    assert_eq!(f1.kind, f2.kind);
    assert_eq!(f1.message, f2.message);

    let facts = relative_facts(eps, val, target);
    let r1 = check_relative(&facts, &d);
    let r2 = check_relative(&facts, &d);
    let f1 = r1.unwrap_err();
    let f2 = r2.unwrap_err();
    assert_eq!(f1.kind, f2.kind);
    assert_eq!(f1.message, f2.message);

    let facts = additive_facts(0.1, 1.0, 1.0);
    let r1 = check_additive(&facts, &d);
    let r2 = check_additive(&facts, &d);
    assert_eq!(r1.is_ok(), r2.is_ok());
}
