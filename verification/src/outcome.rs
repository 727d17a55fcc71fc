//! The shared validation-and-comparison policy: which condition of a check
//! fails first, and how each failing condition is classified.

use vstd::prelude::*;

verus! {

/// The outcomes of the per-call conditions, evaluated by the caller at the
/// native precision of its floating-point type.
///
/// For an additive check, `below_lower_bound` is the outcome of
/// `measurement < target - tolerance` and `above_upper_bound` that of
/// `measurement > target + tolerance`. For a relative check they are the
/// outcomes of `measurement < (1 - tolerance) * target` and
/// `measurement > (1 + tolerance) * target`. The bound comparisons are
/// strict, so a measurement exactly on a bound sets neither flag.
#[derive(Clone, Copy, Debug, PartialEq, Eq, Structural)]
pub struct ComparisonFacts {
    /// The tolerance is NaN.
    pub tolerance_is_nan: bool,
    /// The tolerance compares strictly below zero.
    pub tolerance_is_negative: bool,
    /// The measurement is NaN.
    pub measurement_is_nan: bool,
    /// The target is NaN.
    pub target_is_nan: bool,
    /// The measurement compares strictly below the lower bound.
    pub below_lower_bound: bool,
    /// The measurement compares strictly above the upper bound.
    pub above_upper_bound: bool,
}

/// Which operand of a check a failure refers to.
#[derive(Clone, Copy, Debug, PartialEq, Eq, Structural)]
pub enum Operand {
    Measurement,
    Target,
}

/// The first condition of a check that fails, in validation order.
#[derive(Clone, Copy, Debug, PartialEq, Eq, Structural)]
pub enum Violation {
    /// The tolerance is NaN.
    ToleranceNan,
    /// The tolerance is negative.
    ToleranceNegative,
    /// The measurement is NaN.
    MeasurementNan,
    /// The target is NaN.
    TargetNan,
    /// The measurement lies strictly below the accepted interval.
    BelowLowerBound,
    /// The measurement lies strictly above the accepted interval.
    AboveUpperBound,
}

/// The public failure taxonomy.
#[derive(Clone, Copy, Debug, PartialEq, Eq, Structural)]
pub enum FailureKind {
    /// The tolerance is NaN or negative: a caller bug, never a comparison result.
    InvalidTolerance,
    /// The named operand is NaN.
    NotANumber(Operand),
    /// The measurement fell strictly below the accepted interval.
    BelowRange,
    /// The measurement rose strictly above the accepted interval.
    AboveRange,
}

/// The validation order of a check: the conditions are considered in this
/// fixed order and the first one that holds decides the outcome; `None`
/// means the check succeeds.
pub open spec fn spec_first_violation(facts: ComparisonFacts) -> Option<Violation> {
    if facts.tolerance_is_nan {
        Some(Violation::ToleranceNan)
    } else if facts.tolerance_is_negative {
        Some(Violation::ToleranceNegative)
    } else if facts.measurement_is_nan {
        Some(Violation::MeasurementNan)
    } else if facts.target_is_nan {
        Some(Violation::TargetNan)
    } else if facts.below_lower_bound {
        Some(Violation::BelowLowerBound)
    } else if facts.above_upper_bound {
        Some(Violation::AboveUpperBound)
    } else {
        None
    }
}

/// How each violation is classified in the public taxonomy.
pub open spec fn kind_of(v: Violation) -> FailureKind {
    match v {
        Violation::ToleranceNan => FailureKind::InvalidTolerance,
        Violation::ToleranceNegative => FailureKind::InvalidTolerance,
        Violation::MeasurementNan => FailureKind::NotANumber(Operand::Measurement),
        Violation::TargetNan => FailureKind::NotANumber(Operand::Target),
        Violation::BelowLowerBound => FailureKind::BelowRange,
        Violation::AboveUpperBound => FailureKind::AboveRange,
    }
}

/// Finds the first failing condition of a check, in validation order.
pub fn first_violation(facts: &ComparisonFacts) -> (r: Option<Violation>)
    ensures
        r == spec_first_violation(*facts),
{
    if facts.tolerance_is_nan {
        Some(Violation::ToleranceNan)
    } else if facts.tolerance_is_negative {
        Some(Violation::ToleranceNegative)
    } else if facts.measurement_is_nan {
        Some(Violation::MeasurementNan)
    } else if facts.target_is_nan {
        Some(Violation::TargetNan)
    } else if facts.below_lower_bound {
        Some(Violation::BelowLowerBound)
    } else if facts.above_upper_bound {
        Some(Violation::AboveUpperBound)
    } else {
        None
    }
}

/// Classifies a violation in the public taxonomy.
pub fn failure_kind_of(v: &Violation) -> (r: FailureKind)
    ensures
        r == kind_of(*v),
{
    match v {
        Violation::ToleranceNan => FailureKind::InvalidTolerance,
        Violation::ToleranceNegative => FailureKind::InvalidTolerance,
        Violation::MeasurementNan => FailureKind::NotANumber(Operand::Measurement),
        Violation::TargetNan => FailureKind::NotANumber(Operand::Target),
        Violation::BelowLowerBound => FailureKind::BelowRange,
        Violation::AboveUpperBound => FailureKind::AboveRange,
    }
}

/// Law: an invalid tolerance (NaN or negative) makes a check fail with
/// `InvalidTolerance`, whatever the other conditions report — even when the
/// measurement would otherwise match the target. Both check modes share this
/// validation, so it holds of both.
pub proof fn lemma_invalid_tolerance_always_fails(facts: ComparisonFacts)
    requires
        facts.tolerance_is_nan || facts.tolerance_is_negative,
    ensures
        spec_first_violation(facts) matches Some(v) && kind_of(v)
            == FailureKind::InvalidTolerance,
{
}

/// Law: when the tolerance is valid and the measurement or the target is NaN,
/// a check fails with `NotANumber` naming the correct operand; the
/// measurement is examined before the target. Both check modes share this
/// validation, so it holds of both.
pub proof fn lemma_nan_operand_always_fails(facts: ComparisonFacts)
    requires
        !facts.tolerance_is_nan,
        !facts.tolerance_is_negative,
        facts.measurement_is_nan || facts.target_is_nan,
    ensures
        spec_first_violation(facts) matches Some(v) && kind_of(v) == FailureKind::NotANumber(
            if facts.measurement_is_nan {
                Operand::Measurement
            } else {
                Operand::Target
            },
        ),
{
}

/// Law: a measurement that sets neither bound flag is accepted whenever the
/// tolerance is valid and no operand is NaN. The bound comparisons are
/// strict, so this covers a measurement exactly on a bound of the accepted
/// interval as well as one equal to the target.
pub proof fn lemma_within_bounds_succeeds(facts: ComparisonFacts)
    requires
        !facts.tolerance_is_nan,
        !facts.tolerance_is_negative,
        !facts.measurement_is_nan,
        !facts.target_is_nan,
        !facts.below_lower_bound,
        !facts.above_upper_bound,
    ensures
        spec_first_violation(facts) is None,
{
}

} // verus!
