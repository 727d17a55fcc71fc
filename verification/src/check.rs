//! The two check operations: additive and relative tolerance.

use crate::message::{
    additive_message, relative_message, spec_additive_message, spec_relative_message, Diagnostics,
};
use crate::outcome::{
    failure_kind_of, first_violation, kind_of, spec_first_violation, ComparisonFacts, FailureKind,
};
use vstd::prelude::*;

verus! {

/// A failed check: its classification and its complete diagnostic message.
#[derive(Clone, Debug)]
pub struct AssertionFailure {
    /// The classification of the failure.
    pub kind: FailureKind,
    /// The full diagnostic text, ending with the caller's context verbatim.
    pub message: String,
}

/// What `check_additive` returns: success exactly when no condition fails,
/// and otherwise the first failing condition in validation order, classified
/// and carrying the additive-mode message for it.
pub open spec fn additive_check_obeys(
    facts: ComparisonFacts,
    diag: Diagnostics,
    r: Result<(), AssertionFailure>,
) -> bool {
    match spec_first_violation(facts) {
        None => r is Ok,
        Some(v) => r matches Err(f) && f.kind == kind_of(v) && f.message@
            == spec_additive_message(v, diag),
    }
}

/// What `check_relative` returns: as `additive_check_obeys`, but with the
/// relative-mode message.
pub open spec fn relative_check_obeys(
    facts: ComparisonFacts,
    diag: Diagnostics,
    r: Result<(), AssertionFailure>,
) -> bool {
    match spec_first_violation(facts) {
        None => r is Ok,
        Some(v) => r matches Err(f) && f.kind == kind_of(v) && f.message@
            == spec_relative_message(v, diag),
    }
}

/// Checks a measurement against a target under an additive (absolute)
/// tolerance: the accepted interval is the closed
/// `[target - tolerance, target + tolerance]`, whose bound comparisons the
/// caller reports in `facts`.
///
/// The conditions are decided in validation order — NaN tolerance, negative
/// tolerance, NaN measurement, NaN target, below the interval, above the
/// interval — and the first failing one is returned; when none fails the
/// check succeeds.
pub fn check_additive(facts: &ComparisonFacts, diag: &Diagnostics) -> (r: Result<
    (),
    AssertionFailure,
>)
    ensures
        r is Ok <==> spec_first_violation(*facts) is None,
        additive_check_obeys(*facts, *diag, r),
{
    match first_violation(facts) {
        None => Ok(()),
        Some(v) => {
            let kind = failure_kind_of(&v);
            let message = additive_message(&v, diag);
            Err(AssertionFailure { kind, message })
        },
    }
}

/// Checks a measurement against a target under a relative (fractional)
/// tolerance: the accepted interval is the closed
/// `[(1 - tolerance) * target, (1 + tolerance) * target]`, whose bound
/// comparisons the caller reports in `facts`. The formula is applied
/// unchanged when the target is negative, so the bounds do not swap there.
///
/// The conditions are decided in the same validation order as
/// `check_additive`, and the first failing one is returned; when none fails
/// the check succeeds.
pub fn check_relative(facts: &ComparisonFacts, diag: &Diagnostics) -> (r: Result<
    (),
    AssertionFailure,
>)
    ensures
        r is Ok <==> spec_first_violation(*facts) is None,
        relative_check_obeys(*facts, *diag, r),
{
    match first_violation(facts) {
        None => Ok(()),
        Some(v) => {
            let kind = failure_kind_of(&v);
            let message = relative_message(&v, diag);
            Err(AssertionFailure { kind, message })
        },
    }
}

/// Two check results are the same outcome when both succeed, or both fail
/// with the same classification and the same message text.
pub open spec fn same_outcome(
    r1: Result<(), AssertionFailure>,
    r2: Result<(), AssertionFailure>,
) -> bool {
    match (r1, r2) {
        (Result::Ok(()), Result::Ok(())) => true,
        (Result::Err(f1), Result::Err(f2)) => f1.kind == f2.kind && f1.message@ == f2.message@,
        _ => false,
    }
}

/// Law: `check_additive` is a pure function of its inputs — any two results
/// that its contract admits for the same facts and diagnostics are the same
/// outcome, so repeating a check with identical inputs repeats its result.
pub proof fn lemma_check_additive_idempotent(
    facts: ComparisonFacts,
    diag: Diagnostics,
    r1: Result<(), AssertionFailure>,
    r2: Result<(), AssertionFailure>,
)
    requires
        additive_check_obeys(facts, diag, r1),
        additive_check_obeys(facts, diag, r2),
    ensures
        same_outcome(r1, r2),
{
}

/// Law: `check_relative` is a pure function of its inputs — any two results
/// that its contract admits for the same facts and diagnostics are the same
/// outcome, so repeating a check with identical inputs repeats its result.
pub proof fn lemma_check_relative_idempotent(
    facts: ComparisonFacts,
    diag: Diagnostics,
    r1: Result<(), AssertionFailure>,
    r2: Result<(), AssertionFailure>,
)
    requires
        relative_check_obeys(facts, diag, r1),
        relative_check_obeys(facts, diag, r2),
    ensures
        same_outcome(r1, r2),
{
}

} // verus!
