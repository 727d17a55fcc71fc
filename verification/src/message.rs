//! Diagnostic messages: for each failing condition, the exact text that a
//! failed check carries.

use crate::outcome::Violation;
use vstd::prelude::*;
use vstd::string::StringExecFns;

verus! {

/// The display text that a check needs for its diagnostics. Every field is
/// supplied by the caller and carries no weight in the comparison itself.
#[derive(Clone, Debug)]
pub struct Diagnostics {
    /// Where the check was invoked, e.g. a file name and line.
    pub site: String,
    /// The source text of the measurement expression.
    pub measurement_label: String,
    /// The source text of the target expression.
    pub target_label: String,
    /// The measurement value in its standard display form.
    pub measurement_text: String,
    /// The target value in its standard display form.
    pub target_text: String,
    /// The tolerance value in its standard display form.
    pub tolerance_text: String,
    /// Free-form text appended verbatim to any failure message; may be empty.
    pub context: String,
}

/// The opening line shared by every failure message.
pub open spec fn spec_message_header(d: Diagnostics) -> Seq<char> {
    "assert_within failed at "@ + d.site@ + ":\n"@
}

/// The message for a failure of the validation shared by both check modes:
/// a NaN or negative tolerance, or a NaN operand.
pub open spec fn spec_validation_message(v: Violation, d: Diagnostics) -> Seq<char>
    recommends
        v is ToleranceNan || v is ToleranceNegative || v is MeasurementNan || v is TargetNan,
{
    match v {
        Violation::ToleranceNan => spec_message_header(d) + "epsilon was Nan: "@
            + d.tolerance_text@ + "\n"@ + d.context@,
        Violation::ToleranceNegative => spec_message_header(d)
            + "Epsilon cannot be negative when used with assert_within! macro: "@
            + d.tolerance_text@ + "\n"@ + d.context@,
        Violation::MeasurementNan => spec_message_header(d) + "`"@ + d.measurement_label@
            + "` was Nan: "@ + d.measurement_text@ + "\n"@ + d.context@,
        _ => spec_message_header(d) + "`"@ + d.target_label@ + "` was Nan: "@ + d.target_text@
            + "\n"@ + d.context@,
    }
}

/// The closing lines of an out-of-range message: both operand values, then
/// the caller's context verbatim.
pub open spec fn spec_values_trailer(d: Diagnostics) -> Seq<char> {
    "\nleft:  "@ + d.measurement_text@ + "\nright: "@ + d.target_text@ + "\n"@ + d.context@
}

/// The message of a failed additive check, for each failing condition.
pub open spec fn spec_additive_message(v: Violation, d: Diagnostics) -> Seq<char> {
    match v {
        Violation::BelowLowerBound => spec_message_header(d) + "`"@ + d.measurement_label@
            + "` was less than `"@ + d.target_label@ + "` - "@ + d.tolerance_text@ + ")"@
            + spec_values_trailer(d),
        Violation::AboveUpperBound => spec_message_header(d) + "`"@ + d.measurement_label@
            + "` was greater than `"@ + d.target_label@ + "` + "@ + d.tolerance_text@ + ")"@
            + spec_values_trailer(d),
        _ => spec_validation_message(v, d),
    }
}

/// The message of a failed relative check, for each failing condition.
pub open spec fn spec_relative_message(v: Violation, d: Diagnostics) -> Seq<char> {
    match v {
        Violation::BelowLowerBound => spec_message_header(d) + "`"@ + d.measurement_label@
            + "` was less than (1 ± "@ + d.tolerance_text@ + ") * `"@ + d.target_label@ + "`"@
            + spec_values_trailer(d),
        Violation::AboveUpperBound => spec_message_header(d) + "`"@ + d.measurement_label@
            + "` was greater than (1 ± "@ + d.tolerance_text@ + ") * `"@ + d.target_label@
            + "`"@ + spec_values_trailer(d),
        _ => spec_validation_message(v, d),
    }
}

/// Builds the opening line shared by every failure message.
fn message_header(d: &Diagnostics) -> (m: String)
    ensures
        m@ == spec_message_header(*d),
{
    let mut m = String::new();
    m.append("assert_within failed at ");
    m.append(d.site.as_str());
    m.append(":\n");
    m
}

/// Builds the message for a failure of the shared validation.
fn validation_message(v: &Violation, d: &Diagnostics) -> (m: String)
    requires
        *v is ToleranceNan || *v is ToleranceNegative || *v is MeasurementNan
            || *v is TargetNan,
    ensures
        m@ == spec_validation_message(*v, *d),
{
    let mut m = message_header(d);
    match v {
        Violation::ToleranceNan => {
            m.append("epsilon was Nan: ");
            m.append(d.tolerance_text.as_str());
        },
        Violation::ToleranceNegative => {
            m.append("Epsilon cannot be negative when used with assert_within! macro: ");
            m.append(d.tolerance_text.as_str());
        },
        Violation::MeasurementNan => {
            m.append("`");
            m.append(d.measurement_label.as_str());
            m.append("` was Nan: ");
            m.append(d.measurement_text.as_str());
        },
        _ => {
            m.append("`");
            m.append(d.target_label.as_str());
            m.append("` was Nan: ");
            m.append(d.target_text.as_str());
        },
    }
    m.append("\n");
    m.append(d.context.as_str());
    m
}

/// Appends the closing lines of an out-of-range message.
fn append_values_trailer(m: &mut String, d: &Diagnostics)
    ensures
        final(m)@ == old(m)@ + spec_values_trailer(*d),
{
    m.append("\nleft:  ");
    m.append(d.measurement_text.as_str());
    m.append("\nright: ");
    m.append(d.target_text.as_str());
    m.append("\n");
    m.append(d.context.as_str());
    proof {
        assert(m@ =~= old(m)@ + spec_values_trailer(*d));
    }
}

/// Builds the message of a failed additive check.
pub fn additive_message(v: &Violation, d: &Diagnostics) -> (m: String)
    ensures
        m@ == spec_additive_message(*v, *d),
{
    match v {
        Violation::BelowLowerBound => {
            let mut m = message_header(d);
            m.append("`");
            m.append(d.measurement_label.as_str());
            m.append("` was less than `");
            m.append(d.target_label.as_str());
            m.append("` - ");
            m.append(d.tolerance_text.as_str());
            m.append(")");
            append_values_trailer(&mut m, d);
            m
        },
        Violation::AboveUpperBound => {
            let mut m = message_header(d);
            m.append("`");
            m.append(d.measurement_label.as_str());
            m.append("` was greater than `");
            m.append(d.target_label.as_str());
            m.append("` + ");
            m.append(d.tolerance_text.as_str());
            m.append(")");
            append_values_trailer(&mut m, d);
            m
        },
        _ => validation_message(v, d),
    }
}

/// Builds the message of a failed relative check.
pub fn relative_message(v: &Violation, d: &Diagnostics) -> (m: String)
    ensures
        m@ == spec_relative_message(*v, *d),
{
    match v {
        Violation::BelowLowerBound => {
            let mut m = message_header(d);
            m.append("`");
            m.append(d.measurement_label.as_str());
            m.append("` was less than (1 ± ");
            m.append(d.tolerance_text.as_str());
            m.append(") * `");
            m.append(d.target_label.as_str());
            m.append("`");
            append_values_trailer(&mut m, d);
            m
        },
        Violation::AboveUpperBound => {
            let mut m = message_header(d);
            m.append("`");
            m.append(d.measurement_label.as_str());
            m.append("` was greater than (1 ± ");
            m.append(d.tolerance_text.as_str());
            m.append(") * `");
            m.append(d.target_label.as_str());
            m.append("`");
            append_values_trailer(&mut m, d);
            m
        },
        _ => validation_message(v, d),
    }
}

} // verus!
