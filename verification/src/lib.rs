//! Tolerance-based comparison checks for test assertions.
//!
//! A measurement is compared against a target under one of two error models:
//! an additive (absolute) tolerance or a relative (fractional) tolerance.
//! Because the comparisons themselves run at the native precision of the
//! caller's floating-point type, the caller evaluates them and hands the
//! outcomes in as plain booleans ([`outcome::ComparisonFacts`]), together
//! with the display text needed for diagnostics ([`message::Diagnostics`]).
//! This crate then decides which condition fails first, classifies the
//! failure ([`outcome::FailureKind`]), and formats the diagnostic message.

pub mod check;
pub mod message;
pub mod outcome;
