//! The validating extractor: from a parsed body to a payload that is known to
//! meet its rules, or to the error that says why there is none.

use crate::app_error::{AppError, JsonRejection};
use crate::rules::{demands_of, evaluate, violations_of, Check, Demand, Violation};
use vstd::prelude::*;

verus! {

/// A payload type that declares rules for its fields.
pub trait Validatable: Sized {
    /// The declared rules, each with the text of its field in this value, in
    /// the order in which they are declared.
    spec fn demands(&self) -> Seq<Demand>;

    /// The declared rules as checks on this value.
    fn checks(&self) -> (checks: Vec<Check<'_>>)
        ensures
            demands_of(checks@) == self.demands(),
    ;

    /// Evaluates every declared rule against this value.
    fn validate(&self) -> (outcome: Result<(), Vec<Violation>>)
        ensures
            match outcome {
                Ok(()) => violations_of(self.demands()).len() == 0,
                Err(found) => found@ == violations_of(self.demands()) && found@.len() > 0,
            },
    {
        let checks = self.checks();
        evaluate(checks.as_slice())
    }
}

/// The rules that `payload` breaks, in the order in which they are declared.
pub open spec fn violations<T: Validatable>(payload: &T) -> Seq<Violation> {
    violations_of(payload.demands())
}

/// A payload that came out of `ValidatedJson::from_request`.
#[derive(Debug, Clone)]
pub struct ValidatedJson<T>(pub T);

impl<T: Validatable> ValidatedJson<T> {
    /// What `from_request` gives for `parsed`.
    ///
    /// A body that did not parse is rejected with the parser's diagnostic,
    /// whatever the rules are. A payload that breaks a rule is rejected with
    /// all its violations. Any other payload is handed on as it is.
    pub open spec fn extracts(
        parsed: Result<T, JsonRejection>,
        outcome: Result<ValidatedJson<T>, AppError>,
    ) -> bool {
        match parsed {
            Err(rejection) => outcome == Err::<ValidatedJson<T>, AppError>(
                AppError::JsonRejection(rejection),
            ),
            Ok(payload) => if violations(&payload).len() == 0 {
                outcome == Ok::<ValidatedJson<T>, AppError>(ValidatedJson(payload))
            } else {
                outcome matches Err(AppError::Validation(found)) && found@ == violations(&payload)
            },
        }
    }

    /// Takes what parsing the request body gave, and validates it.
    pub fn from_request(parsed: Result<T, JsonRejection>) -> (outcome: Result<
        ValidatedJson<T>,
        AppError,
    >)
        ensures
            Self::extracts(parsed, outcome),
    {
        match parsed {
            Err(rejection) => Err(AppError::from(rejection)),
            Ok(payload) => match payload.validate() {
                Ok(()) => Ok(ValidatedJson(payload)),
                Err(found) => Err(AppError::from(found)),
            },
        }
    }

    /// Whatever comes out went in as a parsed payload and breaks no rule.
    pub proof fn lemma_extracted_is_valid(
        parsed: Result<T, JsonRejection>,
        extracted: ValidatedJson<T>,
    )
        requires
            Self::extracts(parsed, Ok(extracted)),
        ensures
            parsed == Ok::<T, JsonRejection>(extracted.0),
            violations(&extracted.0).len() == 0,
    {
    }

    /// A payload that parsed and breaks no rule comes out as it went in.
    pub proof fn lemma_valid_payload_unchanged(
        payload: T,
        outcome: Result<ValidatedJson<T>, AppError>,
    )
        requires
            violations(&payload).len() == 0,
            Self::extracts(Ok(payload), outcome),
        ensures
            outcome matches Ok(extracted) && extracted.0 == payload,
    {
    }

    /// A body that did not parse is answered with status 400 and the
    /// parser's diagnostic, and no rule has a say in it.
    pub proof fn lemma_unparsed_body_rejected(
        rejection: JsonRejection,
        outcome: Result<ValidatedJson<T>, AppError>,
    )
        requires
            Self::extracts(Err(rejection), outcome),
        ensures
            outcome matches Err(error) && error == AppError::JsonRejection(rejection)
                && error.status_code() == 400 && error.body_text() == rejection.body_text@,
    {
    }

    /// A payload that breaks a rule is answered with status 400, and the error
    /// holds every violation, not only the first.
    pub proof fn lemma_invalid_payload_rejected(
        payload: T,
        outcome: Result<ValidatedJson<T>, AppError>,
    )
        requires
            violations(&payload).len() > 0,
            Self::extracts(Ok(payload), outcome),
        ensures
            outcome matches Err(error) && error.status_code() == 400 && (
            error matches AppError::Validation(found) && found@ == violations(&payload)),
    {
    }

    /// Extraction fails in two ways only, and both are answered with status 400.
    pub proof fn lemma_failure_kinds(
        parsed: Result<T, JsonRejection>,
        outcome: Result<ValidatedJson<T>, AppError>,
    )
        requires
            Self::extracts(parsed, outcome),
            outcome is Err,
        ensures
            outcome->Err_0 is JsonRejection <==> parsed is Err,
            outcome->Err_0 is Validation <==> parsed is Ok,
            outcome->Err_0.status_code() == 400,
    {
    }
}

} // verus!
