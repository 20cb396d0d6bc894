//! The failures of the request pipeline and their rendering.

use crate::rules::Violation;
use vstd::prelude::*;

verus! {

/// `anyhow::Error`, carried through unread: nothing in this crate looks inside it.
#[verifier::external_type_specification]
#[verifier::external_body]
pub struct ExAnyhowError(anyhow::Error);

/// Why a request body could not be turned into the payload type.
#[derive(Debug, Clone, PartialEq, Eq)]
pub struct JsonRejection {
    /// The parser's diagnostic, as it is shown to the caller.
    pub body_text: String,
}

/// What is sent back: a status code and a plain-text body.
#[derive(Debug, Clone, PartialEq, Eq)]
pub struct Response {
    pub status: u16,
    pub body: String,
}

/// Every way in which handling a request can fail.
#[derive(Debug)]
pub enum AppError {
    /// The body was parsed, but broke at least one field rule.
    Validation(Vec<Violation>),
    /// The body could not be parsed into the payload type.
    JsonRejection(JsonRejection),
    QueryRejection,
    /// A failure inside the service. Its cause is kept, and never shown.
    InternalError(anyhow::Error),
    BadRequest,
    Conflict,
    NotFound,
    Unauthorized,
}

impl AppError {
    /// The status code of each variant.
    pub open spec fn status_code(self) -> u16 {
        match self {
            AppError::Validation(_) => 400,
            AppError::JsonRejection(_) => 400,
            AppError::QueryRejection => 400,
            AppError::BadRequest => 400,
            AppError::Unauthorized => 401,
            AppError::NotFound => 404,
            AppError::Conflict => 409,
            AppError::InternalError(_) => 500,
        }
    }

    /// The body of each variant. Only a rejected body shows its diagnostic.
    pub open spec fn body_text(self) -> Seq<char> {
        match self {
            AppError::Validation(_) => "Validation error"@,
            AppError::JsonRejection(rejection) => rejection.body_text@,
            AppError::QueryRejection => "Query Rejection"@,
            AppError::BadRequest => "Bad Request"@,
            AppError::Unauthorized => "Unauthorized"@,
            AppError::NotFound => "Not Found"@,
            AppError::Conflict => "Conflict"@,
            AppError::InternalError(_) => "Internal server error"@,
        }
    }

    /// Whether `self` and `other` are the same variant, whatever they carry.
    pub open spec fn same_variant(self, other: AppError) -> bool {
        match self {
            AppError::Validation(_) => other is Validation,
            AppError::JsonRejection(_) => other is JsonRejection,
            AppError::QueryRejection => other is QueryRejection,
            AppError::InternalError(_) => other is InternalError,
            AppError::BadRequest => other is BadRequest,
            AppError::Conflict => other is Conflict,
            AppError::NotFound => other is NotFound,
            AppError::Unauthorized => other is Unauthorized,
        }
    }

    /// Renders the error as the response that the caller receives.
    pub fn into_response(self) -> (response: Response)
        ensures
            response.status == self.status_code(),
            response.body@ == self.body_text(),
    {
        match self {
            AppError::JsonRejection(rejection) => Response { status: 400, body: rejection.body_text },
            AppError::QueryRejection => Response { status: 400, body: "Query Rejection".to_owned() },
            AppError::Validation(_) => Response { status: 400, body: "Validation error".to_owned() },
            AppError::InternalError(_) => Response {
                status: 500,
                body: "Internal server error".to_owned(),
            },
            AppError::Conflict => Response { status: 409, body: "Conflict".to_owned() },
            AppError::NotFound => Response { status: 404, body: "Not Found".to_owned() },
            AppError::Unauthorized => Response { status: 401, body: "Unauthorized".to_owned() },
            AppError::BadRequest => Response { status: 400, body: "Bad Request".to_owned() },
        }
    }
}

/// The status code is fixed by the variant: what an error carries has no
/// part in it.
pub proof fn lemma_status_by_variant(a: AppError, b: AppError)
    requires
        a.same_variant(b),
    ensures
        a.status_code() == b.status_code(),
{
}

/// Only five status codes are ever sent for an error.
pub proof fn lemma_status_range(error: AppError)
    ensures
        error.status_code() == 400 || error.status_code() == 401 || error.status_code() == 404
            || error.status_code() == 409 || error.status_code() == 500,
{
}

/// Unless a body was rejected, the variant fixes the body text too. So the
/// cause of an internal error is never shown.
pub proof fn lemma_body_by_variant(a: AppError, b: AppError)
    requires
        a.same_variant(b),
        !(a is JsonRejection),
    ensures
        a.body_text() == b.body_text(),
{
}

impl From<Vec<Violation>> for AppError {
    fn from(violations: Vec<Violation>) -> (error: AppError) {
        AppError::Validation(violations)
    }
}

impl vstd::std_specs::convert::FromSpecImpl<Vec<Violation>> for AppError {
    open spec fn obeys_from_spec() -> bool {
        true
    }

    open spec fn from_spec(violations: Vec<Violation>) -> AppError {
        AppError::Validation(violations)
    }
}

impl From<JsonRejection> for AppError {
    fn from(rejection: JsonRejection) -> (error: AppError) {
        AppError::JsonRejection(rejection)
    }
}

impl vstd::std_specs::convert::FromSpecImpl<JsonRejection> for AppError {
    open spec fn obeys_from_spec() -> bool {
        true
    }

    open spec fn from_spec(rejection: JsonRejection) -> AppError {
        AppError::JsonRejection(rejection)
    }
}

impl From<anyhow::Error> for AppError {
    fn from(cause: anyhow::Error) -> (error: AppError) {
        AppError::InternalError(cause)
    }
}

impl vstd::std_specs::convert::FromSpecImpl<anyhow::Error> for AppError {
    open spec fn obeys_from_spec() -> bool {
        true
    }

    open spec fn from_spec(cause: anyhow::Error) -> AppError {
        AppError::InternalError(cause)
    }
}

} // verus!
