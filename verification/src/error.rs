//! Errors of the HTTP API and the responses they become.
use crate::rpc::{RpcCode, RpcStatus};
use vstd::prelude::*;

verus! {

broadcast use vstd::string::group_string_axioms;

/// An error of an HTTP handler.
#[derive(Clone, Debug)]
pub enum AppError {
    /// The database failed; the text describes the failure (it is logged, not sent).
    Database(String),
    Unauthorized,
    Forbidden,
    BadRequest(String),
    InternalServerError,
}

/// HTTP status and message of an error's response.
pub open spec fn response_spec(e: AppError) -> (u16, Seq<char>) {
    match e {
        AppError::Database(_) => (500, "Database Error"@),
        AppError::Unauthorized => (401, "Unauthorized"@),
        AppError::Forbidden => (403, "Forbidden"@),
        AppError::BadRequest(m) => (400, m@),
        AppError::InternalServerError => (500, "Internal Server Error"@),
    }
}

impl AppError {
    /// `From<tonic::Status>`: maps a failed order-service call to an API error.
    pub fn from_rpc_status(status: RpcStatus) -> (r: AppError)
        ensures
            match status.code {
                RpcCode::InvalidArgument | RpcCode::FailedPrecondition | RpcCode::NotFound => r matches AppError::BadRequest(m) && m@ == status.message@,
                _ => r matches AppError::InternalServerError,
            },
    {
        match status.code {
            RpcCode::InvalidArgument | RpcCode::FailedPrecondition | RpcCode::NotFound => {
                AppError::BadRequest(status.message)
            },
            _ => AppError::InternalServerError,
        }
    }

    /// The HTTP status code and the message of the `{"error": ...}` body that
    /// the error is answered with (`IntoResponse`).
    pub fn status_and_message(&self) -> (r: (u16, String))
        ensures
            (r.0, r.1@) == response_spec(*self),
    {
        proof {
            reveal_strlit("Database Error");
            reveal_strlit("Unauthorized");
            reveal_strlit("Forbidden");
            reveal_strlit("Internal Server Error");
        }
        match self {
            AppError::Database(_) => (500, "Database Error".to_string()),
            AppError::Unauthorized => (401, "Unauthorized".to_string()),
            AppError::Forbidden => (403, "Forbidden".to_string()),
            AppError::BadRequest(m) => (400, m.clone()),
            AppError::InternalServerError => (500, "Internal Server Error".to_string()),
        }
    }

    /// The error of a failed insert: a unique-constraint violation is a bad
    /// request with `conflict_message`; any other failure is a database error.
    pub fn from_insert_failure(is_unique_violation: bool, conflict_message: &str, detail: String) -> (r: AppError)
        ensures
            is_unique_violation ==> (r matches AppError::BadRequest(m) && m@ == conflict_message@),
            !is_unique_violation ==> (r matches AppError::Database(d) && d@ == detail@),
    {
        if is_unique_violation {
            AppError::BadRequest(conflict_message.to_string())
        } else {
            AppError::Database(detail)
        }
    }

    /// A bad request with the given message.
    pub fn bad_request(message: &str) -> (r: AppError)
        ensures
            r matches AppError::BadRequest(m) && m@ == message@,
    {
        AppError::BadRequest(message.to_string())
    }
}

/// A looked-up record that must exist: a missing one is a bad request with
/// the given message (such as `Product not found`).
pub fn found_or_bad_request<T>(value: Option<T>, message: &str) -> (r: Result<T, AppError>)
    ensures
        match value {
            Some(v) => r matches Ok(x) && x == v,
            None => r matches Err(AppError::BadRequest(m)) && m@ == message@,
        },
{
    match value {
        Some(v) => Ok(v),
        None => Err(AppError::bad_request(message)),
    }
}

} // verus!
