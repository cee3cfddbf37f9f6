//! Access rules of the HTTP API: bearer tokens, administrators, logins.
use crate::error::AppError;
use vstd::prelude::*;
use vstd::string::StrSliceExecFns;

verus! {

broadcast use vstd::string::group_string_axioms;

/// The scheme that prefixes a token in an `Authorization` header.
pub open spec fn bearer_prefix() -> Seq<char> {
    "Bearer "@
}

/// The header value starts with `Bearer `.
pub open spec fn has_bearer_prefix(h: Seq<char>) -> bool {
    h.len() >= 7 && h.take(7) == bearer_prefix()
}

/// The token of an `Authorization` header (given as text when it is
/// readable): what follows `Bearer `.  A missing or unreadable header, or one
/// of another scheme, is unauthorized.
pub fn bearer_token(header: Option<String>) -> (r: Result<String, AppError>)
    ensures
        match header {
            Some(h) => if has_bearer_prefix(h@) {
                r matches Ok(t) && t@ == h@.skip(7)
            } else {
                r matches Err(AppError::Unauthorized)
            },
            None => r matches Err(AppError::Unauthorized),
        },
{
    proof {
        reveal_strlit("Bearer ");
    }
    match header {
        None => Err(AppError::Unauthorized),
        Some(h) => {
            let s = h.as_str();
            let n = s.unicode_len();
            if n < 7 {
                return Err(AppError::Unauthorized);
            }
            let head = s.substring_char(0, 7).to_string();
            let bearer = "Bearer ".to_string();
            if head == bearer {
                let token = s.substring_char(7, n).to_string();
                assert(token@ =~= h@.skip(7));
                Ok(token)
            } else {
                assert(head@ =~= h@.take(7));
                Err(AppError::Unauthorized)
            }
        },
    }
}

/// Only administrators pass: a user whose role is `admin` is let through, a
/// user with another role is forbidden, and an unknown user is a bad request.
pub fn require_admin_role(role: Option<String>) -> (r: Result<(), AppError>)
    ensures
        match role {
            Some(x) => if x@ == "admin"@ {
                r is Ok
            } else {
                r matches Err(AppError::Forbidden)
            },
            None => r matches Err(AppError::BadRequest(m)) && m@ == "User not found"@,
        },
{
    match role {
        Some(x) => {
            let admin = "admin".to_string();
            if x == admin {
                Ok(())
            } else {
                Err(AppError::Forbidden)
            }
        },
        None => Err(AppError::bad_request("User not found")),
    }
}

/// A user who must exist for the request to be authorized.
pub fn require_user<T>(user: Option<T>) -> (r: Result<T, AppError>)
    ensures
        match user {
            Some(u) => r matches Ok(v) && v == u,
            None => r matches Err(AppError::Unauthorized),
        },
{
    match user {
        Some(u) => Ok(u),
        None => Err(AppError::Unauthorized),
    }
}

/// A login whose password does not match is unauthorized.
pub fn check_password(matches: bool) -> (r: Result<(), AppError>)
    ensures
        matches ==> r is Ok,
        !matches ==> r matches Err(AppError::Unauthorized),
{
    if matches {
        Ok(())
    } else {
        Err(AppError::Unauthorized)
    }
}

} // verus!
