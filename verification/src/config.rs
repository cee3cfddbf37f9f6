//! Settings of the HTTP API.
use vstd::prelude::*;

verus! {

broadcast use vstd::string::group_string_axioms;

/// The origin allowed to call the API when `CORS_ORIGIN` is not set: the
/// storefront's development server.
pub open spec fn default_cors_origin() -> Seq<char> {
    "http://localhost:5173"@
}

/// The allowed origin: the configured one, or the default.
pub fn cors_origin(configured: Option<String>) -> (r: String)
    ensures
        match configured {
            Some(c) => r@ == c@,
            None => r@ == default_cors_origin(),
        },
{
    match configured {
        Some(c) => c,
        None => "http://localhost:5173".to_string(),
    }
}

} // verus!
