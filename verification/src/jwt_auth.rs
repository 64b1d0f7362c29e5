//! JWT authentication in front of the protected routes: which requests pass
//! without a token, which token is checked, and how a refusal is answered.

use vstd::prelude::*;
use vstd::string::*;
use crate::text::{has_prefix, text_eq, text_starts_with};

verus! {

/// The routes reachable without a token.
pub open spec fn is_public_path(path: Seq<char>) -> bool {
    path == "/health"@ || path == "/ready"@ || path == "/metrics"@
}

/// The scheme prefix of a bearer `Authorization` header.
pub open spec fn bearer_prefix() -> Seq<char> {
    "Bearer "@
}

/// The JSON body of a refusal with `message`.
pub open spec fn unauthorized_body_text(message: Seq<char>) -> Seq<char> {
    "{\"error\":{\"code\":\"UNAUTHORIZED\",\"message\":\""@ + message + "\"}}"@
}

/// The refusal message of a request without a usable bearer header.
pub open spec fn missing_header_text() -> Seq<char> {
    "Missing or invalid Authorization header"@
}

/// The refusal message of a token that does not verify.
pub open spec fn invalid_token_text() -> Seq<char> {
    "Invalid or expired token"@
}

/// A `401 Unauthorized` answer.
#[derive(Debug)]
pub struct UnauthorizedResponse {
    pub status: u16,
    pub content_type: String,
    pub cache_control: String,
    pub body: String,
}

/// `r` is the refusal carrying `message`: status 401, a JSON body that
/// must not be cached.
pub open spec fn is_unauthorized(r: UnauthorizedResponse, message: Seq<char>) -> bool {
    &&& r.status == 401
    &&& r.content_type@ == "application/json"@
    &&& r.cache_control@ == "no-store"@
    &&& r.body@ == unauthorized_body_text(message)
}

/// The refusal carrying `message`.
pub fn unauthorized_response(message: &str) -> (r: UnauthorizedResponse)
    ensures
        is_unauthorized(r, message@),
{
    let mut body = String::from_str("{\"error\":{\"code\":\"UNAUTHORIZED\",\"message\":\"");
    body.append(message);
    body.append("\"}}");
    UnauthorizedResponse {
        status: 401,
        content_type: String::from_str("application/json"),
        cache_control: String::from_str("no-store"),
        body,
    }
}

/// What JWT authentication does with a request.
#[derive(Debug)]
pub enum AuthDecision {
    /// Let the request through without a token.
    Pass,
    /// Verify this bearer token; a verified request passes with its claims.
    VerifyToken { token: String },
    /// Refuse the request.
    Reject { response: UnauthorizedResponse },
}

/// Decides on a request to `path` whose `Authorization` header, when
/// present and readable as text, is `authorization`. Public paths pass;
/// a bearer header hands its token on for verification; anything else is
/// refused.
pub fn jwt_auth_decision(path: &str, authorization: Option<&str>) -> (d: AuthDecision)
    ensures
        is_public_path(path@) ==> d is Pass,
        !is_public_path(path@) ==> match authorization {
            Some(v) if has_prefix(v@, bearer_prefix()) => d matches AuthDecision::VerifyToken { token } && token@
                == v@.subrange(bearer_prefix().len() as int, v@.len() as int),
            _ => d matches AuthDecision::Reject { response } && is_unauthorized(response, missing_header_text()),
        },
{
    if text_eq(path, "/health") || text_eq(path, "/ready") || text_eq(path, "/metrics") {
        return AuthDecision::Pass;
    }
    match authorization {
        Some(v) => {
            if text_starts_with(v, "Bearer ") {
                proof {
                    reveal_strlit("Bearer ");
                }
                let n = v.unicode_len();
                let token = v.substring_char(7, n);
                AuthDecision::VerifyToken { token: String::from_str(token) }
            } else {
                AuthDecision::Reject { response: unauthorized_response("Missing or invalid Authorization header") }
            }
        },
        None => AuthDecision::Reject { response: unauthorized_response("Missing or invalid Authorization header") },
    }
}

/// The answer to a token that failed verification.
pub fn token_rejected() -> (r: UnauthorizedResponse)
    ensures
        is_unauthorized(r, invalid_token_text()),
{
    unauthorized_response("Invalid or expired token")
}

} // verus!
