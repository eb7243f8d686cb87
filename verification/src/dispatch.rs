//! Message dispatcher: every domain outcome, success or failure, becomes
//! exactly one reply envelope. A failure is answered under the fixed
//! server-error tag with a readable description in the content field; the
//! transport status is success either way, so callers detect failure by
//! the response tag alone, never by a transport status code.

use vstd::prelude::*;
use vstd::string::StringExecFns;

verus! {

/// An inbound envelope on the anonymous path: an operation tag and an
/// opaque payload, carried here in its serialized form.
pub struct PublicMessage {
    /// Operation tag.
    pub what: String,
    /// Opaque payload.
    pub data: String,
}

/// An inbound envelope on the authenticated path; the shape is the same,
/// only a resolved identity accompanies the call.
pub struct UserMessage {
    /// Operation tag.
    pub what: String,
    /// Opaque payload.
    pub data: String,
}

/// The uniform reply envelope: an operation tag or status label, and an
/// opaque payload or a readable error text.
pub struct ServerResponse {
    /// Operation tag of the reply, or the server-error label.
    pub what: String,
    /// Opaque payload, or the failure's description.
    pub content: String,
}

/// The failure taxonomy of the core. Every variant is caught at the
/// dispatcher boundary and converted to a uniform reply.
pub enum CoreError {
    /// A requested user or token is absent.
    NotFound,
    /// A registration key or credential does not match.
    Mismatch,
    /// The persistence layer is unavailable or inconsistent.
    Storage(String),
    /// The envelope cannot be decoded.
    MalformedInput(String),
    /// The caller presented no resolvable identity.
    NotAuthenticated,
    /// The operation tag is unknown to the domain dispatcher.
    UnknownTag(String),
}

impl CoreError {
    /// The readable description owed for each failure.
    pub open spec fn spec_description(self) -> Seq<char> {
        match self {
            CoreError::NotFound => "not found"@,
            CoreError::Mismatch => "registration key or user doesn't match"@,
            CoreError::Storage(detail) => "storage error: "@ + detail@,
            CoreError::MalformedInput(detail) => "malformed input: "@ + detail@,
            CoreError::NotAuthenticated => "not authenticated"@,
            CoreError::UnknownTag(tag) => "unknown message tag: "@ + tag@,
        }
    }

    /// Render the description. It is never empty: a failure always
    /// carries a readable cause.
    pub fn description(&self) -> (r: String)
        ensures
            r@ == self.spec_description(),
            r@.len() > 0,
    {
        proof {
            law_error_description_nonempty(*self);
        }
        match self {
            CoreError::NotFound => "not found".to_owned(),
            CoreError::Mismatch => "registration key or user doesn't match".to_owned(),
            CoreError::Storage(detail) => "storage error: ".to_owned().concat(detail.as_str()),
            CoreError::MalformedInput(detail) => "malformed input: ".to_owned().concat(
                detail.as_str(),
            ),
            CoreError::NotAuthenticated => "not authenticated".to_owned(),
            CoreError::UnknownTag(tag) => "unknown message tag: ".to_owned().concat(tag.as_str()),
        }
    }
}

/// The fixed tag under which every failure is answered.
pub open spec fn server_error_tag() -> Seq<char> {
    "server error"@
}

/// Every failure routed through the dispatcher carries a non-empty
/// description, whatever its variant and whatever detail it holds.
pub proof fn law_error_description_nonempty(e: CoreError)
    ensures
        e.spec_description().len() > 0,
{
    reveal_strlit("not found");
    reveal_strlit("registration key or user doesn't match");
    reveal_strlit("storage error: ");
    reveal_strlit("malformed input: ");
    reveal_strlit("not authenticated");
    reveal_strlit("unknown message tag: ");
}

/// Convert a domain outcome into the one reply owed for it: a success
/// passes through unchanged, and every failure becomes a reply under the
/// server-error tag whose content is the failure's description. The
/// transport status stays success on both paths — the anonymous and the
/// authenticated entry share this one policy.
pub fn dispatch_outcome(outcome: Result<ServerResponse, CoreError>) -> (r: ServerResponse)
    ensures
        outcome matches Ok(sr) ==> r == sr,
        outcome matches Err(e) ==> r.what@ == server_error_tag() && r.content@
            == e.spec_description() && r.content@.len() > 0,
{
    match outcome {
        Ok(sr) => sr,
        Err(e) => ServerResponse { what: "server error".to_owned(), content: e.description() },
    }
}

} // verus!
