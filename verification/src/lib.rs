//! Client-side core of an SDK for a remote financial-markets RPC service.
//!
//! The crate verifies the three coupled pieces at the heart of the client:
//! the fixed-point quotation arithmetic used for prices and quantities, the
//! connection-pool rotation that multiplexes a small set of handles across
//! concurrent callers, and the stream supervisor state machine that keeps
//! server-streamed subscriptions alive across reconnects.
use vstd::prelude::*;
use vstd::string::StringExecFns;

pub mod cache;
pub mod dispatch;
pub mod pool;
pub mod stream;
pub mod quotation;
pub mod response;
pub mod supervisor;

verus! {

/// Supplies the two per-call metadata entries every unary and
/// stream-opening call must carry: the bearer-style authorization
/// credential and a freshly generated per-request tracking identifier.
#[derive(Clone, Debug)]
pub struct TokenInterceptor {
    token: String,
}

/// Relies on `uuid::Uuid::new_v4` and `Uuid`'s `Display` implementation:
/// the hyphenated textual form of a UUID is exactly 36 ASCII characters.
/// The value itself is random, so nothing more is claimed of it.
#[verifier::external_body]
fn fresh_tracking_id() -> (r: String)
    ensures
        r@.len() == 36,
{
    uuid::Uuid::new_v4().to_string()
}

impl TokenInterceptor {
    /// The credential this interceptor attaches, as a sequence of
    /// characters.
    pub closed spec fn token_view(self) -> Seq<char> {
        self.token@
    }

    /// An interceptor around one caller-supplied credential.
    pub fn new(token: &str) -> (r: TokenInterceptor)
        ensures
            r.token_view() == token@,
    {
        TokenInterceptor { token: token.to_owned() }
    }

    /// The value of the authorization entry: the bearer marker followed by
    /// the credential.
    pub fn authorization_value(&self) -> (r: String)
        ensures
            r@ == "bearer "@ + self.token_view(),
    {
        String::from_str("bearer ").concat(self.token.as_str())
    }

    /// The two metadata entries to attach to one call: the authorization
    /// credential, and a tracking identifier generated freshly for this
    /// call.
    pub fn call_metadata(&self) -> (r: Vec<(String, String)>)
        ensures
            r@.len() == 2,
            r@[0].0@ == "authorization"@,
            r@[0].1@ == "bearer "@ + self.token_view(),
            r@[1].0@ == "x-tracking-id"@,
            r@[1].1@.len() == 36,
    {
        let mut entries: Vec<(String, String)> = Vec::new();
        entries.push((String::from_str("authorization"), self.authorization_value()));
        entries.push((String::from_str("x-tracking-id"), fresh_tracking_id()));
        entries
    }
}

} // verus!

