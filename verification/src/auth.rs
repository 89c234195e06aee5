//! Credential verification.
//!
//! A request carries its bearer credential in `Authorization` headers; exactly
//! one such header must be present. The lone credential is then sent to a
//! token-introspection service, whose form-url-encoded reply must bind the
//! credential to the one configured identity: some `me` pair whose value is
//! exactly that identity.
//!
//! The flow is split into two verified decisions around the single remote
//! call. [`authorization_step`] inspects the header list and either rejects
//! outright or releases the credential for introspection — so a request with
//! zero or several headers is rejected before any remote traffic exists.
//! [`complete_authorization`] judges the introspection outcome and mints the
//! [`Token`] that the publishing pipeline demands.

use crate::strutil::str_eq;
use vstd::prelude::*;

verus! {

/// Why a request's credential was rejected.
#[derive(Clone, Copy, Debug, PartialEq, Eq, Structural)]
pub enum ApiKeyError {
    /// No `Authorization` header was present.
    Missing,
    /// More than one `Authorization` header was present.
    BadCount,
    /// The introspection service did not bind the credential to the
    /// configured identity.
    Invalid,
    /// The introspection service could not be reached.
    Unreachable,
}

/// A credential that passed verification. Only [`complete_authorization`]
/// constructs one, so holding a `Token` witnesses a successful check.
#[derive(Debug)]
pub struct Token {
    credential: String,
}

impl View for Token {
    type V = Seq<char>;

    closed spec fn view(&self) -> Seq<char> {
        self.credential@
    }
}

impl Token {
    /// The verified credential itself.
    pub fn credential(&self) -> (r: &String)
        ensures
            r@ == self@,
    {
        &self.credential
    }
}

/// What to do with a request's `Authorization` headers: reject it, or send
/// the lone credential to the introspection service.
#[derive(Debug)]
pub enum AuthStep {
    Reject(ApiKeyError),
    Introspect(String),
}

/// Decides on the `Authorization` headers of a request, before any remote
/// call: a missing header and several headers are both rejected, and only a
/// lone credential is released for introspection.
pub fn authorization_step(headers: &Vec<String>) -> (r: AuthStep)
    ensures
        headers@.len() == 0 ==> r == AuthStep::Reject(ApiKeyError::Missing),
        headers@.len() > 1 ==> r == AuthStep::Reject(ApiKeyError::BadCount),
        headers@.len() == 1 ==> (r matches AuthStep::Introspect(c) && c@ == headers@[0]@),
{
    if headers.len() == 0 {
        AuthStep::Reject(ApiKeyError::Missing)
    } else if headers.len() > 1 {
        AuthStep::Reject(ApiKeyError::BadCount)
    } else {
        AuthStep::Introspect(headers[0].clone())
    }
}

/// What `serde_urlencoded::from_str` parses a form-url-encoded body into:
/// its key/value pairs in order, or nothing when the body is malformed.
pub uninterp spec fn form_pairs(body: Seq<char>) -> Option<Seq<(Seq<char>, Seq<char>)>>;

/// Relies on `serde_urlencoded::from_str`: parses a form-url-encoded body
/// into its key/value pairs in order; the outcome is a function of the body
/// alone.
#[verifier::external_body]
fn parse_introspection_body(body: &str) -> (r: Option<Vec<(String, String)>>)
    ensures
        match r {
            Some(pairs) => form_pairs(body@) == Some(pairs.deep_view()),
            None => form_pairs(body@) is None,
        },
{
    serde_urlencoded::from_str::<Vec<(String, String)>>(body).ok()
}

/// The pair binds the credential to `site`: its key is `me` and its value is
/// exactly `site`.
pub open spec fn pair_grants(pair: (Seq<char>, Seq<char>), site: Seq<char>) -> bool {
    pair.0 == "me"@ && pair.1 == site
}

/// Some pair in the list binds the credential to `site`.
pub open spec fn pairs_grant(pairs: Seq<(Seq<char>, Seq<char>)>, site: Seq<char>) -> bool {
    exists|i: int| 0 <= i < pairs.len() && pair_grants(pairs[i], site)
}

/// The introspection body parses as form-url-encoded pairs and some pair
/// binds the credential to `site`.
pub open spec fn introspection_grants(body: Seq<char>, site: Seq<char>) -> bool {
    match form_pairs(body) {
        Some(pairs) => pairs_grant(pairs, site),
        None => false,
    }
}

/// Checks an introspection response body against the configured identity:
/// accepts exactly when the body parses as form-url-encoded pairs and some
/// `me` pair's value equals `authorized_site`. Every other pair is ignored.
pub fn check_authorization(body: &str, authorized_site: &str) -> (r: bool)
    ensures
        r == introspection_grants(body@, authorized_site@),
{
    match parse_introspection_body(body) {
        None => false,
        Some(pairs) => {
            let ghost view = pairs.deep_view();
            let n = pairs.len();
            let mut i: usize = 0;
            while i < n
                invariant
                    n == pairs.len(),
                    view == pairs.deep_view(),
                    form_pairs(body@) == Some(view),
                    i <= n,
                    forall|j: int| 0 <= j < i ==> !pair_grants(view[j], authorized_site@),
                decreases n - i,
            {
                let pair = &pairs[i];
                if str_eq(pair.0.as_str(), "me") && str_eq(pair.1.as_str(), authorized_site) {
                    proof {
                        assert(pairs_grant(view, authorized_site@)) by {
                            assert(0 <= (i as int) < view.len() && pair_grants(
                                view[i as int],
                                authorized_site@,
                            ));
                        }
                    }
                    return true;
                }
                i = i + 1;
            }
            false
        },
    }
}

/// Judges the outcome of the introspection call for the credential that
/// [`authorization_step`] released. A transport failure is `Unreachable`; a
/// body that does not bind the credential to `authorized_site` is `Invalid`;
/// otherwise the credential becomes a [`Token`].
pub fn complete_authorization(
    credential: String,
    introspection_body: Option<&str>,
    authorized_site: &str,
) -> (r: Result<Token, ApiKeyError>)
    ensures
        match introspection_body {
            None => r == Err::<Token, ApiKeyError>(ApiKeyError::Unreachable),
            Some(body) => if introspection_grants(body@, authorized_site@) {
                r matches Ok(t) && t@ == credential@
            } else {
                r == Err::<Token, ApiKeyError>(ApiKeyError::Invalid)
            },
        },
{
    match introspection_body {
        None => Err(ApiKeyError::Unreachable),
        Some(body) => {
            if check_authorization(body, authorized_site) {
                Ok(Token { credential })
            } else {
                Err(ApiKeyError::Invalid)
            }
        },
    }
}

} // verus!
