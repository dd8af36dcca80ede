//! The authentication interceptor: decides from request metadata alone whether a
//! call may proceed, by exact comparison against one expected bearer header.

use vstd::prelude::*;
use vstd::string::StringExecFns;

use crate::expected_header;
use crate::metadata::{lower_seq, Metadata};

verus! {

/// The metadata key the interceptor inspects.
pub open spec fn auth_key() -> Seq<char> {
    "authorization"@
}

/// Why a request was turned away.
#[derive(Clone, Copy, Debug, PartialEq, Eq)]
pub enum RejectReason {
    /// No `authorization` entry was present.
    MissingCredential,
    /// An `authorization` entry was present but did not equal the expected header.
    InvalidCredential,
}

/// The short human-readable text attached to each rejection.
pub open spec fn reason_message(reason: RejectReason) -> Seq<char> {
    match reason {
        RejectReason::MissingCredential => "missing credential"@,
        RejectReason::InvalidCredential => "invalid credential"@,
    }
}

impl RejectReason {
    /// The reason's message text.
    pub fn message(&self) -> (r: String)
        ensures
            r@ == reason_message(*self),
    {
        match self {
            RejectReason::MissingCredential => String::from_str("missing credential"),
            RejectReason::InvalidCredential => String::from_str("invalid credential"),
        }
    }
}

/// The outcome of evaluating a request against the configured credential.
#[derive(Clone, Copy, Debug, PartialEq, Eq)]
pub enum AuthDecision {
    /// The request may proceed to the handler.
    Approved,
    /// The request is answered with this reason and never reaches the handler.
    Rejected { reason: RejectReason },
}

/// What `AuthInterceptor::authenticate` decides, as a function of the expected
/// header value and the metadata mapping.
pub open spec fn spec_authenticate(expected: Seq<char>, m: Map<Seq<char>, Seq<char>>) -> AuthDecision {
    if !m.contains_key(auth_key()) {
        AuthDecision::Rejected { reason: RejectReason::MissingCredential }
    } else if m[auth_key()] != expected {
        AuthDecision::Rejected { reason: RejectReason::InvalidCredential }
    } else {
        AuthDecision::Approved
    }
}

/// The bearer-token interceptor. It stores the fully formed expected header value
/// once, at construction, and holds no other state.
#[derive(Clone, Debug)]
pub struct AuthInterceptor {
    valid_token: String,
}

impl View for AuthInterceptor {
    type V = Seq<char>;

    /// The expected header value, `"Bearer "` followed by the token.
    closed spec fn view(&self) -> Seq<char> {
        self.valid_token@
    }
}

/// The lowercase key is its own case folding, so a case-insensitive lookup of
/// `auth_key()` is a lookup of `auth_key()` itself.
proof fn lemma_auth_key_lowercase()
    ensures
        lower_seq(auth_key()) == auth_key(),
{
    reveal_strlit("authorization");
    assert(lower_seq(auth_key()) =~= auth_key());
}

impl AuthInterceptor {
    /// Builds the interceptor from the raw secret token.
    pub fn new(token: String) -> (i: AuthInterceptor)
        ensures
            i@ == expected_header(token@),
    {
        AuthInterceptor { valid_token: String::from_str("Bearer ").concat(token.as_str()) }
    }

    /// Decides from the metadata alone whether the call may proceed: absent
    /// `authorization` entries are rejected as missing, values other than the
    /// expected header as invalid, and the expected header is approved.
    pub fn authenticate(&self, metadata: &Metadata) -> (d: AuthDecision)
        ensures
            d == spec_authenticate(self@, metadata@),
    {
        proof {
            lemma_auth_key_lowercase();
        }
        match metadata.get("authorization") {
            Some(value) => {
                if *value == self.valid_token {
                    AuthDecision::Approved
                } else {
                    AuthDecision::Rejected { reason: RejectReason::InvalidCredential }
                }
            },
            None => AuthDecision::Rejected { reason: RejectReason::MissingCredential },
        }
    }
}

/// A metadata mapping without an `authorization` entry is rejected for a
/// missing credential, whatever the configured credential is.
pub proof fn lemma_missing_credential_rejected(expected: Seq<char>, m: Map<Seq<char>, Seq<char>>)
    requires
        !m.contains_key(auth_key()),
    ensures
        spec_authenticate(expected, m)
            == (AuthDecision::Rejected { reason: RejectReason::MissingCredential }),
{
}

/// A metadata mapping whose `authorization` entry differs in any way from the
/// expected header is rejected for an invalid credential.
pub proof fn lemma_invalid_credential_rejected(expected: Seq<char>, m: Map<Seq<char>, Seq<char>>)
    requires
        m.contains_key(auth_key()),
        m[auth_key()] != expected,
    ensures
        spec_authenticate(expected, m)
            == (AuthDecision::Rejected { reason: RejectReason::InvalidCredential }),
{
}

/// Exactly one header value is approved: the expected header itself,
/// compared exactly, with no trimming and no case folding.
pub proof fn lemma_approved_iff_exact(expected: Seq<char>, m: Map<Seq<char>, Seq<char>>)
    ensures
        (spec_authenticate(expected, m) == AuthDecision::Approved
            <==> (m.contains_key(auth_key()) && m[auth_key()] == expected)),
{
}

/// Authentication is idempotent: two evaluations of the same configuration
/// against the same metadata yield the same decision, since each one equals
/// `spec_authenticate` of the two.
pub proof fn lemma_authenticate_idempotent(
    expected: Seq<char>,
    m: Map<Seq<char>, Seq<char>>,
    d1: AuthDecision,
    d2: AuthDecision,
)
    requires
        d1 == spec_authenticate(expected, m),
        d2 == spec_authenticate(expected, m),
    ensures
        d1 == d2,
{
}

} // verus!
