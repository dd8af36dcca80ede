//! A minimal unary RPC core: a bearer-token authentication interceptor and a
//! dispatcher that runs interceptors in order before invoking a handler.

pub mod auth;
pub mod config;
pub mod dispatch;
pub mod greeter;
pub mod metadata;

use vstd::prelude::*;

verus! {

/// The header value the interceptor expects: the scheme tag, one space, the token.
pub open spec fn expected_header(token: Seq<char>) -> Seq<char> {
    "Bearer "@ + token
}

} // verus!
