//! Startup configuration, captured once into an immutable value and passed
//! explicitly into the constructors; nothing reads ambient state at call time.

use vstd::prelude::*;
use vstd::string::StringExecFns;

use crate::auth::AuthInterceptor;
use crate::dispatch::Dispatcher;
use crate::expected_header;
use crate::greeter::MyGreeter;

verus! {

/// The process-wide configuration: where to listen, whether the authentication
/// check is enabled, and the raw secret token the interceptor expects.
pub struct Config {
    pub host: String,
    pub port: String,
    pub authorization: bool,
    pub token: String,
}

/// The token used when the environment supplies none.
pub open spec fn default_token() -> Seq<char> {
    "authorization"@
}

/// The name of the one method the service exposes.
pub open spec fn say_hello_method() -> Seq<char> {
    "say_hello"@
}

/// The configured token: the environment's value when one is set, the fixed
/// default otherwise.
pub fn token_or_default(env_value: Option<String>) -> (t: String)
    ensures
        t@ == (match env_value {
            Some(v) => v@,
            None => default_token(),
        }),
{
    match env_value {
        Some(v) => v,
        None => String::from_str("authorization"),
    }
}

/// Wires the pipeline the configuration asks for: the greeting handler under
/// its method name, guarded by one bearer-token interceptor exactly when the
/// authentication flag is set.
pub fn build_dispatcher(config: &Config) -> (d: Dispatcher)
    ensures
        d@.interceptors == (if config.authorization {
            seq![expected_header(config.token@)]
        } else {
            Seq::<Seq<char>>::empty()
        }),
        d@.methods == seq![say_hello_method()],
{
    let mut d = Dispatcher::new();
    if config.authorization {
        d.add_interceptor(AuthInterceptor::new(config.token.clone()));
    }
    d.add_handler(String::from_str("say_hello"), MyGreeter {});
    proof {
        if config.authorization {
            assert(d@.interceptors =~= seq![expected_header(config.token@)]);
        }
        assert(d@.methods =~= seq![say_hello_method()]);
    }
    d
}

} // verus!
