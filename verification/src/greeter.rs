//! The example business handler: greets the caller by name. It has no failure
//! modes of its own.

use vstd::prelude::*;
use vstd::string::StringExecFns;

verus! {

/// The request payload of the greeting method: a name of any length.
#[derive(Clone, Debug, PartialEq, Eq)]
pub struct HelloRequest {
    pub name: String,
}

/// The success payload of the greeting method.
#[derive(Clone, Debug, PartialEq, Eq)]
pub struct HelloReply {
    pub message: String,
}

/// The message the greeter returns for a given name.
pub open spec fn greeting(name: Seq<char>) -> Seq<char> {
    "Hello "@ + name + "!"@
}

/// The greeting handler. It holds no state and cannot fail.
#[derive(Clone, Copy, Debug, Default)]
pub struct MyGreeter {}

impl MyGreeter {
    /// Returns `"Hello "` followed by the request's name and `"!"`, for any
    /// name, the empty one included.
    pub fn say_hello(&self, request: &HelloRequest) -> (r: HelloReply)
        ensures
            r.message@ == greeting(request.name@),
    {
        let message = String::from_str("Hello ").concat(request.name.as_str()).concat("!");
        HelloReply { message }
    }
}

} // verus!
