//! The service dispatcher: runs the configured interceptors in order in front
//! of the handler registry, short-circuits on the first rejection, and
//! otherwise invokes the handler registered for the called method.

use vstd::prelude::*;
use vstd::string::StringExecFns;

use crate::auth::{spec_authenticate, AuthDecision, AuthInterceptor, RejectReason, reason_message};
use crate::greeter::{greeting, HelloReply, HelloRequest, MyGreeter};
use crate::metadata::Metadata;

verus! {

/// An inbound call: a metadata mapping and the typed payload of the method.
pub struct Request {
    pub metadata: Metadata,
    pub payload: HelloRequest,
}

/// The abstract content of a request: its metadata mapping and the payload's name.
pub struct RequestView {
    pub metadata: Map<Seq<char>, Seq<char>>,
    pub name: Seq<char>,
}

impl View for Request {
    type V = RequestView;

    open spec fn view(&self) -> RequestView {
        RequestView { metadata: self.metadata@, name: self.payload.name@ }
    }
}

/// The failure categories a call can be answered with, distinguishable from
/// one another and from success.
#[derive(Clone, Copy, Debug, PartialEq, Eq)]
pub enum FailureKind {
    /// An interceptor rejected the call.
    Unauthenticated,
    /// No handler is registered for the called method.
    UnknownMethod,
}

/// A call's answer: the handler's success payload, or a structured failure.
#[derive(Clone, Debug, PartialEq, Eq)]
pub enum Response {
    Success { reply: HelloReply },
    Failure { kind: FailureKind, message: String },
}

/// The abstract content of a response.
pub enum ResponseView {
    Success { message: Seq<char> },
    Failure { kind: FailureKind, message: Seq<char> },
}

impl View for Response {
    type V = ResponseView;

    open spec fn view(&self) -> ResponseView {
        match self {
            Response::Success { reply } => ResponseView::Success { message: reply.message@ },
            Response::Failure { kind, message } => ResponseView::Failure {
                kind: *kind,
                message: message@,
            },
        }
    }
}

/// The reason of the first interceptor, in configured order, that rejects the
/// metadata; `None` when every configured interceptor approves it.
pub open spec fn first_rejection(
    interceptors: Seq<Seq<char>>,
    m: Map<Seq<char>, Seq<char>>,
) -> Option<RejectReason>
    decreases interceptors.len(),
{
    if interceptors.len() == 0 {
        None
    } else {
        match spec_authenticate(interceptors[0], m) {
            AuthDecision::Rejected { reason } => Some(reason),
            AuthDecision::Approved => first_rejection(interceptors.drop_first(), m),
        }
    }
}

/// The message a call rejected for no registered handler is answered with.
pub open spec fn unknown_method_message() -> Seq<char> {
    "unknown method"@
}

/// The abstract content of a dispatcher: the expected header value of each
/// interceptor, in order, and the registered method names, in order.
pub struct DispatcherView {
    pub interceptors: Seq<Seq<char>>,
    pub methods: Seq<Seq<char>>,
}

/// What `Dispatcher::dispatch` answers: the first rejection if any interceptor
/// rejects, else the greeting of the registered handler, else the unknown
/// method failure.
pub open spec fn spec_dispatch(d: DispatcherView, method: Seq<char>, req: RequestView) -> ResponseView {
    match first_rejection(d.interceptors, req.metadata) {
        Some(reason) => ResponseView::Failure {
            kind: FailureKind::Unauthenticated,
            message: reason_message(reason),
        },
        None => if d.methods.contains(method) {
            ResponseView::Success { message: greeting(req.name) }
        } else {
            ResponseView::Failure {
                kind: FailureKind::UnknownMethod,
                message: unknown_method_message(),
            }
        },
    }
}

/// Wires an ordered list of interceptors in front of a registry of method
/// handlers. It holds no per-call state: both lists are fixed once built.
pub struct Dispatcher {
    interceptors: Vec<AuthInterceptor>,
    handlers: Vec<(String, MyGreeter)>,
}

impl View for Dispatcher {
    type V = DispatcherView;

    closed spec fn view(&self) -> DispatcherView {
        DispatcherView {
            interceptors: Seq::new(self.interceptors@.len(), |i: int| self.interceptors@[i]@),
            methods: Seq::new(self.handlers@.len(), |i: int| self.handlers@[i].0@),
        }
    }
}

impl Dispatcher {
    /// A dispatcher with no interceptors and no handlers.
    pub fn new() -> (d: Dispatcher)
        ensures
            d@.interceptors == Seq::<Seq<char>>::empty(),
            d@.methods == Seq::<Seq<char>>::empty(),
    {
        let d = Dispatcher { interceptors: Vec::new(), handlers: Vec::new() };
        proof {
            assert(d@.interceptors =~= Seq::<Seq<char>>::empty());
            assert(d@.methods =~= Seq::<Seq<char>>::empty());
        }
        d
    }

    /// Appends an interceptor to the end of the configured order.
    pub fn add_interceptor(&mut self, interceptor: AuthInterceptor)
        ensures
            final(self)@.interceptors == old(self)@.interceptors.push(interceptor@),
            final(self)@.methods == old(self)@.methods,
    {
        self.interceptors.push(interceptor);
        proof {
            assert(self@.interceptors =~= old(self)@.interceptors.push(interceptor@));
            assert(self@.methods =~= old(self)@.methods);
        }
    }

    /// Registers a handler under a method name.
    pub fn add_handler(&mut self, method: String, greeter: MyGreeter)
        ensures
            final(self)@.methods == old(self)@.methods.push(method@),
            final(self)@.interceptors == old(self)@.interceptors,
    {
        self.handlers.push((method, greeter));
        proof {
            assert(self@.methods =~= old(self)@.methods.push(self.handlers@.last().0@));
            assert(self@.interceptors =~= old(self)@.interceptors);
        }
    }

    /// Runs the interceptors in configured order; the first rejection answers
    /// the call and nothing after it runs. When all approve, or none are
    /// configured, the handler registered for `method` answers the call, and a
    /// method with no handler is a dispatch failure distinct from an
    /// authentication failure.
    pub fn dispatch(&self, method: &str, request: &Request) -> (r: Response)
        ensures
            r@ == spec_dispatch(self@, method@, request@),
    {
        let ghost m = request@.metadata;
        proof {
            assert(self@.interceptors.skip(0) =~= self@.interceptors);
        }
        let mut i: usize = 0;
        while i < self.interceptors.len()
            invariant
                i <= self.interceptors.len(),
                self@.interceptors.len() == self.interceptors@.len(),
                m == request@.metadata,
                first_rejection(self@.interceptors, m) == first_rejection(
                    self@.interceptors.skip(i as int),
                    m,
                ),
            decreases self.interceptors.len() - i,
        {
            let decision = self.interceptors[i].authenticate(&request.metadata);
            proof {
                assert(self@.interceptors.skip(i as int)[0] == self@.interceptors[i as int]);
            }
            match decision {
                AuthDecision::Rejected { reason } => {
                    return Response::Failure {
                        kind: FailureKind::Unauthenticated,
                        message: reason.message(),
                    };
                },
                AuthDecision::Approved => {
                    proof {
                        assert(self@.interceptors.skip(i as int).drop_first() =~= self@.interceptors.skip(
                            i as int + 1,
                        ));
                    }
                },
            }
            i += 1;
        }
        proof {
            assert(self@.interceptors.skip(i as int).len() == 0);
        }
        let method_name = String::from_str(method);
        let mut j: usize = 0;
        while j < self.handlers.len()
            invariant
                j <= self.handlers.len(),
                self@.methods.len() == self.handlers@.len(),
                method_name@ == method@,
                m == request@.metadata,
                first_rejection(self@.interceptors, m) is None,
                forall|k: int| 0 <= k < j ==> self@.methods[k] != method@,
            decreases self.handlers.len() - j,
        {
            let entry = &self.handlers[j];
            if entry.0 == method_name {
                let reply = entry.1.say_hello(&request.payload);
                proof {
                    assert(self@.methods[j as int] == method@);
                    assert(self@.methods.contains(method@));
                }
                return Response::Success { reply };
            }
            j += 1;
        }
        proof {
            assert(!self@.methods.contains(method@));
        }
        Response::Failure {
            kind: FailureKind::UnknownMethod,
            message: String::from_str("unknown method"),
        }
    }
}

/// A rejected call is answered with that rejection alone: the handler registry
/// and the payload play no part in the response.
pub proof fn lemma_rejection_short_circuits(
    d: DispatcherView,
    method: Seq<char>,
    req: RequestView,
    reason: RejectReason,
)
    requires
        first_rejection(d.interceptors, req.metadata) == Some(reason),
    ensures
        spec_dispatch(d, method, req) == (ResponseView::Failure {
            kind: FailureKind::Unauthenticated,
            message: reason_message(reason),
        }),
{
}

/// When some interceptor rejects, the response is independent of the handler
/// registry, the called method and the payload: the handler is never invoked.
pub proof fn lemma_rejected_call_ignores_handlers(
    d1: DispatcherView,
    d2: DispatcherView,
    method1: Seq<char>,
    method2: Seq<char>,
    req1: RequestView,
    req2: RequestView,
)
    requires
        d1.interceptors == d2.interceptors,
        req1.metadata == req2.metadata,
        first_rejection(d1.interceptors, req1.metadata) is Some,
    ensures
        spec_dispatch(d1, method1, req1) == spec_dispatch(d2, method2, req2),
{
}

/// A handler cannot tell a call that every interceptor approved from one made
/// with no interceptors configured: the responses coincide.
pub proof fn lemma_approval_indistinguishable_from_absence(
    d: DispatcherView,
    method: Seq<char>,
    req: RequestView,
)
    requires
        first_rejection(d.interceptors, req.metadata) is None,
    ensures
        spec_dispatch(d, method, req) == spec_dispatch(
            (DispatcherView { interceptors: Seq::empty(), methods: d.methods }),
            method,
            req,
        ),
{
}

} // verus!
