use hello_gate::auth::AuthInterceptor;
use hello_gate::config::{build_dispatcher, token_or_default, Config};
use hello_gate::dispatch::{Dispatcher, FailureKind, Request, Response};
use hello_gate::greeter::{HelloRequest, MyGreeter};
use hello_gate::metadata::Metadata;

fn config(authorization: bool, token: &str) -> Config {
    Config {
        host: "[::1]".to_string(),
        port: "50051".to_string(),
        authorization,
        token: token.to_string(),
    }
}

fn request(header: Option<&str>, name: &str) -> Request {
    let mut metadata = Metadata::new();
    if let Some(value) = header {
        metadata.insert("authorization".to_string(), value.to_string());
    }
    Request { metadata, payload: HelloRequest { name: name.to_string() } }
}

#[test]
fn auth_disabled_greets_the_caller() {
    let d = build_dispatcher(&config(false, "unused"));
    let r = d.dispatch("say_hello", &request(None, "World"));
    match r {
        Response::Success { reply } => assert_eq!(reply.message, "Hello World!"),
        Response::Failure { .. } => panic!("expected success"),
    }
}

#[test]
fn auth_enabled_without_header_is_unauthenticated() {
    let d = build_dispatcher(&config(true, "secret"));
    let r = d.dispatch("say_hello", &request(None, "World"));
    assert_eq!(
        r,
        Response::Failure {
            kind: FailureKind::Unauthenticated,
            message: "missing credential".to_string()
        }
    );
}

#[test]
fn auth_enabled_with_wrong_token_is_unauthenticated() {
    let d = build_dispatcher(&config(true, "secret"));
    let r = d.dispatch("say_hello", &request(Some("Bearer wrong"), "World"));
    assert_eq!(
        r,
        Response::Failure {
            kind: FailureKind::Unauthenticated,
            message: "invalid credential".to_string()
        }
    );
}

#[test]
fn auth_enabled_with_exact_header_greets_empty_name() {
    let d = build_dispatcher(&config(true, "secret"));
    let r = d.dispatch("say_hello", &request(Some("Bearer secret"), ""));
    match r {
        Response::Success { reply } => assert_eq!(reply.message, "Hello !"),
        Response::Failure { .. } => panic!("expected success"),
    }
}

#[test]
fn lowercase_scheme_is_unauthenticated() {
    let d = build_dispatcher(&config(true, "secret"));
    let r = d.dispatch("say_hello", &request(Some("bearer secret"), "World"));
    assert_eq!(
        r,
        Response::Failure {
            kind: FailureKind::Unauthenticated,
            message: "invalid credential".to_string()
        }
    );
}

#[test]
fn unknown_method_is_a_distinct_failure() {
    let d = build_dispatcher(&config(false, "unused"));
    let r = d.dispatch("say_goodbye", &request(None, "World"));
    assert_eq!(
        r,
        Response::Failure { kind: FailureKind::UnknownMethod, message: "unknown method".to_string() }
    );
}

#[test]
fn rejection_short_circuits_past_the_handlers() {
    let mut with_handler = Dispatcher::new();
    with_handler.add_interceptor(AuthInterceptor::new("secret".to_string()));
    with_handler.add_handler("say_hello".to_string(), MyGreeter {});

    let mut without_handler = Dispatcher::new();
    without_handler.add_interceptor(AuthInterceptor::new("secret".to_string()));

    let req = request(Some("Bearer wrong"), "World");
    let answered = with_handler.dispatch("say_hello", &req);
    let bare = without_handler.dispatch("say_hello", &req);
    assert_eq!(answered, bare);
    assert_eq!(
        answered,
        Response::Failure {
            kind: FailureKind::Unauthenticated,
            message: "invalid credential".to_string()
        }
    );
}

#[test]
fn interceptors_run_in_configured_order() {
    let mut d = Dispatcher::new();
    d.add_interceptor(AuthInterceptor::new("first".to_string()));
    d.add_interceptor(AuthInterceptor::new("second".to_string()));
    d.add_handler("say_hello".to_string(), MyGreeter {});

    // The header satisfies only the second interceptor, so the first rejects.
    let r = d.dispatch("say_hello", &request(Some("Bearer second"), "World"));
    assert_eq!(
        r,
        Response::Failure {
            kind: FailureKind::Unauthenticated,
            message: "invalid credential".to_string()
        }
    );

    // A header satisfying both interceptors reaches the handler.
    let mut both = Dispatcher::new();
    both.add_interceptor(AuthInterceptor::new("token".to_string()));
    both.add_interceptor(AuthInterceptor::new("token".to_string()));
    both.add_handler("say_hello".to_string(), MyGreeter {});
    let r = both.dispatch("say_hello", &request(Some("Bearer token"), "World"));
    match r {
        Response::Success { reply } => assert_eq!(reply.message, "Hello World!"),
        Response::Failure { .. } => panic!("expected success"),
    }
}

#[test]
fn say_hello_concatenates_the_name() {
    let greeter = MyGreeter {};
    let reply = greeter.say_hello(&HelloRequest { name: "World".to_string() });
    assert_eq!(reply.message, "Hello World!");
    let empty = greeter.say_hello(&HelloRequest { name: "".to_string() });
    assert_eq!(empty.message, "Hello !");
}

#[test]
fn token_falls_back_to_the_default() {
    assert_eq!(token_or_default(Some("secret".to_string())), "secret");
    assert_eq!(token_or_default(None), "authorization");
}
