use greeter::handlers::{health, hello, root};
use greeter::reply::Reply;
use greeter::router::Route;
use greeter::service::{dispatch, respond};

#[test]
fn test_health_endpoint() {
    let reply = respond("GET", "/health");
    assert!((200..300).contains(&reply.status()));
}

#[test]
fn health_answers_200_and_healthy() {
    let reply = respond("GET", "/health");
    assert_eq!(reply.status(), 200);
    assert_eq!(reply.content_type(), Some("application/json"));
    assert_eq!(reply, Reply::Health(health()));
    assert_eq!(
        reply.body(),
        "{\"status\":\"healthy\",\"message\":\"Generated Rust Web API is running\"}"
    );
}

#[test]
fn root_answers_the_welcome_every_time() {
    let first = respond("GET", "/");
    for _ in 0..3 {
        let again = respond("GET", "/");
        assert_eq!(again, first);
        assert_eq!(again.status(), 200);
        assert_eq!(
            again.body(),
            "{\"message\":\"Welcome to the generated Rust Web API!\",\"generated_by\":\"Universal Project Generator with CppProlog\"}"
        );
    }
    assert_eq!(first, Reply::Greeting(root()));
    assert_eq!(first.content_type(), Some("application/json"));
}

#[test]
fn hello_answers_200_with_the_greeting() {
    for name in ["Alice", "Bob", "Zoe", "Zoë", "x", "a b", "🎉"] {
        let reply = respond("GET", &format!("/hello/{}", name));
        assert_eq!(reply.status(), 200);
        assert_eq!(reply.content_type(), Some("application/json"));
        match &reply {
            Reply::Greeting(greeting) => {
                assert_eq!(
                    greeting.message,
                    format!("Hello, {}! Welcome to the generated Rust Web API! 🎉", name)
                );
                assert_eq!(greeting.generated_by, "Universal Project Generator");
            }
            other => panic!("no greeting: {:?}", other),
        }
        assert_eq!(reply, Reply::Greeting(hello(name)));
    }
}

#[test]
fn hello_zoe_body_on_the_wire() {
    let reply = respond("GET", "/hello/Zoe");
    assert_eq!(reply.status(), 200);
    assert_eq!(
        reply.body(),
        "{\"message\":\"Hello, Zoe! Welcome to the generated Rust Web API! 🎉\",\"generated_by\":\"Universal Project Generator\"}"
    );
}

#[test]
fn unmatched_requests_answer_404_every_time() {
    for _ in 0..3 {
        for (method, path) in [
            ("GET", "/nonexistent"),
            ("GET", "/hello/"),
            ("GET", "/hello/a/b"),
            ("GET", "/health/"),
            ("GET", ""),
            ("POST", "/"),
            ("POST", "/health"),
            ("DELETE", "/hello/Alice"),
        ] {
            let reply = respond(method, path);
            assert_eq!(reply, Reply::NotFound);
            assert_eq!(reply.status(), 404);
            assert!(!(200..300).contains(&reply.status()));
            assert_eq!(reply.content_type(), None);
            assert_eq!(reply.body(), "");
        }
    }
}

#[test]
fn interleaved_requests_do_not_leak_into_each_other() {
    let alice_before = respond("GET", "/hello/Alice");
    let bob = respond("GET", "/hello/Bob");
    let health_between = respond("GET", "/health");
    let alice_after = respond("GET", "/hello/Alice");
    assert_eq!(alice_before, alice_after);
    assert_eq!(alice_before.body(), alice_after.body());
    assert_ne!(alice_before, bob);
    assert!(alice_after.body().contains("Alice"));
    assert!(!alice_after.body().contains("Bob"));
    assert!(bob.body().contains("Bob"));
    assert!(!bob.body().contains("Alice"));
    assert_eq!(health_between, respond("GET", "/health"));
}

#[test]
fn dispatch_runs_the_handler_of_each_route() {
    assert_eq!(dispatch(&Route::Root), Reply::Greeting(root()));
    assert_eq!(dispatch(&Route::Health), Reply::Health(health()));
    assert_eq!(dispatch(&Route::Hello("Ann".to_string())), Reply::Greeting(hello("Ann")));
    assert_eq!(dispatch(&Route::Hello("a/b".to_string())), Reply::Greeting(hello("a/b")));
    assert_eq!(dispatch(&Route::NotFound), Reply::NotFound);
}
