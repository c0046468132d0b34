//! The service as a function: a request goes in, its answer comes out.
//! Nothing else is read and nothing is kept, so equal requests get equal
//! answers and no request can reach into the answer of another.

use vstd::prelude::*;
use crate::handlers::{health, hello, root};
use crate::json::{
    greeting_on_the_wire, health_report_on_the_wire, hello_json, is_plain, welcome_on_the_wire,
};
use crate::payload::{greeting, greeting_text, health_report, welcome};
use crate::reply::{Reply, ReplyView};
use crate::router::{is_segment, resolve, route_of, segment_behind, segment_behind_is_split, Route, RouteView};

verus! {

/// The answer of each handler.
pub open spec fn reply_of(route: RouteView) -> ReplyView {
    match route {
        RouteView::Root => ReplyView::Greeting(welcome()),
        RouteView::Health => ReplyView::Health(health_report()),
        RouteView::Hello(name) => ReplyView::Greeting(greeting(name)),
        RouteView::NotFound => ReplyView::NotFound,
    }
}

/// The answer to a request with this method and path.
pub open spec fn answer(method: Seq<char>, path: Seq<char>) -> ReplyView {
    reply_of(route_of(method, path))
}

/// The requests that a handler takes: a `GET` of `/`, of `/health`, or of
/// `/hello/` and one segment.
pub open spec fn is_served(method: Seq<char>, path: Seq<char>) -> bool {
    &&& method == "GET"@
    &&& {
        ||| path == "/"@
        ||| path == "/health"@
        ||| exists|name: Seq<char>| is_segment(name) && path == "/hello/"@ + name
    }
}

/// Runs the handler of a route.
pub fn dispatch(route: &Route) -> (reply: Reply)
    ensures
        reply@ == reply_of(route@),
{
    match route {
        Route::Root => Reply::Greeting(root()),
        Route::Health => Reply::Health(health()),
        Route::Hello(name) => Reply::Greeting(hello(name.as_str())),
        Route::NotFound => Reply::NotFound,
    }
}

/// Answers a request.
pub fn respond(method: &str, path: &str) -> (reply: Reply)
    ensures
        reply@ == answer(method@, path@),
{
    let route = resolve(method, path);
    dispatch(&route)
}

/// The route table gives the greeting route to nothing but `/hello/` and
/// one segment, and takes that segment as the name.
pub proof fn greeted_name_is_the_segment(method: Seq<char>, path: Seq<char>, name: Seq<char>)
    ensures
        route_of(method, path) == RouteView::Hello(name) <==> {
            &&& method == "GET"@
            &&& is_segment(name)
            &&& path == "/hello/"@ + name
        },
{
    reveal_strlit("/hello/");
    reveal_strlit("/health");
    reveal_strlit("/");
    segment_behind_is_split("/hello/"@, path, name);
    if route_of(method, path) == RouteView::Hello(name) {
        assert(segment_behind("/hello/"@, path) == Some(name));
    }
}

/// A `GET` of `/hello/` and a name is answered with status 200 and the
/// greeting for exactly that name, for every name that is one segment. Where
/// the name is plain text, the body holds it as it was given.
pub proof fn greeting_is_served(name: Seq<char>)
    requires
        is_segment(name),
    ensures
        ({
            let reply = answer("GET"@, "/hello/"@ + name);
            &&& reply == ReplyView::Greeting(greeting(name))
            &&& reply.status_code() == 200
            &&& reply.media_type() == Some("application/json"@)
            &&& reply.body_text() == hello_json(greeting(name))
            &&& is_plain(name) ==> reply.body_text() == "{\"message\":\"Hello, "@ + name
                + "! Welcome to the generated Rust Web API! 🎉\",\"generated_by\":\"Universal Project Generator\"}"@
        }),
        greeting(name).message == "Hello, "@ + name
            + "! Welcome to the generated Rust Web API! 🎉"@,
{
    greeted_name_is_the_segment("GET"@, "/hello/"@ + name, name);
    if is_plain(name) {
        greeting_on_the_wire(name);
    }
}

/// A `GET` of `/health` is answered with status 200 and the status
/// `healthy`. Method and path are all that the service looks at.
pub proof fn health_is_served()
    ensures
        ({
            let reply = answer("GET"@, "/health"@);
            &&& reply == ReplyView::Health(health_report())
            &&& reply.status_code() == 200
            &&& reply.media_type() == Some("application/json"@)
            &&& reply.body_text()
                == "{\"status\":\"healthy\",\"message\":\"Generated Rust Web API is running\"}"@
        }),
        health_report().status == "healthy"@,
{
    reveal_strlit("/health");
    reveal_strlit("/");
    assert("/health"@.len() != "/"@.len());
    health_report_on_the_wire();
}

/// A `GET` of `/` is answered with the fixed welcome, whatever came before.
pub proof fn welcome_is_served()
    ensures
        ({
            let reply = answer("GET"@, "/"@);
            &&& reply == ReplyView::Greeting(welcome())
            &&& reply.status_code() == 200
            &&& reply.media_type() == Some("application/json"@)
            &&& reply.body_text()
                == "{\"message\":\"Welcome to the generated Rust Web API!\",\"generated_by\":\"Universal Project Generator with CppProlog\"}"@
        }),
        welcome().message == "Welcome to the generated Rust Web API!"@,
{
    welcome_on_the_wire();
}

/// A request gets a 2xx status exactly when a handler takes it; every other
/// request gets 404 and no body.
pub proof fn unserved_is_not_found(method: Seq<char>, path: Seq<char>)
    ensures
        is_served(method, path) <==> answer(method, path).is_success(),
        !is_served(method, path) ==> {
            &&& answer(method, path) == ReplyView::NotFound
            &&& answer(method, path).status_code() == 404
            &&& answer(method, path).body_text().len() == 0
        },
{
    if is_served(method, path) {
        if path != "/"@ && path != "/health"@ {
            let name = choose|name: Seq<char>| is_segment(name) && path == "/hello/"@ + name;
            segment_behind_is_split("/hello/"@, path, name);
        }
    }
    if answer(method, path).is_success() {
        if path != "/"@ && path != "/health"@ {
            let name = segment_behind("/hello/"@, path)->Some_0;
            segment_behind_is_split("/hello/"@, path, name);
        }
    }
}

/// Two different names never get the same greeting, so the answer to one
/// request of the greeting route cannot be taken for the answer to another.
pub proof fn greetings_are_distinct(first: Seq<char>, second: Seq<char>)
    requires
        first != second,
    ensures
        greeting_text(first) != greeting_text(second),
        greeting(first) != greeting(second),
        is_segment(first) && is_segment(second) ==> answer("GET"@, "/hello/"@ + first) != answer(
            "GET"@,
            "/hello/"@ + second,
        ),
{
    let head = "Hello, "@;
    let tail = "! Welcome to the generated Rust Web API! 🎉"@;
    if greeting_text(first) == greeting_text(second) {
        assert((head + first + tail).len() == (head + second + tail).len());
        assert forall|i: int| 0 <= i < first.len() implies first[i] == second[i] by {
            assert((head + first + tail)[head.len() + i] == first[i]);
            assert((head + second + tail)[head.len() + i] == second[i]);
        }
        assert(first =~= second);
    }
    if is_segment(first) && is_segment(second) {
        greeting_is_served(first);
        greeting_is_served(second);
    }
}

} // verus!
