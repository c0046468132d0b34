//! The route table: which handler answers a request, decided by its method
//! and path alone.

use vstd::prelude::*;
use crate::text::{contains_char, same_text};

verus! {

/// The handler that a request is given to.
#[derive(Debug, Clone, PartialEq, Eq)]
pub enum Route {
    /// `GET /`
    Root,
    /// `GET /health`
    Health,
    /// `GET /hello/{name}`, with the name that stood in the path.
    Hello(String),
    /// Any other request.
    NotFound,
}

/// A `Route` with its name as a sequence of characters.
pub enum RouteView {
    Root,
    Health,
    Hello(Seq<char>),
    NotFound,
}

impl View for Route {
    type V = RouteView;

    open spec fn view(&self) -> RouteView {
        match self {
            Route::Root => RouteView::Root,
            Route::Health => RouteView::Health,
            Route::Hello(name) => RouteView::Hello(name@),
            Route::NotFound => RouteView::NotFound,
        }
    }
}

/// A path segment that can stand for a name: not empty, and without a `/`.
pub open spec fn is_segment(name: Seq<char>) -> bool {
    name.len() > 0 && !name.contains('/')
}

/// What follows `prefix` in `path`, where that is a single segment.
pub open spec fn segment_behind(prefix: Seq<char>, path: Seq<char>) -> Option<Seq<char>> {
    let rest = path.skip(prefix.len() as int);
    if prefix.is_prefix_of(path) && is_segment(rest) {
        Some(rest)
    } else {
        None
    }
}

/// The route table. Method and path are compared exactly; the name of the
/// greeting route is the rest of the path, character for character.
pub open spec fn route_of(method: Seq<char>, path: Seq<char>) -> RouteView {
    if method != "GET"@ {
        RouteView::NotFound
    } else if path == "/"@ {
        RouteView::Root
    } else if path == "/health"@ {
        RouteView::Health
    } else {
        match segment_behind("/hello/"@, path) {
            Some(name) => RouteView::Hello(name),
            None => RouteView::NotFound,
        }
    }
}

/// `segment_behind` finds a name exactly when the path is the prefix and
/// then one segment, and the name is that segment.
pub proof fn segment_behind_is_split(prefix: Seq<char>, path: Seq<char>, name: Seq<char>)
    ensures
        segment_behind(prefix, path) == Some(name) <==> path == prefix + name && is_segment(name),
{
    if path == prefix + name {
        assert(path.skip(prefix.len() as int) == name);
        assert(path.subrange(0, prefix.len() as int) == prefix);
    }
    if segment_behind(prefix, path) == Some(name) {
        assert(path == prefix + path.skip(prefix.len() as int));
    }
}

/// Takes the single segment that follows `prefix` out of `path`.
pub fn take_segment(prefix: &str, path: &str) -> (found: Option<String>)
    ensures
        match found {
            Some(name) => segment_behind(prefix@, path@) == Some(name@),
            None => segment_behind(prefix@, path@) is None,
        },
{
    let whole: usize = path.unicode_len();
    let skipped: usize = prefix.unicode_len();
    if whole <= skipped {
        return None;
    }
    let head = path.substring_char(0, skipped);
    if !same_text(head, prefix) {
        return None;
    }
    let rest = path.substring_char(skipped, whole);
    assert(rest@ == path@.skip(skipped as int));
    if contains_char(rest, '/') {
        return None;
    }
    Some(String::from_str(rest))
}

/// Finds the handler for a request.
pub fn resolve(method: &str, path: &str) -> (route: Route)
    ensures
        route@ == route_of(method@, path@),
{
    if !same_text(method, "GET") {
        Route::NotFound
    } else if same_text(path, "/") {
        Route::Root
    } else if same_text(path, "/health") {
        Route::Health
    } else {
        match take_segment("/hello/", path) {
            Some(name) => Route::Hello(name),
            None => Route::NotFound,
        }
    }
}

} // verus!
