//! A small greeting service, verified.
//!
//! A request is a method and a path. [`service::respond`] finds its route in
//! a fixed table, runs the handler of that route and returns the answer: a
//! status, and a payload that is written as JSON. The console program greets
//! one typed name through [`console::greet_line`].

pub mod console;
pub mod handlers;
pub mod json;
pub mod payload;
pub mod reply;
pub mod router;
pub mod service;
pub mod text;

pub use handlers::{health, hello, root};
pub use payload::{HealthCheck, HelloResponse};
pub use reply::Reply;
pub use router::Route;
pub use service::respond;
