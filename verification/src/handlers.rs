//! The three handlers: each builds the payload of one route.

use vstd::prelude::*;
use crate::payload::{greeting, health_report, welcome, HealthCheck, HelloResponse};

verus! {

/// Reports that the service is running.
pub fn health() -> (report: HealthCheck)
    ensures
        report@ == health_report(),
{
    HealthCheck {
        status: String::from_str("healthy"),
        message: String::from_str("Generated Rust Web API is running"),
    }
}

/// Greets `name`, which is put into the message unchanged.
pub fn hello(name: &str) -> (reply: HelloResponse)
    ensures
        reply@ == greeting(name@),
{
    let mut message = String::from_str("Hello, ");
    message.append(name);
    message.append("! Welcome to the generated Rust Web API! 🎉");
    HelloResponse { message, generated_by: String::from_str("Universal Project Generator") }
}

/// The welcome at the root of the service.
pub fn root() -> (reply: HelloResponse)
    ensures
        reply@ == welcome(),
{
    HelloResponse {
        message: String::from_str("Welcome to the generated Rust Web API!"),
        generated_by: String::from_str("Universal Project Generator with CppProlog"),
    }
}

} // verus!
