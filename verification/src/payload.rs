//! The two records the service answers with, and their mathematical views.

use vstd::prelude::*;

verus! {

/// What the health probe reports.
#[derive(Debug, Clone, PartialEq, Eq)]
pub struct HealthCheck {
    pub status: String,
    pub message: String,
}

/// A greeting, with the label of whoever produced it.
#[derive(Debug, Clone, PartialEq, Eq)]
pub struct HelloResponse {
    pub message: String,
    pub generated_by: String,
}

/// A `HealthCheck` as two sequences of characters.
pub struct HealthCheckView {
    pub status: Seq<char>,
    pub message: Seq<char>,
}

/// A `HelloResponse` as two sequences of characters.
pub struct HelloResponseView {
    pub message: Seq<char>,
    pub generated_by: Seq<char>,
}

impl View for HealthCheck {
    type V = HealthCheckView;

    open spec fn view(&self) -> HealthCheckView {
        HealthCheckView { status: self.status@, message: self.message@ }
    }
}

impl View for HelloResponse {
    type V = HelloResponseView;

    open spec fn view(&self) -> HelloResponseView {
        HelloResponseView { message: self.message@, generated_by: self.generated_by@ }
    }
}

/// The report of a running service.
pub open spec fn health_report() -> HealthCheckView {
    HealthCheckView { status: "healthy"@, message: "Generated Rust Web API is running"@ }
}

/// The fixed welcome at the root of the service.
pub open spec fn welcome() -> HelloResponseView {
    HelloResponseView {
        message: "Welcome to the generated Rust Web API!"@,
        generated_by: "Universal Project Generator with CppProlog"@,
    }
}

/// The text that greets `name`: the name stands in it as it was given.
pub open spec fn greeting_text(name: Seq<char>) -> Seq<char> {
    "Hello, "@ + name + "! Welcome to the generated Rust Web API! 🎉"@
}

/// The greeting for `name`.
pub open spec fn greeting(name: Seq<char>) -> HelloResponseView {
    HelloResponseView {
        message: greeting_text(name),
        generated_by: "Universal Project Generator"@,
    }
}

} // verus!
