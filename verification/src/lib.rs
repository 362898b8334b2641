//! A typed client library for a creator-support REST API.
//!
//! The verified core of the crate is the response classifier: given the
//! status code, the content-type header and the body text of a completed
//! HTTP request, it decides whether the response is a success, a client
//! fault or a server-side application fault, and decodes success bodies
//! into typed records.  The transport itself (an HTTP client) lives
//! outside this crate and hands the classifier plain values.

pub mod classify;
pub mod digits;
pub mod entities;
pub mod json;
pub mod request;

pub use classify::Error;
pub use classify::ServerError;
pub use entities::Extra;
pub use entities::Membership;
pub use entities::Page;
pub use entities::Purchase;
pub use entities::Support;
pub use json::JsonValue;
pub use request::MemberStatus;
