//! A typed client for the Adzuna job search service: one request builder per route, each of
//! which gathers the query parameters of its route, and the decisions that turn the server's
//! answer into a result.

pub use self::client::Client;
pub use self::request::RequestBuilder;

pub mod client;
pub mod models;
pub mod parameters;
pub mod request;
pub mod wire;
