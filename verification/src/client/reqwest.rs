//! HTTP executor backed by a `reqwest` client.

use vstd::prelude::*;

verus! {

/// The outside HTTP client type, carried opaquely.
#[verifier::external_type_specification]
#[verifier::external_body]
pub struct ExReqwestClient(::reqwest::Client);

/// Calls `reqwest::Client::new`, which builds a client with default settings.
/// Nothing is stated of the client: it is an opaque handle. reqwest documents
/// a panic when a TLS backend cannot be initialised or the resolver cannot
/// load the system configuration; this build enables no TLS backend.
#[verifier::external_body]
fn new_http_client() -> (client: ::reqwest::Client) {
    ::reqwest::Client::new()
}

/// Executor that sends Telegram Bot API requests over HTTP.
pub struct Executor {
    client: ::reqwest::Client,
}

impl Executor {
    /// The HTTP client held by the executor.
    pub closed spec fn http(&self) -> ::reqwest::Client {
        self.client
    }

    /// Creates an executor with a fresh HTTP client.
    pub fn new() -> (executor: Self) {
        Executor { client: new_http_client() }
    }

    /// The HTTP client the executor sends its requests with.
    pub fn http_client(&self) -> (client: &::reqwest::Client)
        ensures
            *client == self.http(),
    {
        &self.client
    }
}

} // verus!
