//! A typed client library over the GitHub v3 REST API.
//!
//! The library holds the request/response mapping layer: it builds the HTTP
//! requests (method, URL, JSON body) for pull-request, branch and git-reference
//! operations, and normalizes success and error responses into typed results.
//! Sending the requests over the network is left to the calling application;
//! every function here is a pure, verified computation on plain values.

pub mod branch;
pub mod client;
pub mod http;
pub mod json;
pub mod pull_request;
pub mod reference;
pub mod util;
