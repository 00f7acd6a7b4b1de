//! A multi-tenant proxying client core for an S3-compatible object store.
//!
//! The heart of the library is the request interceptor: it rewrites an
//! outbound request's URI onto a tenant-scoped proxy path and attaches the
//! API-key header, leaving direct-mode requests untouched. A counting gate
//! bounds how many operations may be in flight at once.

use vstd::prelude::*;

pub mod client;
pub mod config;
pub mod errors;
pub mod gate;
pub mod interceptor;
pub mod numfmt;
pub mod request;
pub mod uri;

pub use client::Client;
pub use config::RootConfig;
pub use config::S3Credentials;
pub use errors::wrap_service_error;
pub use errors::Error;
pub use errors::Operation;
pub use gate::Gate;
pub use gate::GateEvent;
pub use interceptor::add_root_auth;
pub use request::OutboundRequest;

verus! {

/// Upper bound on the number of S3 operations in flight at once.
pub const MAX_CONCURRENT: usize = 20;

} // verus!
