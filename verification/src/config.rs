//! Per-client configuration: proxy-mode credentials and direct-mode
//! storage credentials.

use vstd::prelude::*;

verus! {

/// Proxy-mode credentials: the API key sent as the `x-api-key` header and
/// the organisation id woven into the tenant-scoped path.
#[derive(Debug, Clone)]
pub struct RootConfig {
    pub api_key: String,
    pub org_id: i32,
}

/// Direct-mode credentials for native request signing by the underlying
/// storage client; no proxy rewriting happens in this mode.
#[derive(Debug, Clone)]
pub struct S3Credentials {
    pub access_key_id: String,
    pub secret_access_key: String,
    pub session_token: Option<String>,
    pub expiration: Option<String>,
    pub region: String,
}

} // verus!
