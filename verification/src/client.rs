//! The client: an endpoint validated at construction time, one of two
//! mutually exclusive authentication modes, and the concurrency gate that
//! bounds operations in flight.

use vstd::prelude::*;

use crate::config::RootConfig;
use crate::config::S3Credentials;
use crate::errors::Error;
use crate::gate::Gate;
use crate::interceptor::add_root_auth;
use crate::interceptor::proxy_applies;
use crate::request::OutboundRequest;
use crate::uri::check_wf_uri;
use crate::uri::rewritten_uri;
use crate::uri::wf_uri;
use crate::MAX_CONCURRENT;

verus! {

/// A client for the tenant-scoped S3 service. In proxy mode it holds a
/// `RootConfig` and rewrites every request; in direct mode it holds raw
/// storage credentials and sends requests untouched.
pub struct Client {
    pub config: Option<RootConfig>,
    pub credentials: Option<S3Credentials>,
    pub endpoint: String,
    pub gate: Gate,
}

impl Client {
    /// Well-formedness: a validated endpoint, a sound gate of the fixed
    /// capacity, and exactly one authentication mode.
    pub open spec fn wf(&self) -> bool {
        &&& wf_uri(self.endpoint@)
        &&& self.gate.wf()
        &&& self.gate.capacity == MAX_CONCURRENT
        &&& !(self.config is Some && self.credentials is Some)
    }

    /// Whether this client routes through the tenant-scoping proxy.
    pub open spec fn is_proxy_mode(&self) -> bool {
        self.config is Some
    }

    /// Creates a proxy-mode client from an endpoint URL, an API key and an
    /// organisation id. Fails exactly when the URL cannot be decomposed.
    pub fn new(url: String, api_key: String, org_id: i32) -> (r: Result<Client, Error>)
        ensures
            r is Ok <==> wf_uri(url@),
            r matches Ok(c) ==> {
                &&& c.wf()
                &&& c.is_proxy_mode()
                &&& (c.config == Some(RootConfig { api_key, org_id }))
                &&& c.credentials is None
                &&& c.endpoint@ == url@
                &&& c.gate.in_flight() == 0
            },
            r is Err ==> (r matches Err(e) && e == Error::InvalidUrl),
    {
        if !check_wf_uri(url.as_str()) {
            return Err(Error::InvalidUrl);
        }
        Ok(
            Client {
                config: Some(RootConfig { api_key, org_id }),
                credentials: None,
                endpoint: url,
                gate: Gate::new(MAX_CONCURRENT),
            },
        )
    }

    /// Creates a direct-mode client from an endpoint URL and raw storage
    /// credentials; no proxy rewriting will happen. Fails exactly when the
    /// URL cannot be decomposed.
    pub fn new_from_s3_credentials(url: String, credentials: S3Credentials) -> (r: Result<
        Client,
        Error,
    >)
        ensures
            r is Ok <==> wf_uri(url@),
            r matches Ok(c) ==> {
                &&& c.wf()
                &&& !c.is_proxy_mode()
                &&& (c.credentials matches Some(cr) && cr == credentials)
                &&& c.endpoint@ == url@
                &&& c.gate.in_flight() == 0
            },
            r is Err ==> (r matches Err(e) && e == Error::InvalidUrl),
    {
        if !check_wf_uri(url.as_str()) {
            return Err(Error::InvalidUrl);
        }
        Ok(
            Client {
                config: None,
                credentials: Some(credentials),
                endpoint: url,
                gate: Gate::new(MAX_CONCURRENT),
            },
        )
    }

    /// Applies the interceptor to one outbound request with this client's
    /// configuration: a rewrite in proxy mode with a project id, a no-op
    /// otherwise.
    pub fn intercept(&self, req: &mut OutboundRequest, project_id: Option<i32>) -> (r: Result<
        (),
        Error,
    >)
        ensures
            !proxy_applies(self.config, project_id) ==> r is Ok && final(req)@ == old(req)@,
            proxy_applies(self.config, project_id) && wf_uri(old(req)@.uri) ==> {
                &&& r is Ok
                &&& final(req)@.uri == rewritten_uri(
                    old(req)@.uri,
                    self.config->Some_0.org_id as int,
                    project_id->Some_0 as int,
                )
                &&& final(req)@.headers == old(req)@.headers.push(
                    ("x-api-key"@, self.config->Some_0.api_key@),
                )
            },
            proxy_applies(self.config, project_id) && !wf_uri(old(req)@.uri) ==> {
                &&& (r matches Err(e) && e == Error::InvalidUrl)
                &&& final(req)@ == old(req)@
            },
    {
        add_root_auth(req, &self.config, project_id)
    }
}

/// The copy-source reference for a server-side object copy: the source
/// bucket and key joined by a single '/'.
pub fn copy_source_of(bucket: &str, key: &str) -> (r: String)
    ensures
        r@ == bucket@ + "/"@ + key@,
{
    let mut s = String::from_str(bucket);
    s.append("/");
    s.append(key);
    s
}

/// The access-key/secret-key pair handed to the underlying client's signer:
/// the direct-mode credentials when present, empty keys otherwise (proxy
/// mode authenticates by header, not by signature).
pub fn signing_keys(credentials: &Option<S3Credentials>) -> (r: (String, String))
    ensures
        credentials matches Some(c) ==> r.0@ == c.access_key_id@ && r.1@ == c.secret_access_key@,
        credentials is None ==> r.0@ == Seq::<char>::empty() && r.1@ == Seq::<char>::empty(),
{
    match credentials {
        Some(c) => (c.access_key_id.clone(), c.secret_access_key.clone()),
        None => (String::new(), String::new()),
    }
}

} // verus!
