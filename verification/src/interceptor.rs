//! The request interceptor: the single mutation applied to an outbound
//! request just before it is sent. In proxy mode with a project id it
//! attaches the API-key header and rewrites the URI onto the tenant-scoped
//! proxy path; otherwise it leaves the request untouched.

use vstd::prelude::*;

use crate::config::RootConfig;
use crate::errors::Error;
use crate::request::OutboundRequest;
use crate::request::RequestView;
use crate::uri::authority_part;
use crate::uri::base_part;
use crate::uri::lemma_rewrite_tenant_prefix;
use crate::uri::rewrite_uri;
use crate::uri::rewritten_uri;
use crate::uri::tenant_path;
use crate::uri::wf_uri;

verus! {

/// Whether the interceptor rewrites at all: it acts only when the client
/// holds proxy-mode credentials and the call supplies a project id.
pub open spec fn proxy_applies(config: Option<RootConfig>, project_id: Option<i32>) -> bool {
    config is Some && project_id is Some
}

/// Rewrites the request in place for tenant-scoped proxying, or leaves it
/// byte-for-byte unmodified outside proxy mode. In proxy mode the API-key
/// header is appended (never replacing existing occurrences) and the URI is
/// rewritten; a request whose URI cannot be decomposed fails loudly, with
/// the request left unmodified rather than sent corrupted.
pub fn add_root_auth(
    req: &mut OutboundRequest,
    config: &Option<RootConfig>,
    project_id: Option<i32>,
) -> (r: Result<(), Error>)
    ensures
        !proxy_applies(*config, project_id) ==> r is Ok && final(req)@ == old(req)@,
        proxy_applies(*config, project_id) && wf_uri(old(req)@.uri) ==> {
            &&& r is Ok
            &&& final(req)@.uri == rewritten_uri(
                old(req)@.uri,
                config->Some_0.org_id as int,
                project_id->Some_0 as int,
            )
            &&& final(req)@.headers == old(req)@.headers.push(
                ("x-api-key"@, config->Some_0.api_key@),
            )
        },
        proxy_applies(*config, project_id) && !wf_uri(old(req)@.uri) ==> {
            &&& (r matches Err(e) && e == Error::InvalidUrl)
            &&& final(req)@ == old(req)@
        },
{
    let cfg = match config {
        Some(cfg) => cfg,
        None => {
            return Ok(());
        },
    };
    let pid = match project_id {
        Some(pid) => pid,
        None => {
            return Ok(());
        },
    };

    match rewrite_uri(req.uri.as_str(), cfg.org_id, pid) {
        Ok(new_uri) => {
            req.append_header(String::from_str("x-api-key"), cfg.api_key.clone());
            req.set_uri(new_uri);
            Ok(())
        },
        Err(e) => Err(e),
    }
}

/// Law: after a proxy-mode rewrite the request's header occurrences
/// contain the configured API key under "x-api-key", and its URI starts
/// with the original authority followed immediately by the tenant-scoped
/// path.
pub proof fn lemma_proxy_call_shape(
    before: RequestView,
    after: RequestView,
    key: Seq<char>,
    org: int,
    project: int,
)
    requires
        after.uri == rewritten_uri(before.uri, org, project),
        after.headers == before.headers.push(("x-api-key"@, key)),
    ensures
        after.headers.contains(("x-api-key"@, key)),
        ({
            let a = authority_part(base_part(before.uri));
            let tp = tenant_path(org, project);
            &&& after.uri.len() >= a.len() + tp.len()
            &&& after.uri.subrange(0, a.len() as int) == a
            &&& after.uri.subrange(a.len() as int, a.len() + tp.len() as int) == tp
        }),
{
    lemma_rewrite_tenant_prefix(before.uri, org, project);
    assert(after.headers.contains(("x-api-key"@, key))) by {
        assert(after.headers[after.headers.len() - 1] == ("x-api-key"@, key));
    }
}

} // verus!
