//! Verified decomposition and rewriting of request URIs.
//!
//! A URI of the shape `scheme://host[:port][/path][?query]` is split into
//! its authority prefix (everything up to the first '/' after the scheme
//! separator), its path, and its query. Rewriting replaces the path with the
//! tenant-scoped proxy path, keeps the authority, appends the original path
//! unless it is the bare root, and re-appends the query unchanged.

use vstd::prelude::*;

use crate::errors::Error;
use crate::numfmt::dec_int;
use crate::numfmt::i32_to_decimal;

verus! {

/// Least index at or after `from` where `c` occurs in `s`, or -1 if none.
pub open spec fn find_from(s: Seq<char>, c: char, from: int) -> int
    decreases s.len() - from
        when 0 <= from <= s.len()
{
    if from >= s.len() {
        -1
    } else if s[from] == c {
        from
    } else {
        find_from(s, c, from + 1)
    }
}

/// Where `find_from` finds an occurrence, it lies in range and holds `c`.
pub proof fn lemma_find_from_props(s: Seq<char>, c: char, from: int)
    requires
        0 <= from <= s.len(),
    ensures
        ({
            let r = find_from(s, c, from);
            r == -1 || (from <= r < s.len() && s[r] == c)
        }),
    decreases s.len() - from,
{
    if from < s.len() && s[from] != c {
        lemma_find_from_props(s, c, from + 1);
    }
}

/// Finds the least occurrence of `c` in `s` at or after `from`.
pub fn find_char(s: &str, c: char, from: usize) -> (r: Option<usize>)
    requires
        from <= s@.len(),
    ensures
        match r {
            Some(i) => i == find_from(s@, c, from as int),
            None => find_from(s@, c, from as int) == -1,
        },
{
    let len = s.unicode_len();
    let mut i = from;
    while i < len
        invariant
            from <= i <= len,
            len == s@.len(),
            find_from(s@, c, from as int) == find_from(s@, c, i as int),
        decreases len - i,
    {
        if s.get_char(i) == c {
            return Some(i);
        }
        i = i + 1;
    }
    None
}

/// Whether the scheme separator "://" stands at index `i` of `s`.
pub open spec fn scheme_sep_at(s: Seq<char>, i: int) -> bool {
    &&& 0 <= i
    &&& i + 3 <= s.len()
    &&& s[i] == ':'
    &&& s[i + 1] == '/'
    &&& s[i + 2] == '/'
}

/// Least index at or after `from` where "://" stands in `s`, or -1 if none.
pub open spec fn find_sep_from(s: Seq<char>, from: int) -> int
    decreases s.len() - from
        when 0 <= from <= s.len()
{
    if from + 3 > s.len() {
        -1
    } else if scheme_sep_at(s, from) {
        from
    } else {
        find_sep_from(s, from + 1)
    }
}

/// Finds the least occurrence of the scheme separator "://" in `s`.
pub fn find_scheme_sep(s: &str) -> (r: Option<usize>)
    ensures
        match r {
            Some(i) => i == find_sep_from(s@, 0),
            None => find_sep_from(s@, 0) == -1,
        },
{
    let len = s.unicode_len();
    let mut i: usize = 0;
    while i < len && len - i >= 3
        invariant
            0 <= i <= len,
            len == s@.len(),
            find_sep_from(s@, 0) == find_sep_from(s@, i as int),
        decreases len - i,
    {
        if s.get_char(i) == ':' && s.get_char(i + 1) == '/' && s.get_char(i + 2) == '/' {
            return Some(i);
        }
        i = i + 1;
    }
    None
}

/// Where `find_sep_from` finds the separator, it lies in range.
pub proof fn lemma_find_sep_props(s: Seq<char>, from: int)
    requires
        0 <= from <= s.len(),
    ensures
        ({
            let r = find_sep_from(s, from);
            r == -1 || (from <= r && scheme_sep_at(s, r))
        }),
    decreases s.len() - from,
{
    if from + 3 <= s.len() && !scheme_sep_at(s, from) {
        lemma_find_sep_props(s, from + 1);
    }
}

/// Index of the first '?', or -1 when the URI carries no query.
pub open spec fn query_split(s: Seq<char>) -> int {
    find_from(s, '?', 0)
}

/// Everything before the first '?' (the whole URI when there is no query).
pub open spec fn base_part(s: Seq<char>) -> Seq<char> {
    if query_split(s) >= 0 {
        s.subrange(0, query_split(s))
    } else {
        s
    }
}

/// The query of the URI including its leading '?', or empty when absent.
pub open spec fn query_part(s: Seq<char>) -> Seq<char> {
    if query_split(s) >= 0 {
        s.subrange(query_split(s), s.len() as int)
    } else {
        Seq::<char>::empty()
    }
}

/// A URI is well formed when its base carries the "://" scheme separator;
/// anything else cannot be decomposed and is rejected as invalid.
pub open spec fn wf_uri(s: Seq<char>) -> bool {
    find_sep_from(base_part(s), 0) >= 0
}

/// Index of the first '/' after the scheme separator of base `b`: the start
/// of the path, or -1 when the base has no path.
pub open spec fn path_split(b: Seq<char>) -> int {
    find_from(b, '/', find_sep_from(b, 0) + 3)
}

/// The authority prefix of base `b`: scheme, separator, and host up to but
/// not including the first '/' of the path (all of `b` when it has no path).
pub open spec fn authority_part(b: Seq<char>) -> Seq<char> {
    if path_split(b) >= 0 {
        b.subrange(0, path_split(b))
    } else {
        b
    }
}

/// The path of base `b`, starting at its leading '/', or empty when absent.
pub open spec fn path_part(b: Seq<char>) -> Seq<char> {
    if path_split(b) >= 0 {
        b.subrange(path_split(b), b.len() as int)
    } else {
        Seq::<char>::empty()
    }
}

/// The tenant-scoped proxy path for an organisation and a project.
pub open spec fn tenant_path(org: int, project: int) -> Seq<char> {
    "/api/v1/organisations/"@ + dec_int(org) + "/projects/"@ + dec_int(project) + "/s3"@
}

/// The rewritten URI: the authority kept, the path replaced by the tenant
/// path followed by the original path unless that is the bare root, and the
/// query re-appended unchanged.
pub open spec fn rewritten_uri(s: Seq<char>, org: int, project: int) -> Seq<char> {
    let b = base_part(s);
    let kept = if path_part(b) == seq!['/'] {
        Seq::<char>::empty()
    } else {
        path_part(b)
    };
    authority_part(b) + tenant_path(org, project) + kept + query_part(s)
}

/// Decides whether a URI can be decomposed: its base must carry the "://"
/// scheme separator.
pub fn check_wf_uri(uri: &str) -> (r: bool)
    ensures
        r == wf_uri(uri@),
{
    let qpos = find_char(uri, '?', 0);
    proof {
        lemma_find_from_props(uri@, '?', 0);
    }
    let base = match qpos {
        Some(q) => uri.substring_char(0, q),
        None => uri,
    };
    assert(base@ == base_part(uri@));
    find_scheme_sep(base).is_some()
}

/// Rewrites a request URI onto the tenant-scoped proxy path. Fails exactly
/// on URIs whose base lacks a scheme separator, which cannot be decomposed.
pub fn rewrite_uri(uri: &str, org_id: i32, project_id: i32) -> (r: Result<String, Error>)
    ensures
        r is Ok <==> wf_uri(uri@),
        r matches Ok(u) ==> u@ == rewritten_uri(uri@, org_id as int, project_id as int),
        r is Err ==> (r matches Err(e) && e == Error::InvalidUrl),
{
    let len = uri.unicode_len();
    let qpos = find_char(uri, '?', 0);
    proof {
        lemma_find_from_props(uri@, '?', 0);
    }
    let base = match qpos {
        Some(q) => uri.substring_char(0, q),
        None => uri,
    };
    assert(base@ == base_part(uri@));

    let sep = match find_scheme_sep(base) {
        Some(i) => i,
        None => {
            return Err(Error::InvalidUrl);
        },
    };
    proof {
        lemma_find_sep_props(base@, 0);
    }

    let blen = base.unicode_len();
    let ppos = find_char(base, '/', sep + 3);
    proof {
        lemma_find_from_props(base@, '/', sep + 3);
    }
    let authority = match ppos {
        Some(p) => base.substring_char(0, p),
        None => base,
    };
    let path = match ppos {
        Some(p) => base.substring_char(p, blen),
        None => "",
    };
    proof {
        if ppos is None {
            reveal_strlit("");
            assert(path@ =~= path_part(base@));
        }
        assert(authority@ == authority_part(base@));
        assert(path@ == path_part(base@));
    }

    let mut out = String::from_str(authority);
    out.append("/api/v1/organisations/");
    let org_digits = i32_to_decimal(org_id);
    out.append(org_digits.as_str());
    out.append("/projects/");
    let project_digits = i32_to_decimal(project_id);
    out.append(project_digits.as_str());
    out.append("/s3");
    assert(out@ == authority_part(base@) + tenant_path(org_id as int, project_id as int));

    let root_only = path.unicode_len() == 1 && path.get_char(0) == '/';
    if root_only {
        proof {
            assert(path@ =~= seq!['/']);
        }
    } else {
        proof {
            assert(path@ != seq!['/']);
        }
        out.append(path);
    }

    if let Some(q) = qpos {
        let query = uri.substring_char(q, len);
        assert(query@ == query_part(uri@));
        out.append(query);
    }

    assert(out@ =~= rewritten_uri(uri@, org_id as int, project_id as int));
    Ok(out)
}

/// Law: the rewritten URI starts with the original authority followed
/// immediately by the tenant-scoped path, whatever the original path and
/// query were.
pub proof fn lemma_rewrite_tenant_prefix(s: Seq<char>, org: int, project: int)
    ensures
        ({
            let a = authority_part(base_part(s));
            let tp = tenant_path(org, project);
            let r = rewritten_uri(s, org, project);
            &&& r.len() >= a.len() + tp.len()
            &&& r.subrange(0, a.len() as int) == a
            &&& r.subrange(a.len() as int, a.len() + tp.len() as int) == tp
        }),
{
    let a = authority_part(base_part(s));
    let tp = tenant_path(org, project);
    let r = rewritten_uri(s, org, project);
    assert(r.subrange(0, a.len() as int) =~= a);
    assert(r.subrange(a.len() as int, a.len() + tp.len() as int) =~= tp);
}

/// Law: when the original path is exactly the bare root "/", the rewritten
/// URI is the authority, the tenant path with nothing appended after it,
/// and the unchanged query.
pub proof fn lemma_rewrite_root_path(s: Seq<char>, org: int, project: int)
    requires
        path_part(base_part(s)) == seq!['/'],
    ensures
        rewritten_uri(s, org, project) == authority_part(base_part(s)) + tenant_path(
            org,
            project,
        ) + query_part(s),
{
    assert(rewritten_uri(s, org, project) =~= authority_part(base_part(s)) + tenant_path(
        org,
        project,
    ) + query_part(s));
}

/// Law: when the original path is anything but the bare root, the rewritten
/// URI carries that whole path, unchanged, right after the tenant path.
pub proof fn lemma_rewrite_keeps_path(s: Seq<char>, org: int, project: int)
    requires
        path_part(base_part(s)) != seq!['/'],
    ensures
        rewritten_uri(s, org, project) == authority_part(base_part(s)) + tenant_path(
            org,
            project,
        ) + path_part(base_part(s)) + query_part(s),
{
    assert(rewritten_uri(s, org, project) =~= authority_part(base_part(s)) + tenant_path(
        org,
        project,
    ) + path_part(base_part(s)) + query_part(s));
}

/// Law: the rewritten URI ends with the original query, '?' included,
/// unchanged; with no query it ends with nothing extra.
pub proof fn lemma_rewrite_keeps_query(s: Seq<char>, org: int, project: int)
    ensures
        ({
            let r = rewritten_uri(s, org, project);
            let q = query_part(s);
            &&& r.len() >= q.len()
            &&& r.subrange(r.len() - q.len(), r.len() as int) == q
        }),
{
    let r = rewritten_uri(s, org, project);
    let q = query_part(s);
    assert(r.subrange(r.len() - q.len(), r.len() as int) =~= q);
}

} // verus!
