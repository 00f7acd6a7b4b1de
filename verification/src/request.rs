//! The library's model of an outbound request: the target URI and the
//! ordered list of header occurrences, which is all the interceptor reads
//! and writes. The surrounding code converts between this model and the
//! underlying client's request object.

use vstd::prelude::*;

verus! {

/// Mathematical view of an outbound request.
pub struct RequestView {
    pub uri: Seq<char>,
    pub headers: Seq<(Seq<char>, Seq<char>)>,
}

/// A not-yet-sent request: its target URI and its header occurrences in
/// order. Duplicate header names are kept as separate occurrences.
pub struct OutboundRequest {
    pub uri: String,
    pub headers: Vec<(String, String)>,
}

impl View for OutboundRequest {
    type V = RequestView;

    open spec fn view(&self) -> RequestView {
        RequestView {
            uri: self.uri@,
            headers: self.headers@.map_values(|h: (String, String)| (h.0@, h.1@)),
        }
    }
}

impl OutboundRequest {
    /// A fresh request for the given target, with no headers yet.
    pub fn new(uri: String) -> (r: OutboundRequest)
        ensures
            r@.uri == uri@,
            r@.headers == Seq::<(Seq<char>, Seq<char>)>::empty(),
    {
        let req = OutboundRequest { uri, headers: Vec::new() };
        proof {
            assert(req@.headers =~= Seq::<(Seq<char>, Seq<char>)>::empty());
        }
        req
    }

    /// Appends one header occurrence; every existing occurrence, duplicates
    /// included, stays as it is.
    pub fn append_header(&mut self, name: String, value: String)
        ensures
            final(self)@.uri == old(self)@.uri,
            final(self)@.headers == old(self)@.headers.push((name@, value@)),
    {
        let ghost n = name@;
        let ghost v = value@;
        self.headers.push((name, value));
        proof {
            assert(self@.headers =~= old(self)@.headers.push((n, v)));
        }
    }

    /// Replaces the target URI; the headers stay as they are.
    pub fn set_uri(&mut self, uri: String)
        ensures
            final(self)@.uri == uri@,
            final(self)@.headers == old(self)@.headers,
    {
        self.uri = uri;
    }
}

} // verus!
