//! Requests and responses as plain values: what came in from a client, what
//! goes out to the upstream, and what comes back.

use crate::credential::Credential;
use crate::text::{names_match, same_name};
use vstd::prelude::*;
use vstd::slice::slice_to_vec;

verus! {

/// One header line. A name matches whatever its case; a value is bytes.
#[derive(Debug)]
pub struct Header {
    pub name: String,
    pub value: Vec<u8>,
}

/// What a [`Header`] holds, as the values that contracts speak of.
pub struct HeaderView {
    pub name: Seq<char>,
    pub value: Seq<u8>,
}

impl View for Header {
    type V = HeaderView;

    open spec fn view(&self) -> HeaderView {
        HeaderView { name: self.name@, value: self.value@ }
    }
}

/// The header lines of a list, in its order.
pub open spec fn views(headers: Seq<Header>) -> Seq<HeaderView> {
    headers.map_values(|h: Header| h@)
}

/// The value of the first header called `wanted`, if there is one.
pub open spec fn value_of(headers: Seq<HeaderView>, wanted: Seq<char>) -> Option<Seq<u8>>
    decreases headers.len(),
{
    if headers.len() == 0 {
        None
    } else if same_name(headers[0].name, wanted) {
        Some(headers[0].value)
    } else {
        value_of(headers.drop_first(), wanted)
    }
}

/// Whether some header is called `wanted`.
pub open spec fn has_named(headers: Seq<HeaderView>, wanted: Seq<char>) -> bool {
    exists|i: int| 0 <= i < headers.len() && same_name(#[trigger] headers[i].name, wanted)
}

/// The values of the headers called `wanted`, in their order.
pub open spec fn values_of(headers: Seq<HeaderView>, wanted: Seq<char>) -> Seq<Seq<u8>> {
    headers.filter(|h: HeaderView| same_name(h.name, wanted)).map_values(|h: HeaderView| h.value)
}

/// The headers that are not called `unwanted`, in their order.
pub open spec fn without(headers: Seq<HeaderView>, unwanted: Seq<char>) -> Seq<HeaderView> {
    headers.filter(|h: HeaderView| !same_name(h.name, unwanted))
}

impl Header {
    /// A copy of the header.
    pub fn duplicate(&self) -> (r: Header)
        ensures
            r@ == self@,
    {
        Header { name: self.name.clone(), value: slice_to_vec(self.value.as_slice()) }
    }
}

/// Finds the value of the first header called `wanted`.
pub fn header_value<'a>(headers: &'a Vec<Header>, wanted: &str) -> (r: Option<&'a Vec<u8>>)
    ensures
        r matches Some(value) ==> value_of(views(headers@), wanted@) == Some(value@),
        r is None ==> value_of(views(headers@), wanted@) is None,
{
    let ghost all = views(headers@);
    let mut i: usize = 0;
    assert(all.skip(0) =~= all);
    while i < headers.len()
        invariant
            i <= headers@.len(),
            all == views(headers@),
            value_of(all, wanted@) == value_of(all.skip(i as int), wanted@),
        decreases headers@.len() - i,
    {
        let ghost rest = all.skip(i as int);
        assert(rest[0] == headers@[i as int]@);
        assert(rest.drop_first() =~= all.skip(i + 1));
        if names_match(headers[i].name.as_str(), wanted) {
            return Some(&headers[i].value);
        }
        i += 1;
    }
    None
}

/// A copy of the headers that are not called `unwanted`. Those that stay
/// keep their order.
pub fn headers_without(headers: &Vec<Header>, unwanted: &str) -> (r: Vec<Header>)
    ensures
        views(r@) == without(views(headers@), unwanted@),
{
    let ghost all = views(headers@);
    let ghost keep = |h: HeaderView| !same_name(h.name, unwanted@);
    let mut kept: Vec<Header> = Vec::new();
    let mut i: usize = 0;
    assert(all.take(0) =~= Seq::<HeaderView>::empty());
    assert(views(kept@) =~= Seq::<HeaderView>::empty());
    proof {
        reveal(Seq::filter);
    }
    while i < headers.len()
        invariant
            i <= headers@.len(),
            all == views(headers@),
            keep == |h: HeaderView| !same_name(h.name, unwanted@),
            views(kept@) == all.take(i as int).filter(keep),
        decreases headers@.len() - i,
    {
        let ghost seen = all.take(i as int);
        let ghost here = headers@[i as int]@;
        proof {
            assert(all.take(i + 1) =~= seen.push(here));
            seen.lemma_filter_push(here, keep);
        }
        if !names_match(headers[i].name.as_str(), unwanted) {
            let ghost before = kept@;
            let copy = headers[i].duplicate();
            kept.push(copy);
            assert(views(kept@) =~= views(before).push(here));
        }
        i += 1;
    }
    assert(all.take(i as int) =~= all);
    kept
}

/// A request on its way through the pipeline.
#[derive(Debug)]
pub struct ProxyRequest {
    pub method: String,
    pub path: String,
    pub query: Option<String>,
    pub headers: Vec<Header>,
    pub body: Vec<u8>,
    /// The address of the peer that sent the request, where it is known.
    pub peer_address: Option<String>,
    /// The credential under which the request was authorized, once it was.
    pub credential: Option<Credential>,
}

/// What a [`ProxyRequest`] holds, as the values that contracts speak of.
pub struct ProxyRequestView {
    pub method: Seq<char>,
    pub path: Seq<char>,
    pub query: Option<Seq<char>>,
    pub headers: Seq<HeaderView>,
    pub body: Seq<u8>,
    pub peer_address: Option<Seq<char>>,
    pub credential: Option<Credential>,
}

/// The characters of a text that may be missing.
pub open spec fn text_view(text: Option<String>) -> Option<Seq<char>> {
    match text {
        Some(t) => Some(t@),
        None => None,
    }
}

impl View for ProxyRequest {
    type V = ProxyRequestView;

    open spec fn view(&self) -> ProxyRequestView {
        ProxyRequestView {
            method: self.method@,
            path: self.path@,
            query: text_view(self.query),
            headers: views(self.headers@),
            body: self.body@,
            peer_address: text_view(self.peer_address),
            credential: self.credential,
        }
    }
}

/// A request as it is sent to the upstream.
#[derive(Debug)]
pub struct OutboundRequest {
    pub method: String,
    pub url: String,
    pub headers: Vec<Header>,
    pub body: Vec<u8>,
}

/// What an [`OutboundRequest`] holds, as the values that contracts speak of.
pub struct OutboundRequestView {
    pub method: Seq<char>,
    pub url: Seq<char>,
    pub headers: Seq<HeaderView>,
    pub body: Seq<u8>,
}

impl View for OutboundRequest {
    type V = OutboundRequestView;

    open spec fn view(&self) -> OutboundRequestView {
        OutboundRequestView {
            method: self.method@,
            url: self.url@,
            headers: views(self.headers@),
            body: self.body@,
        }
    }
}

/// A response: the one the upstream gave, or the one the client is given.
#[derive(Debug)]
pub struct Response {
    pub status: u16,
    pub headers: Vec<Header>,
    pub body: Vec<u8>,
}

/// What a [`Response`] holds, as the values that contracts speak of.
pub struct ResponseView {
    pub status: u16,
    pub headers: Seq<HeaderView>,
    pub body: Seq<u8>,
}

impl View for Response {
    type V = ResponseView;

    open spec fn view(&self) -> ResponseView {
        ResponseView { status: self.status, headers: views(self.headers@), body: self.body@ }
    }
}

} // verus!
