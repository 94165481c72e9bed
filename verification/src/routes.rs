//! The forwarding engine and the read surface: the request that goes to the
//! upstream, the response that goes back to the client, and the envelope in
//! which audit records are handed out.

use crate::error::{json_error_of, ApiError, JsonError, JsonErrorView};
use crate::http::{
    headers_without, views, without, Header, HeaderView, OutboundRequest, OutboundRequestView,
    ProxyRequest, ProxyRequestView, Response, ResponseView,
};
use crate::middlewares::{reason_of, Rejection, UNAUTHORIZED};
use crate::models::{Request, RequestView};
use crate::services::{decoded, record_views, Fetched, RequestService};
use crate::url::{target, target_of};
use vstd::prelude::*;
use vstd::string::*;
use vstd::utf8::encode_utf8;

verus! {

/// The header lines that go to the upstream: those of the request as they
/// came, and behind them, where the peer's address is known, one
/// `x-forwarded-for` line that holds that address and nothing else.
pub open spec fn outbound_headers(headers: Seq<HeaderView>, peer: Option<Seq<char>>) -> Seq<
    HeaderView,
> {
    match peer {
        Some(address) => headers.push(
            HeaderView { name: "x-forwarded-for"@, value: encode_utf8(address) },
        ),
        None => headers,
    }
}

/// The request that goes to the address `url` for `req`: its method, its
/// header lines and its body as they came, and the peer's address behind
/// the header lines where it is known.
pub open spec fn outbound_to(req: ProxyRequestView, url: Seq<char>) -> OutboundRequestView {
    OutboundRequestView {
        method: req.method,
        url,
        headers: outbound_headers(req.headers, req.peer_address),
        body: req.body,
    }
}

/// The request that goes to the upstream for `req`: sent to the upstream's
/// address with the path and the query of `req`. There is none where that
/// address cannot be formed.
pub open spec fn outbound_of(req: ProxyRequestView, upstream: Seq<char>) -> Option<
    OutboundRequestView,
> {
    match target_of(upstream, req.path, req.query) {
        None => None,
        Some(url) => Some(outbound_to(req, url)),
    }
}

/// What was made, by its view.
pub open spec fn outbound_view(r: Option<OutboundRequest>) -> Option<OutboundRequestView> {
    match r {
        Some(request) => Some(request@),
        None => None,
    }
}

/// Makes the request that goes to the address `url`.
pub fn outbound(req: ProxyRequest, url: String) -> (r: OutboundRequest)
    ensures
        r@ == outbound_to(req@, url@),
{
    let ProxyRequest { method, headers, body, peer_address, .. } = req;
    let mut headers = headers;
    match &peer_address {
        Some(address) => {
            let ghost before = headers@;
            let line = Header {
                name: String::from_str("x-forwarded-for"),
                value: address.as_str().as_bytes_vec(),
            };
            headers.push(line);
            assert(views(headers@) =~= views(before).push(line@));
        },
        None => {},
    }
    OutboundRequest { method, url, headers, body }
}

/// Makes the request that goes to the upstream at `forward_url`.
pub fn forward(req: ProxyRequest, forward_url: &str) -> (r: Option<OutboundRequest>)
    ensures
        outbound_view(r) == outbound_of(req@, forward_url@),
{
    let url = match &req.query {
        Some(q) => target(forward_url, req.path.as_str(), Some(q.as_str())),
        None => target(forward_url, req.path.as_str(), None),
    };
    match url {
        Some(url) => Some(outbound(req, url)),
        None => None,
    }
}

/// The response that a client is given for the response `res` of the
/// upstream: its status and its body, and its header lines but for those
/// called `Connection`, which are meant for one hop only.
pub open spec fn relayed(res: ResponseView) -> ResponseView {
    ResponseView {
        status: res.status,
        headers: without(res.headers, "connection"@),
        body: res.body,
    }
}

/// Makes the response that a client is given for the upstream's response.
pub fn relay(res: Response) -> (r: Response)
    ensures
        r@ == relayed(res@),
{
    let headers = headers_without(&res.headers, "connection");
    Response { status: res.status, headers, body: res.body }
}

/// Why no response came from the upstream.
#[derive(Debug)]
pub struct UpstreamFailure {
    /// The upstream could not be connected to in time.
    pub timed_out: bool,
    /// What the transport reported.
    pub detail: String,
}

/// What an [`UpstreamFailure`] holds, as the values that contracts speak of.
pub struct UpstreamFailureView {
    pub timed_out: bool,
    pub detail: Seq<char>,
}

impl View for UpstreamFailure {
    type V = UpstreamFailureView;

    open spec fn view(&self) -> UpstreamFailureView {
        UpstreamFailureView { timed_out: self.timed_out, detail: self.detail@ }
    }
}

/// The status for a connection that was not made in time.
pub const GATEWAY_TIMEOUT: u16 = 504;

/// The status for every other failure to reach the upstream.
pub const INTERNAL_SERVER_ERROR: u16 = 500;

/// A response that carries nothing but a text: one header line that says
/// so, and the text as its body.
pub open spec fn plain_text_of(status: u16, text: Seq<char>) -> ResponseView {
    ResponseView {
        status,
        headers: seq![
            HeaderView {
                name: "content-type"@,
                value: encode_utf8("text/plain; charset=utf-8"@),
            },
        ],
        body: encode_utf8(text),
    }
}

/// Makes a response that carries nothing but a text.
pub fn plain_text(status: u16, text: &str) -> (r: Response)
    ensures
        r@ == plain_text_of(status, text@),
{
    let mut headers: Vec<Header> = Vec::new();
    let line = Header {
        name: String::from_str("content-type"),
        value: "text/plain; charset=utf-8".as_bytes_vec(),
    };
    headers.push(line);
    assert(views(headers@) =~= seq![line@]);
    Response { status, headers, body: text.as_bytes_vec() }
}

/// The status for a failure to reach the upstream: 504 where the
/// connection was not made in time, 500 for every other failure.
pub open spec fn failure_status(timed_out: bool) -> u16 {
    if timed_out {
        GATEWAY_TIMEOUT
    } else {
        INTERNAL_SERVER_ERROR
    }
}

/// The response for an upstream that could not be reached: a server error
/// that carries what the transport reported.
pub open spec fn failure_response_of(failure: UpstreamFailureView) -> ResponseView {
    plain_text_of(failure_status(failure.timed_out), failure.detail)
}

/// Makes the response for an upstream that could not be reached. Its
/// status is in the 5xx class.
pub fn failure_response(failure: &UpstreamFailure) -> (r: Response)
    ensures
        r@ == failure_response_of(failure@),
        500 <= r.status <= 599,
{
    let status: u16 = if failure.timed_out {
        GATEWAY_TIMEOUT
    } else {
        INTERNAL_SERVER_ERROR
    };
    plain_text(status, failure.detail.as_str())
}

/// The response for a request that the authorization gate turned away:
/// status 401 and the reason.
pub open spec fn rejection_response_of(rejection: Rejection) -> ResponseView {
    plain_text_of(UNAUTHORIZED, reason_of(rejection))
}

/// Makes the response for a request that the authorization gate turned
/// away.
pub fn rejection_response(rejection: Rejection) -> (r: Response)
    ensures
        r@ == rejection_response_of(rejection),
{
    plain_text(rejection.status(), rejection.reason())
}

/// The envelope in which every read hands out what it found.
#[derive(Debug)]
pub struct Envelope<T> {
    pub status: u16,
    pub success: bool,
    pub payload: T,
}

/// What an [`Envelope`] holds, as the values that contracts speak of.
pub struct EnvelopeView<V> {
    pub status: u16,
    pub success: bool,
    pub payload: V,
}

/// The envelope of a successful read: status 200 and what was found.
pub open spec fn success_of<V>(payload: V) -> EnvelopeView<V> {
    EnvelopeView { status: 200, success: true, payload }
}

impl<T> Envelope<T> {
    /// Puts what a read found into the envelope of a successful read.
    pub fn success(payload: T) -> (r: Envelope<T>)
        ensures
            r.status == 200,
            r.success,
            r.payload == payload,
    {
        Envelope { status: 200, success: true, payload }
    }
}

/// What a read answers for what the store delivered: the records in an
/// envelope of status 200, or the error body of the failure.
pub open spec fn answer_of(found: Seq<Fetched>) -> Result<
    EnvelopeView<Seq<RequestView>>,
    JsonErrorView,
> {
    match decoded(found) {
        Ok(records) => Ok(success_of(records)),
        Err(e) => Err(json_error_of(e)),
    }
}

/// What was answered, by its view.
pub open spec fn answer_view(r: Result<Envelope<Vec<Request>>, JsonError>) -> Result<
    EnvelopeView<Seq<RequestView>>,
    JsonErrorView,
> {
    match r {
        Ok(envelope) => Ok(
            EnvelopeView {
                status: envelope.status,
                success: envelope.success,
                payload: record_views(envelope.payload@),
            },
        ),
        Err(e) => Err(e@),
    }
}

fn envelope(result: Result<Vec<Request>, ApiError>) -> (r: Result<
    Envelope<Vec<Request>>,
    JsonError,
>)
    ensures
        answer_view(r) == (match result {
            Ok(records) => Ok(success_of(record_views(records@))),
            Err(e) => Err(json_error_of(e@)),
        }),
{
    match result {
        Ok(payload) => Ok(Envelope::success(payload)),
        Err(e) => Err(JsonError::from(e)),
    }
}

/// Answers the read of all audit records from what the store delivered.
pub fn get_all_requests(service: &RequestService, found: &Vec<Fetched>) -> (r: Result<
    Envelope<Vec<Request>>,
    JsonError,
>)
    ensures
        answer_view(r) == answer_of(found@),
{
    envelope(service.get_all(found))
}

/// Answers the read of the audit records of one credential from what the
/// store delivered for it.
pub fn get_requests_by_key(service: &RequestService, key: &str, found: &Vec<Fetched>) -> (r:
    Result<Envelope<Vec<Request>>, JsonError>)
    ensures
        answer_view(r) == answer_of(found@),
{
    envelope(service.get_by_key(key, found))
}

} // verus!
