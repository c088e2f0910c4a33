//! What is sent when a request is executed, and what is kept of the answer.

use vstd::prelude::*;
use vstd::string::*;
use std::time::Duration;
use crate::models::{ApiRequest, RequestType};
use crate::string_map::{bind_all, distinct_keys, pairs_to_map, pairs_view, Pair, StringMap};

verus! {

/// The answer to an executed request, or the record of its failure.
#[derive(Debug)]
pub struct RequestResponse {
    pub status: u16,
    pub status_text: String,
    pub headers: StringMap,
    pub body: String,
    pub time_taken: Duration,
}

/// A failure to carry a request out.
#[derive(Debug)]
pub struct NetworkError {
    pub message: String,
    pub time_taken: Duration,
}

/// A copy of what a request sends, taken once before the call.
#[derive(Debug)]
pub struct OutboundRequest {
    pub method: RequestType,
    pub url: String,
    pub headers: Vec<(String, String)>,
    pub params: Vec<(String, String)>,
    /// The body, for every method but GET.
    pub body: Option<String>,
}

/// What is kept of an answer.
pub struct ResponseView {
    pub status: u16,
    pub status_text: Seq<char>,
    pub headers: Map<Seq<char>, Seq<char>>,
    pub body: Seq<char>,
    pub time_taken: Duration,
}

impl View for RequestResponse {
    type V = ResponseView;

    open spec fn view(&self) -> ResponseView {
        ResponseView {
            status: self.status,
            status_text: self.status_text@,
            headers: self.headers@,
            body: self.body@,
            time_taken: self.time_taken,
        }
    }
}

impl Clone for RequestResponse {
    fn clone(&self) -> (r: Self)
        ensures
            r@ == self@,
            r.headers.pairs() == self.headers.pairs(),
    {
        RequestResponse {
            status: self.status,
            status_text: self.status_text.clone(),
            headers: self.headers.clone(),
            body: self.body.clone(),
            time_taken: self.time_taken,
        }
    }
}

impl Clone for NetworkError {
    fn clone(&self) -> (r: Self)
        ensures
            r.message@ == self.message@,
            r.time_taken == self.time_taken,
    {
        NetworkError { message: self.message.clone(), time_taken: self.time_taken }
    }
}

/// The record that stands for a failed call: status 0, the failure's
/// message as the status text, no headers and no body.
pub open spec fn failure_view(error: NetworkError) -> ResponseView {
    ResponseView {
        status: 0,
        status_text: error.message@,
        headers: Map::empty(),
        body: Seq::empty(),
        time_taken: error.time_taken,
    }
}

/// What an `OutboundRequest` stands for.
pub struct OutboundView {
    pub method: RequestType,
    pub url: Seq<char>,
    pub headers: Seq<Pair>,
    pub params: Seq<Pair>,
    pub body: Option<Seq<char>>,
}

impl View for OutboundRequest {
    type V = OutboundView;

    open spec fn view(&self) -> OutboundView {
        OutboundView {
            method: self.method,
            url: self.url@,
            headers: pairs_view(self.headers@),
            params: pairs_view(self.params@),
            body: match self.body {
                Some(body) => Some(body@),
                None => None,
            },
        }
    }
}

/// The body that goes out with a request: none with GET.
pub open spec fn outbound_body(method: RequestType, body: Seq<char>) -> Option<Seq<char>> {
    if method == RequestType::GET {
        None
    } else {
        Some(body)
    }
}

/// Takes the copy of `request` that is sent: the method, the URL, every
/// header and every query parameter in the order in which the request holds
/// them, and the body unless the method is GET.
pub fn snapshot(request: &ApiRequest) -> (out: OutboundRequest)
    ensures
        out@.method == request.request_type,
        out@.url == request@.details.url,
        out@.headers == request.details.headers.pairs(),
        out@.params == request.details.params.pairs(),
        out@.body == outbound_body(request.request_type, request@.details.body),
        pairs_to_map(out@.headers) == request@.details.headers,
        pairs_to_map(out@.params) == request@.details.params,
        distinct_keys(out@.headers),
        distinct_keys(out@.params),
{
    proof {
        use_type_invariant(&request.details.headers);
        use_type_invariant(&request.details.params);
        request.details.headers.lemma_wf();
        request.details.params.lemma_wf();
        request.details.headers.lemma_view();
        request.details.params.lemma_view();
    }
    let body = match request.request_type {
        RequestType::GET => None,
        _ => Some(request.details.body.clone()),
    };
    OutboundRequest {
        method: request.request_type,
        url: request.details.url.clone(),
        headers: request.details.headers.to_vec(),
        params: request.details.params.to_vec(),
        body,
    }
}

/// Folds the header lines of an answer into a map. Of a header that comes
/// several times the last value is kept.
pub fn fold_headers(lines: Vec<(String, String)>) -> (headers: StringMap)
    ensures
        headers.pairs() == bind_all(pairs_view(lines@)),
        headers@ == pairs_to_map(bind_all(pairs_view(lines@))),
{
    StringMap::from_pairs(lines)
}

impl RequestResponse {
    /// Builds the record of an answer from its parts.
    pub fn new(
        status: u16,
        status_text: String,
        header_lines: Vec<(String, String)>,
        body: String,
        time_taken: Duration,
    ) -> (r: Self)
        ensures
            r@ == (ResponseView {
                status,
                status_text: status_text@,
                headers: pairs_to_map(bind_all(pairs_view(header_lines@))),
                body: body@,
                time_taken,
            }),
            r.headers.pairs() == bind_all(pairs_view(header_lines@)),
    {
        RequestResponse { status, status_text, headers: fold_headers(header_lines), body, time_taken }
    }

    /// The record that stands for a failed call.
    pub fn from_error(error: NetworkError) -> (r: Self)
        ensures
            r@ == failure_view(error),
            r.headers.pairs().len() == 0,
    {
        RequestResponse {
            status: 0,
            status_text: error.message,
            headers: StringMap::new(),
            body: String::new(),
            time_taken: error.time_taken,
        }
    }

    /// Whether the record stands for a failed call.
    pub fn is_failure(&self) -> (r: bool)
        ensures
            r == (self.status == 0),
    {
        self.status == 0
    }
}

} // verus!
