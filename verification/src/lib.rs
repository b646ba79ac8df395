//! A minimal HTTP gateway core: it adapts a hosting runtime's native
//! invocation payload into a uniform request, routes that request against a
//! fixed route table, runs the matched handler, and adapts the uniform
//! response back into the native reply shape.

pub mod adapter;
pub mod collab;
pub mod handlers;
pub mod json;
pub mod model;
pub mod routes;
pub mod text;

use crate::adapter::{adapt_request, spec_adapt};
use crate::collab::{
    placeholder_query_outcome, placeholder_query_view, placeholder_scrape_outcome,
    placeholder_scrape_view, QueryOutcome, QueryV, ScrapeOutcome, ScrapeV,
};
use crate::handlers::{
    adaptation_response, adaptation_text, not_found_response, not_found_text, run_handler,
    spec_handle,
};
use crate::model::{
    adapt_response, resp_wf, spec_json_response, NativePayload, NativeReply, PayloadV, ReqV,
    RespV, UniformRequest, UniformResponse,
};
use crate::routes::{match_route, route_table, spec_match, spec_route_table, HandlerId};
use vstd::prelude::*;

verus! {

/// What the dispatcher answers: the first binding whose method and path
/// match exactly decides the handler, and a request no binding matches gets
/// the 404 response.
pub open spec fn spec_dispatch(req: ReqV, s: ScrapeV, q: QueryV) -> RespV {
    match spec_match(spec_route_table(), req.method, req.path) {
        None => spec_json_response(404, not_found_text()),
        Some(h) => spec_handle(h, req.body, s, q),
    }
}

/// The dispatcher: scans the route table in registration order and runs the
/// first exactly matching handler, exactly as `spec_dispatch` says.
pub fn dispatch(req: &UniformRequest, scrape: &ScrapeOutcome, query: &QueryOutcome) -> (r:
    UniformResponse)
    ensures
        r@ == spec_dispatch(req@, scrape@, query@),
        spec_match(spec_route_table(), req@.method, req@.path) is None ==> r@.status == 404,
{
    let rt = route_table();
    match match_route(&rt, req.method, req.path.as_str()) {
        Some(h) => run_handler(h, &req.body, scrape, query),
        None => not_found_response(),
    }
}

/// What one whole activation answers: a payload the adapter rejects gets the
/// 400 response for its adaptation error, and an adapted request is
/// dispatched.
pub open spec fn spec_process(p: PayloadV, s: ScrapeV, q: QueryV) -> RespV {
    match spec_adapt(p) {
        Err(e) => spec_json_response(400, adaptation_text(e)),
        Ok(rv) => spec_dispatch(rv, s, q),
    }
}

/// One whole activation: request adapter, dispatcher, response adapter, in
/// that order and nothing else, exactly as `spec_process` says.
pub fn process(payload: NativePayload, scrape: &ScrapeOutcome, query: &QueryOutcome) -> (r:
    NativeReply)
    ensures
        r@ == spec_process(payload@, scrape@, query@),
{
    let resp = match adapt_request(payload) {
        Ok(req) => dispatch(&req, scrape, query),
        Err(e) => adaptation_response(e),
    };
    adapt_response(resp)
}

/// The entry point's callback in its current scope: every invocation runs
/// the pipeline with the placeholder collaborator outcomes standing in for
/// the real services.
pub fn handler(payload: NativePayload) -> (r: NativeReply)
    ensures
        r@ == spec_process(payload@, placeholder_scrape_view(), placeholder_query_view()),
{
    let scrape = placeholder_scrape_outcome();
    let query = placeholder_query_outcome();
    process(payload, &scrape, &query)
}

/// Every activation of the pipeline yields a well-formed reply: whatever
/// the native payload and whatever the collaborators came back with, the
/// reply's status is an HTTP status code.
pub proof fn lemma_process_well_formed(p: PayloadV, s: ScrapeV, q: QueryV)
    ensures
        resp_wf(spec_process(p, s, q)),
{
    match spec_adapt(p) {
        Err(e) => {
        },
        Ok(rv) => {
            match spec_match(spec_route_table(), rv.method, rv.path) {
                None => {
                },
                Some(h) => {
                    match h {
                        HandlerId::Liveness => {
                        },
                        HandlerId::Discover => {
                        },
                        HandlerId::InvokeScraper => {
                            match s {
                                ScrapeV::Success { enhanced_content } => {
                                },
                                ScrapeV::NetworkFailure => {
                                },
                                ScrapeV::ParseFailure => {
                                },
                            }
                        },
                        HandlerId::QueryDatavault => {
                            match q {
                                QueryV::Results { hits } => {
                                },
                                QueryV::ServiceUnavailable => {
                                },
                                QueryV::InvalidQuery => {
                                },
                            }
                        },
                    }
                },
            }
        },
    }
}

/// The pipeline is a function of its input alone: invoking it twice with
/// identical payloads and identical collaborator outcomes, as when the
/// liveness document is fetched twice, yields identical replies.
pub proof fn lemma_process_deterministic(
    p1: PayloadV,
    p2: PayloadV,
    s1: ScrapeV,
    s2: ScrapeV,
    q1: QueryV,
    q2: QueryV,
)
    requires
        p1 == p2,
        s1 == s2,
        q1 == q2,
    ensures
        spec_process(p1, s1, q1) == spec_process(p2, s2, q2),
{
}

} // verus!
