//! The handlers, one per route, and the exact JSON documents they produce.
//! Each handler is a pure function from the request body and, for the tool
//! routes, the collaborator's outcome to a uniform response.

use crate::collab::{HitV, QueryOutcome, QueryV, ScrapeOutcome, ScrapeV, SearchHit};
use crate::json::{body_is_json, escape_onto, hex_digit, json_escape, json_well_formed};
use crate::model::{spec_json_response, AdaptationError, RespV, UniformResponse, json_response};
use crate::routes::{catalog, spec_catalog, HandlerId, ToolSpec, ToolV};
use vstd::prelude::*;

verus! {

/// The liveness body.
pub open spec fn liveness_text() -> Seq<char> {
    "{\"status\":\"Aegis Logistics Backend is online via vercel-rust.\"}"@
}

/// The body sent when no route matches.
pub open spec fn not_found_text() -> Seq<char> {
    "{\"error\":\"route_not_found\",\"message\":\"no route matches the request\"}"@
}

/// The body sent when a tool route receives a body that is not well-formed
/// JSON.
pub open spec fn malformed_body_text() -> Seq<char> {
    "{\"error\":\"malformed_json\",\"message\":\"request body is not well-formed JSON\"}"@
}

/// The body sent when a handler itself fails.
pub open spec fn fault_text() -> Seq<char> {
    "{\"error\":\"handler_fault\",\"message\":\"internal error\"}"@
}

/// The body sent when the scraper reports a network failure.
pub open spec fn network_failure_text() -> Seq<char> {
    "{\"error\":\"network_failure\",\"message\":\"the scraper could not reach the source\"}"@
}

/// The body sent when the scraper reports a parse failure.
pub open spec fn parse_failure_text() -> Seq<char> {
    "{\"error\":\"parse_failure\",\"message\":\"the scraper could not process the fetched content\"}"@
}

/// The body sent when the search service cannot be reached.
pub open spec fn service_unavailable_text() -> Seq<char> {
    "{\"error\":\"service_unavailable\",\"message\":\"the search service could not be reached\"}"@
}

/// The body sent when the search service rejects the query.
pub open spec fn invalid_query_text() -> Seq<char> {
    "{\"error\":\"invalid_query\",\"message\":\"the search service rejected the query\"}"@
}

/// The body that answers each adaptation error.
pub open spec fn adaptation_text(e: AdaptationError) -> Seq<char> {
    match e {
        AdaptationError::MissingMethod => "{\"error\":\"adaptation_error\",\"message\":\"the payload carries no method\"}"@,
        AdaptationError::UnknownMethod => "{\"error\":\"adaptation_error\",\"message\":\"the method token is not recognized\"}"@,
        AdaptationError::MissingPath => "{\"error\":\"adaptation_error\",\"message\":\"the payload carries no path\"}"@,
        AdaptationError::BadContentLength => "{\"error\":\"adaptation_error\",\"message\":\"the declared content length is not a decimal number\"}"@,
        AdaptationError::BodyLengthMismatch => "{\"error\":\"adaptation_error\",\"message\":\"the body does not match the declared content length\"}"@,
    }
}

/// The scraper's success body around its rewritten content.
pub open spec fn scraper_ok_text(content: Seq<char>) -> Seq<char> {
    "{\"enhanced_content\":\""@ + json_escape(content) + "\"}"@
}

/// A relevance score in hundredths written as a decimal fraction: 100 is
/// written `1.0`, anything above 100 is clamped to it, and a smaller score
/// is written with two digits, as in `0.95` or `0.05`.
pub open spec fn score_text(s: u8) -> Seq<char> {
    if s >= 100 {
        "1.0"@
    } else {
        "0."@ + seq![hex_digit((s as int) / 10), hex_digit((s as int) % 10)]
    }
}

/// One metadata pair as a JSON object member.
pub open spec fn meta_entry_text(k: Seq<char>, v: Seq<char>) -> Seq<char> {
    "\""@ + json_escape(k) + "\":\""@ + json_escape(v) + "\""@
}

/// The metadata pairs joined with commas, in order.
pub open spec fn meta_join(m: Seq<(Seq<char>, Seq<char>)>) -> Seq<char>
    decreases m.len(),
{
    if m.len() == 0 {
        Seq::empty()
    } else if m.len() == 1 {
        meta_entry_text(m[0].0, m[0].1)
    } else {
        meta_join(m.drop_last()) + ","@ + meta_entry_text(m.last().0, m.last().1)
    }
}

/// One search hit as a JSON object.
pub open spec fn hit_text(h: HitV) -> Seq<char> {
    "{\"id\":\""@ + json_escape(h.id) + "\",\"score\":"@ + score_text(h.score_centi)
        + ",\"metadata\":{"@ + meta_join(h.metadata) + "}}"@
}

/// The search hits joined with commas, in order.
pub open spec fn hits_join(hs: Seq<HitV>) -> Seq<char>
    decreases hs.len(),
{
    if hs.len() == 0 {
        Seq::empty()
    } else if hs.len() == 1 {
        hit_text(hs[0])
    } else {
        hits_join(hs.drop_last()) + ","@ + hit_text(hs.last())
    }
}

/// The search success body around its result list.
pub open spec fn results_text(hs: Seq<HitV>) -> Seq<char> {
    "{\"status\":\"success\",\"results\":["@ + hits_join(hs) + "]}"@
}

/// The JSON-Schema request body of a tool whose body must be an object
/// carrying the one required string field named by `body_field`.
pub open spec fn request_body_text(body_field: Seq<char>) -> Seq<char> {
    "{\"required\":true,\"content\":{\"application/json\":{\"schema\":{\"type\":\"object\",\"properties\":{\""@
        + json_escape(body_field) + "\":{\"type\":\"string\"}},\"required\":[\""@ + json_escape(
        body_field,
    ) + "\"]}}}}"@
}

/// One catalog entry as a member of the manifest's paths object: its POST
/// operation with summary, description, operation identifier, and the
/// JSON-Schema request body, all drawn from the catalog entry.
pub open spec fn manifest_entry_text(t: ToolV) -> Seq<char> {
    "\""@ + json_escape(t.path) + "\":{\"post\":{\"summary\":\""@ + json_escape(t.summary)
        + "\",\"description\":\""@ + json_escape(t.description) + "\",\"operationId\":\""@
        + json_escape(t.operation_id) + "\",\"requestBody\":"@ + request_body_text(t.body_field)
        + "}}"@
}

/// The catalog entries joined with commas, in catalog order.
pub open spec fn manifest_join(ts: Seq<ToolV>) -> Seq<char>
    decreases ts.len(),
{
    if ts.len() == 0 {
        Seq::empty()
    } else if ts.len() == 1 {
        manifest_entry_text(ts[0])
    } else {
        manifest_join(ts.drop_last()) + ","@ + manifest_entry_text(ts.last())
    }
}

/// The capability manifest: one paths member per catalog entry.
pub open spec fn manifest_text(ts: Seq<ToolV>) -> Seq<char> {
    "{\"openapi\":\"3.1.0\",\"info\":{\"title\":\"Aegis Logistics Tools\",\"version\":\"1.0\"},\"paths\":{"@
        + manifest_join(ts) + "}}"@
}

/// A body is acceptable to a tool route when it is present and well-formed
/// JSON.
pub open spec fn body_ok(body: Option<Seq<u8>>) -> bool {
    match body {
        Some(b) => json_well_formed(b),
        None => false,
    }
}

/// What the liveness route answers.
pub open spec fn spec_get_root() -> RespV {
    spec_json_response(200, liveness_text())
}

/// What the discovery route answers.
pub open spec fn spec_discover_tools() -> RespV {
    spec_json_response(200, manifest_text(spec_catalog()))
}

/// What the scraper route answers: 400 for a missing or malformed JSON body,
/// otherwise 200 around the scraper's content, or 502 for either scraper
/// failure.
pub open spec fn spec_invoke_scraper(body: Option<Seq<u8>>, o: ScrapeV) -> RespV {
    if !body_ok(body) {
        spec_json_response(400, malformed_body_text())
    } else {
        match o {
            ScrapeV::Success { enhanced_content } => spec_json_response(
                200,
                scraper_ok_text(enhanced_content),
            ),
            ScrapeV::NetworkFailure => spec_json_response(502, network_failure_text()),
            ScrapeV::ParseFailure => spec_json_response(502, parse_failure_text()),
        }
    }
}

/// What the datavault route answers: 400 for a missing or malformed JSON
/// body, otherwise 200 around the result list, 503 when the service cannot
/// be reached, or 502 when it rejects the query.
pub open spec fn spec_query_datavault(body: Option<Seq<u8>>, q: QueryV) -> RespV {
    if !body_ok(body) {
        spec_json_response(400, malformed_body_text())
    } else {
        match q {
            QueryV::Results { hits } => spec_json_response(200, results_text(hits)),
            QueryV::ServiceUnavailable => spec_json_response(503, service_unavailable_text()),
            QueryV::InvalidQuery => spec_json_response(502, invalid_query_text()),
        }
    }
}

/// What the handler named by `h` answers.
pub open spec fn spec_handle(h: HandlerId, body: Option<Seq<u8>>, s: ScrapeV, q: QueryV) -> RespV {
    match h {
        HandlerId::Liveness => spec_get_root(),
        HandlerId::Discover => spec_discover_tools(),
        HandlerId::InvokeScraper => spec_invoke_scraper(body, s),
        HandlerId::QueryDatavault => spec_query_datavault(body, q),
    }
}

/// The liveness handler.
pub fn get_root() -> (r: UniformResponse)
    ensures
        r@ == spec_get_root(),
{
    json_response(
        200,
        String::from_str("{\"status\":\"Aegis Logistics Backend is online via vercel-rust.\"}"),
    )
}

/// Appends the decimal-fraction form of a score to `out`.
fn score_onto(out: &mut String, s: u8)
    ensures
        final(out)@ == old(out)@ + score_text(s),
{
    if s >= 100 {
        out.append("1.0");
    } else {
        out.append("0.");
        out.append(crate::json::hex_digit_str((s / 10) as u32));
        out.append(crate::json::hex_digit_str((s % 10) as u32));
        proof {
            assert(out@ =~= old(out)@ + score_text(s));
        }
    }
}

/// Appends the metadata pairs, comma separated, to `out`.
fn meta_onto(out: &mut String, m: &Vec<(String, String)>)
    ensures
        final(out)@ == old(out)@ + meta_join(m.deep_view()),
{
    let n = m.len();
    let mut i: usize = 0;
    while i < n
        invariant
            i <= n,
            n == m@.len(),
            out@ == old(out)@ + meta_join(m.deep_view().take(i as int)),
        decreases n - i,
    {
        proof {
            assert(m.deep_view().take(i + 1).drop_last() =~= m.deep_view().take(i as int));
            assert(m.deep_view().take(i + 1).last() == m.deep_view()[i as int]);
            assert(m.deep_view()[i as int] == (m@[i as int].0@, m@[i as int].1@));
        }
        if i > 0 {
            out.append(",");
        }
        out.append("\"");
        escape_onto(out, m[i].0.as_str());
        out.append("\":\"");
        escape_onto(out, m[i].1.as_str());
        out.append("\"");
        proof {
            assert(out@ =~= old(out)@ + meta_join(m.deep_view().take(i + 1)));
        }
        i += 1;
    }
    proof {
        assert(m.deep_view().take(n as int) =~= m.deep_view());
    }
}

/// Appends one search hit as a JSON object to `out`.
fn hit_onto(out: &mut String, h: &SearchHit)
    ensures
        final(out)@ == old(out)@ + hit_text(h@),
{
    out.append("{\"id\":\"");
    escape_onto(out, h.id.as_str());
    out.append("\",\"score\":");
    score_onto(out, h.score_centi);
    out.append(",\"metadata\":{");
    meta_onto(out, &h.metadata);
    out.append("}}");
    proof {
        assert(out@ =~= old(out)@ + hit_text(h@));
    }
}

/// Renders the search success body for a list of hits.
fn results_body(hits: &Vec<SearchHit>) -> (r: String)
    ensures
        r@ == results_text(hits.deep_view()),
{
    let mut out = String::from_str("{\"status\":\"success\",\"results\":[");
    let n = hits.len();
    let mut i: usize = 0;
    while i < n
        invariant
            i <= n,
            n == hits@.len(),
            out@ == "{\"status\":\"success\",\"results\":["@ + hits_join(
                hits.deep_view().take(i as int),
            ),
        decreases n - i,
    {
        proof {
            assert(hits.deep_view().take(i + 1).drop_last() =~= hits.deep_view().take(i as int));
            assert(hits.deep_view().take(i + 1).last() == hits.deep_view()[i as int]);
            assert(hits.deep_view()[i as int] == hits@[i as int]@);
        }
        if i > 0 {
            out.append(",");
        }
        hit_onto(&mut out, &hits[i]);
        proof {
            assert(out@ =~= "{\"status\":\"success\",\"results\":["@ + hits_join(
                hits.deep_view().take(i + 1),
            ));
        }
        i += 1;
    }
    out.append("]}");
    proof {
        assert(hits.deep_view().take(n as int) =~= hits.deep_view());
        assert(out@ =~= results_text(hits.deep_view()));
    }
    out
}

/// Renders the capability manifest for the given catalog.
#[verifier::rlimit(60)]
fn manifest_body(tools: &Vec<ToolSpec>) -> (r: String)
    ensures
        r@ == manifest_text(tools.deep_view()),
{
    let mut out = String::from_str(
        "{\"openapi\":\"3.1.0\",\"info\":{\"title\":\"Aegis Logistics Tools\",\"version\":\"1.0\"},\"paths\":{",
    );
    let n = tools.len();
    let mut i: usize = 0;
    while i < n
        invariant
            i <= n,
            n == tools@.len(),
            out@
                == "{\"openapi\":\"3.1.0\",\"info\":{\"title\":\"Aegis Logistics Tools\",\"version\":\"1.0\"},\"paths\":{"@
                + manifest_join(tools.deep_view().take(i as int)),
        decreases n - i,
    {
        proof {
            assert(tools.deep_view().take(i + 1).drop_last() =~= tools.deep_view().take(
                i as int,
            ));
            assert(tools.deep_view().take(i + 1).last() == tools.deep_view()[i as int]);
            assert(tools.deep_view()[i as int] == tools@[i as int]@);
        }
        if i > 0 {
            out.append(",");
        }
        out.append("\"");
        escape_onto(&mut out, tools[i].path.as_str());
        out.append("\":{\"post\":{\"summary\":\"");
        escape_onto(&mut out, tools[i].summary.as_str());
        out.append("\",\"description\":\"");
        escape_onto(&mut out, tools[i].description.as_str());
        out.append("\",\"operationId\":\"");
        escape_onto(&mut out, tools[i].operation_id.as_str());
        out.append("\",\"requestBody\":");
        out.append(
            "{\"required\":true,\"content\":{\"application/json\":{\"schema\":{\"type\":\"object\",\"properties\":{\"",
        );
        escape_onto(&mut out, tools[i].body_field.as_str());
        out.append("\":{\"type\":\"string\"}},\"required\":[\"");
        escape_onto(&mut out, tools[i].body_field.as_str());
        out.append("\"]}}}}");
        out.append("}}");
        proof {
            assert(out@
                == "{\"openapi\":\"3.1.0\",\"info\":{\"title\":\"Aegis Logistics Tools\",\"version\":\"1.0\"},\"paths\":{"@
                + manifest_join(tools.deep_view().take(i + 1)));
        }
        i += 1;
    }
    out.append("}}");
    proof {
        assert(tools.deep_view().take(n as int) =~= tools.deep_view());
        assert(out@ =~= manifest_text(tools.deep_view()));
    }
    out
}

/// The discovery handler: advertises the capability manifest derived from
/// the catalog.
pub fn discover_tools() -> (r: UniformResponse)
    ensures
        r@ == spec_discover_tools(),
{
    let tools = catalog();
    let body = manifest_body(&tools);
    json_response(200, body)
}

/// The scraper tool handler.
pub fn invoke_isabella_scraper(body: &Option<Vec<u8>>, outcome: &ScrapeOutcome) -> (r:
    UniformResponse)
    ensures
        r@ == spec_invoke_scraper(body.deep_view(), outcome@),
{
    let ok: bool;
    match body {
        Some(b) => {
            ok = body_is_json(b);
            proof {
                assert(b.deep_view() =~= b@);
                assert(ok == body_ok(body.deep_view()));
            }
        },
        None => {
            ok = false;
        },
    }
    if !ok {
        return json_response(
            400,
            String::from_str(
                "{\"error\":\"malformed_json\",\"message\":\"request body is not well-formed JSON\"}",
            ),
        );
    }
    match outcome {
        ScrapeOutcome::Success { enhanced_content } => {
            let mut out = String::from_str("{\"enhanced_content\":\"");
            escape_onto(&mut out, enhanced_content.as_str());
            out.append("\"}");
            proof {
                assert(out@ =~= scraper_ok_text(enhanced_content@));
            }
            json_response(200, out)
        },
        ScrapeOutcome::NetworkFailure => json_response(
            502,
            String::from_str(
                "{\"error\":\"network_failure\",\"message\":\"the scraper could not reach the source\"}",
            ),
        ),
        ScrapeOutcome::ParseFailure => json_response(
            502,
            String::from_str(
                "{\"error\":\"parse_failure\",\"message\":\"the scraper could not process the fetched content\"}",
            ),
        ),
    }
}

/// The datavault tool handler.
pub fn query_datavault(body: &Option<Vec<u8>>, outcome: &QueryOutcome) -> (r: UniformResponse)
    ensures
        r@ == spec_query_datavault(body.deep_view(), outcome@),
{
    let ok: bool;
    match body {
        Some(b) => {
            ok = body_is_json(b);
            proof {
                assert(b.deep_view() =~= b@);
                assert(ok == body_ok(body.deep_view()));
            }
        },
        None => {
            ok = false;
        },
    }
    if !ok {
        return json_response(
            400,
            String::from_str(
                "{\"error\":\"malformed_json\",\"message\":\"request body is not well-formed JSON\"}",
            ),
        );
    }
    match outcome {
        QueryOutcome::Results { hits } => json_response(200, results_body(hits)),
        QueryOutcome::ServiceUnavailable => json_response(
            503,
            String::from_str(
                "{\"error\":\"service_unavailable\",\"message\":\"the search service could not be reached\"}",
            ),
        ),
        QueryOutcome::InvalidQuery => json_response(
            502,
            String::from_str(
                "{\"error\":\"invalid_query\",\"message\":\"the search service rejected the query\"}",
            ),
        ),
    }
}

/// Runs the handler a route bound, exactly as `spec_handle` says.
pub fn run_handler(
    h: HandlerId,
    body: &Option<Vec<u8>>,
    scrape: &ScrapeOutcome,
    query: &QueryOutcome,
) -> (r: UniformResponse)
    ensures
        r@ == spec_handle(h, body.deep_view(), scrape@, query@),
{
    match h {
        HandlerId::Liveness => get_root(),
        HandlerId::Discover => discover_tools(),
        HandlerId::InvokeScraper => invoke_isabella_scraper(body, scrape),
        HandlerId::QueryDatavault => query_datavault(body, query),
    }
}

/// The response when no route matches: the 404 answer of the dispatcher.
pub fn not_found_response() -> (r: UniformResponse)
    ensures
        r@ == spec_json_response(404, not_found_text()),
{
    json_response(
        404,
        String::from_str(
            "{\"error\":\"route_not_found\",\"message\":\"no route matches the request\"}",
        ),
    )
}

/// The response for an uncaught handler failure: a generic 500 that exposes
/// no internal error text. The handlers above are total, so the verified
/// pipeline never produces it itself; the hosting side answers with it if an
/// activation fails outside the library.
pub fn handler_fault_response() -> (r: UniformResponse)
    ensures
        r@ == spec_json_response(500, fault_text()),
{
    json_response(
        500,
        String::from_str("{\"error\":\"handler_fault\",\"message\":\"internal error\"}"),
    )
}

/// The 400 response that answers each adaptation error.
pub fn adaptation_response(e: AdaptationError) -> (r: UniformResponse)
    ensures
        r@ == spec_json_response(400, adaptation_text(e)),
{
    match e {
        AdaptationError::MissingMethod => json_response(
            400,
            String::from_str(
                "{\"error\":\"adaptation_error\",\"message\":\"the payload carries no method\"}",
            ),
        ),
        AdaptationError::UnknownMethod => json_response(
            400,
            String::from_str(
                "{\"error\":\"adaptation_error\",\"message\":\"the method token is not recognized\"}",
            ),
        ),
        AdaptationError::MissingPath => json_response(
            400,
            String::from_str(
                "{\"error\":\"adaptation_error\",\"message\":\"the payload carries no path\"}",
            ),
        ),
        AdaptationError::BadContentLength => json_response(
            400,
            String::from_str(
                "{\"error\":\"adaptation_error\",\"message\":\"the declared content length is not a decimal number\"}",
            ),
        ),
        AdaptationError::BodyLengthMismatch => json_response(
            400,
            String::from_str(
                "{\"error\":\"adaptation_error\",\"message\":\"the body does not match the declared content length\"}",
            ),
        ),
    }
}

} // verus!
