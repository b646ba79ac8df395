//! The request adapter: turns either native payload shape into the one
//! uniform request the dispatcher works on, or rejects a structurally
//! malformed payload with an `AdaptationError`.

use crate::model::{
    spec_parse_method, AdaptationError, NativePayload, PayloadV, ReqV, UniformRequest,
    parse_method,
};
use crate::text::{ci_eq, spec_parse_u64, parse_u64, str_eq, str_eq_ci};
use vstd::prelude::*;

verus! {

/// The first value bound to an exactly matching key, as an envelope's
/// metadata fields are read.
pub open spec fn spec_field_lookup(fields: Seq<(Seq<char>, Seq<char>)>, key: Seq<char>) -> Option<
    Seq<char>,
>
    decreases fields.len(),
{
    if fields.len() == 0 {
        None
    } else if fields[0].0 == key {
        Some(fields[0].1)
    } else {
        spec_field_lookup(fields.drop_first(), key)
    }
}

/// Finds the first envelope field with the given key, exactly as
/// `spec_field_lookup` says.
fn field_lookup(fields: &Vec<(String, String)>, key: &str) -> (r: Option<String>)
    ensures
        r.deep_view() == spec_field_lookup(fields.deep_view(), key@),
{
    let n = fields.len();
    proof {
        assert(fields.deep_view().skip(0) =~= fields.deep_view());
    }
    let mut i: usize = 0;
    while i < n
        invariant
            i <= n,
            n == fields@.len(),
            spec_field_lookup(fields.deep_view(), key@) == spec_field_lookup(
                fields.deep_view().skip(i as int),
                key@,
            ),
        decreases n - i,
    {
        proof {
            assert(fields.deep_view().skip(i as int).drop_first() =~= fields.deep_view().skip(
                i + 1,
            ));
            assert(fields.deep_view().skip(i as int)[0] == fields.deep_view()[i as int]);
            assert(fields.deep_view()[i as int] == (fields@[i as int].0@, fields@[i as int].1@));
        }
        if str_eq(fields[i].0.as_str(), key) {
            return Some(fields[i].1.clone());
        }
        i += 1;
    }
    proof {
        assert(fields.deep_view().skip(n as int) =~= Seq::<(Seq<char>, Seq<char>)>::empty());
    }
    None
}

/// The value of the named header, matched without regard to ASCII case, with
/// the values of repeated headers concatenated in order with commas, as HTTP
/// reads repeated fields; `None` when no header matches.
pub open spec fn spec_header_value(
    headers: Seq<(Seq<char>, Seq<char>)>,
    name: Seq<char>,
) -> Option<Seq<char>>
    decreases headers.len(),
{
    if headers.len() == 0 {
        None
    } else {
        let rest = spec_header_value(headers.drop_first(), name);
        if ci_eq(headers[0].0, name) {
            match rest {
                None => Some(headers[0].1),
                Some(v) => Some(headers[0].1 + ","@ + v),
            }
        } else {
            rest
        }
    }
}

/// Reads the named header, exactly as `spec_header_value` says.
pub fn header_value(headers: &Vec<(String, String)>, name: &str) -> (r: Option<String>)
    ensures
        r.deep_view() == spec_header_value(headers.deep_view(), name@),
{
    let n = headers.len();
    let mut acc: Option<String> = None;
    proof {
        assert(headers.deep_view().skip(n as int) =~= Seq::<(Seq<char>, Seq<char>)>::empty());
    }
    let mut i: usize = n;
    while i > 0
        invariant
            i <= n,
            n == headers@.len(),
            acc.deep_view() == spec_header_value(headers.deep_view().skip(i as int), name@),
        decreases i,
    {
        i = i - 1;
        proof {
            assert(headers.deep_view().skip(i as int).drop_first() =~= headers.deep_view().skip(
                i + 1,
            ));
            assert(headers.deep_view().skip(i as int)[0] == headers.deep_view()[i as int]);
            assert(headers.deep_view()[i as int] == (
                headers@[i as int].0@,
                headers@[i as int].1@,
            ));
        }
        if str_eq_ci(headers[i].0.as_str(), name) {
            match acc {
                None => {
                    acc = Some(headers[i].1.clone());
                },
                Some(rest) => {
                    let mut joined = headers[i].1.clone();
                    joined.append(",");
                    joined.append(rest.as_str());
                    acc = Some(joined);
                },
            }
        }
    }
    proof {
        assert(headers.deep_view().skip(0) =~= headers.deep_view());
    }
    acc
}

/// The length of a body that may be absent: an absent body has length zero.
pub open spec fn spec_body_len(body: Option<Seq<u8>>) -> nat {
    match body {
        Some(b) => b.len(),
        None => 0,
    }
}

/// What adaptation makes of fields common to both payload shapes: the method
/// token must name a known method, and a declared content length must be a
/// decimal number that equals the body's length.
pub open spec fn spec_adapt_parts(
    mtok: Seq<char>,
    path: Seq<char>,
    headers: Seq<(Seq<char>, Seq<char>)>,
    body: Option<Seq<u8>>,
) -> Result<ReqV, AdaptationError> {
    match spec_parse_method(mtok) {
        None => Err(AdaptationError::UnknownMethod),
        Some(m) => match spec_header_value(headers, "content-length"@) {
            None => Ok(ReqV { method: m, path, headers, body }),
            Some(clv) => match spec_parse_u64(clv) {
                None => Err(AdaptationError::BadContentLength),
                Some(len) => if len == spec_body_len(body) {
                    Ok(ReqV { method: m, path, headers, body })
                } else {
                    Err(AdaptationError::BodyLengthMismatch)
                },
            },
        },
    }
}

/// What the request adapter makes of a native payload. A pre-parsed payload
/// hands its fields over directly; an envelope must first yield a method and
/// a path field, the first of each winning.
pub open spec fn spec_adapt(p: PayloadV) -> Result<ReqV, AdaptationError> {
    match p {
        PayloadV::Preparsed { method, path, headers, body } => spec_adapt_parts(
            method,
            path,
            headers,
            body,
        ),
        PayloadV::Envelope { fields, headers, body } => match spec_field_lookup(
            fields,
            "method"@,
        ) {
            None => Err(AdaptationError::MissingMethod),
            Some(mtok) => match spec_field_lookup(fields, "path"@) {
                None => Err(AdaptationError::MissingPath),
                Some(path) => spec_adapt_parts(mtok, path, headers, body),
            },
        },
    }
}

/// The adapter's result under the view of its request.
pub open spec fn adapt_result_view(r: Result<UniformRequest, AdaptationError>) -> Result<
    ReqV,
    AdaptationError,
> {
    match r {
        Ok(q) => Ok(q@),
        Err(e) => Err(e),
    }
}

/// Adapts the common fields, exactly as `spec_adapt_parts` says.
fn adapt_parts(
    mtok: String,
    path: String,
    headers: Vec<(String, String)>,
    body: Option<Vec<u8>>,
) -> (r: Result<UniformRequest, AdaptationError>)
    ensures
        adapt_result_view(r) == spec_adapt_parts(
            mtok@,
            path@,
            headers.deep_view(),
            body.deep_view(),
        ),
{
    let m = match parse_method(mtok.as_str()) {
        None => {
            return Err(AdaptationError::UnknownMethod);
        },
        Some(m) => m,
    };
    match header_value(&headers, "content-length") {
        None => Ok(UniformRequest { method: m, path, headers, body }),
        Some(clv) => match parse_u64(clv.as_str()) {
            None => Err(AdaptationError::BadContentLength),
            Some(len) => {
                let actual: u64 = match &body {
                    Some(b) => {
                        proof {
                            assert(b.deep_view() =~= b@);
                        }
                        b.len() as u64
                    },
                    None => 0,
                };
                proof {
                    assert(actual == spec_body_len(body.deep_view()));
                }
                if len == actual {
                    Ok(UniformRequest { method: m, path, headers, body })
                } else {
                    Err(AdaptationError::BodyLengthMismatch)
                }
            },
        },
    }
}

/// The request adapter: normalizes either native payload shape into a
/// uniform request, or says exactly why the payload is malformed.
pub fn adapt_request(p: NativePayload) -> (r: Result<UniformRequest, AdaptationError>)
    ensures
        adapt_result_view(r) == spec_adapt(p@),
{
    match p {
        NativePayload::Preparsed { method, path, headers, body } => adapt_parts(
            method,
            path,
            headers,
            body,
        ),
        NativePayload::Envelope { fields, headers, body } => {
            let mtok = match field_lookup(&fields, "method") {
                None => {
                    return Err(AdaptationError::MissingMethod);
                },
                Some(v) => v,
            };
            let path = match field_lookup(&fields, "path") {
                None => {
                    return Err(AdaptationError::MissingPath);
                },
                Some(v) => v,
            };
            adapt_parts(mtok, path, headers, body)
        },
    }
}

} // verus!
