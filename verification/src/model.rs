//! The uniform request and response shapes that the gateway works on, the
//! native payload and reply shapes it exchanges with the hosting runtime, and
//! the error taxonomy of the adaptation step.

use crate::text::str_eq;
use vstd::prelude::*;

verus! {

/// The HTTP methods the gateway understands. Anything else is a malformed
/// payload at the adaptation boundary.
#[derive(Clone, Copy, PartialEq, Eq, Structural, Debug)]
pub enum Method {
    Get,
    Post,
    Put,
    Delete,
    Head,
    Options,
    Patch,
}

/// Which method a token names, if any.
pub open spec fn spec_parse_method(t: Seq<char>) -> Option<Method> {
    if t == "GET"@ {
        Some(Method::Get)
    } else if t == "POST"@ {
        Some(Method::Post)
    } else if t == "PUT"@ {
        Some(Method::Put)
    } else if t == "DELETE"@ {
        Some(Method::Delete)
    } else if t == "HEAD"@ {
        Some(Method::Head)
    } else if t == "OPTIONS"@ {
        Some(Method::Options)
    } else if t == "PATCH"@ {
        Some(Method::Patch)
    } else {
        None
    }
}

/// Turns a method token into a method, exactly as `spec_parse_method` says.
pub fn parse_method(tok: &str) -> (r: Option<Method>)
    ensures
        r == spec_parse_method(tok@),
{
    if str_eq(tok, "GET") {
        Some(Method::Get)
    } else if str_eq(tok, "POST") {
        Some(Method::Post)
    } else if str_eq(tok, "PUT") {
        Some(Method::Put)
    } else if str_eq(tok, "DELETE") {
        Some(Method::Delete)
    } else if str_eq(tok, "HEAD") {
        Some(Method::Head)
    } else if str_eq(tok, "OPTIONS") {
        Some(Method::Options)
    } else if str_eq(tok, "PATCH") {
        Some(Method::Patch)
    } else {
        None
    }
}

/// The mathematical shape of a uniform request.
pub struct ReqV {
    pub method: Method,
    pub path: Seq<char>,
    pub headers: Seq<(Seq<char>, Seq<char>)>,
    pub body: Option<Seq<u8>>,
}

/// One inbound invocation, normalized: every native payload shape becomes
/// this before routing.
pub struct UniformRequest {
    pub method: Method,
    pub path: String,
    pub headers: Vec<(String, String)>,
    pub body: Option<Vec<u8>>,
}

impl View for UniformRequest {
    type V = ReqV;

    open spec fn view(&self) -> ReqV {
        ReqV {
            method: self.method,
            path: self.path@,
            headers: self.headers.deep_view(),
            body: self.body.deep_view(),
        }
    }
}

/// The mathematical shape of a uniform response, and also of the native
/// reply, which must preserve it verbatim.
pub struct RespV {
    pub status: u16,
    pub headers: Seq<(Seq<char>, Seq<char>)>,
    pub body: Seq<char>,
}

/// A response is well formed when its status is an HTTP status code.
pub open spec fn resp_wf(r: RespV) -> bool {
    100 <= r.status <= 599
}

/// What a handler produces: status, headers, and a fully materialized body.
pub struct UniformResponse {
    pub status: u16,
    pub headers: Vec<(String, String)>,
    pub body: String,
}

impl View for UniformResponse {
    type V = RespV;

    open spec fn view(&self) -> RespV {
        RespV { status: self.status, headers: self.headers.deep_view(), body: self.body@ }
    }
}

/// The reply handed back to the hosting runtime.
pub struct NativeReply {
    pub status: u16,
    pub headers: Vec<(String, String)>,
    pub body: String,
}

impl View for NativeReply {
    type V = RespV;

    open spec fn view(&self) -> RespV {
        RespV { status: self.status, headers: self.headers.deep_view(), body: self.body@ }
    }
}

/// The two native invocation shapes the hosting boundary has carried: a
/// pre-parsed request already holding its fields, and an envelope whose
/// metadata fields must be picked apart first.
pub enum NativePayload {
    Preparsed {
        method: String,
        path: String,
        headers: Vec<(String, String)>,
        body: Option<Vec<u8>>,
    },
    Envelope {
        fields: Vec<(String, String)>,
        headers: Vec<(String, String)>,
        body: Option<Vec<u8>>,
    },
}

/// The mathematical shape of a native payload.
pub enum PayloadV {
    Preparsed {
        method: Seq<char>,
        path: Seq<char>,
        headers: Seq<(Seq<char>, Seq<char>)>,
        body: Option<Seq<u8>>,
    },
    Envelope {
        fields: Seq<(Seq<char>, Seq<char>)>,
        headers: Seq<(Seq<char>, Seq<char>)>,
        body: Option<Seq<u8>>,
    },
}

impl View for NativePayload {
    type V = PayloadV;

    open spec fn view(&self) -> PayloadV {
        match self {
            NativePayload::Preparsed { method, path, headers, body } => PayloadV::Preparsed {
                method: method@,
                path: path@,
                headers: headers.deep_view(),
                body: body.deep_view(),
            },
            NativePayload::Envelope { fields, headers, body } => PayloadV::Envelope {
                fields: fields.deep_view(),
                headers: headers.deep_view(),
                body: body.deep_view(),
            },
        }
    }
}

/// Why a native payload could not be adapted; every case is answered with
/// status 400.
#[derive(Clone, Copy, PartialEq, Eq, Structural, Debug)]
pub enum AdaptationError {
    /// An envelope carries no method field.
    MissingMethod,
    /// The method token names no method the gateway knows.
    UnknownMethod,
    /// An envelope carries no path field.
    MissingPath,
    /// A declared content length that is not a plain decimal number.
    BadContentLength,
    /// The body's length differs from the declared content length.
    BodyLengthMismatch,
}

/// The response shape shared by every handler: the given status, a JSON
/// content type header, and the given body.
pub open spec fn spec_json_response(status: u16, body: Seq<char>) -> RespV {
    RespV { status, headers: seq![("Content-Type"@, "application/json"@)], body }
}

/// Builds the one response shape the gateway sends, exactly as
/// `spec_json_response` says.
pub fn json_response(status: u16, body: String) -> (r: UniformResponse)
    ensures
        r@ == spec_json_response(status, body@),
{
    let mut headers: Vec<(String, String)> = Vec::new();
    headers.push((String::from_str("Content-Type"), String::from_str("application/json")));
    let r = UniformResponse { status, headers, body };
    proof {
        assert(r@.headers =~= seq![("Content-Type"@, "application/json"@)]);
    }
    r
}

/// The response adapter: hands the uniform response to the hosting runtime
/// with status, headers and body preserved verbatim.
pub fn adapt_response(resp: UniformResponse) -> (r: NativeReply)
    ensures
        r@ == resp@,
{
    NativeReply { status: resp.status, headers: resp.headers, body: resp.body }
}

} // verus!
