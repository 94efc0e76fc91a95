//! Requests and responses of the two generations.

use http::HeaderMap as HeaderMap0;
use hyper::HeaderMap as HeaderMap1;
use vstd::prelude::*;

use crate::body::{HyperBodyToLegacyStream, LegacyBodyToHyperBody};
use crate::error::ConversionError;
use crate::fields::{fields_converted, fields_ok, Generation, ROOMY};
use crate::headers::{
    convert_headers_0x_to_1x, convert_headers_1x_to_0x, header_fields_0x, header_fields_1x,
};
use crate::version::{
    carried_version, convert_version_0_to_1, convert_version_1_to_0, HttpVersion,
};

verus! {

/// A request with headers `H` and a body `B`. Its method and its URI are held as
/// the texts that the HTTP crates write for them.
#[derive(Debug)]
pub struct Request<H, B> {
    pub method: String,
    pub uri: String,
    pub version: HttpVersion,
    pub headers: H,
    pub body: B,
}

/// A response with headers `H` and a body `B`.
#[derive(Debug)]
pub struct Response<H, B> {
    pub status: u16,
    pub version: HttpVersion,
    pub headers: H,
    pub body: B,
}

/// The error of `http` 0.2 for a text that is no method.
#[verifier::external_type_specification]
#[verifier::external_body]
pub struct ExInvalidMethod(http::method::InvalidMethod);

/// The error of `http` 0.2 for a text that is no URI.
#[verifier::external_type_specification]
#[verifier::external_body]
pub struct ExInvalidUri(http::uri::InvalidUri);

/// The error of `http` 1 for a number that is no status code.
#[verifier::external_type_specification]
#[verifier::external_body]
pub struct ExInvalidStatusCode(hyper::http::status::InvalidStatusCode);

/// The characters of a method. `http` 1 takes five that `http` 0.2 does not.
pub open spec fn method_char(generation: Generation, c: char) -> bool {
    ||| 'A' <= c <= 'Z'
    ||| 'a' <= c <= 'z'
    ||| '0' <= c <= '9'
    ||| c == '!' || c == '*' || c == '+' || c == '-' || c == '.'
    ||| c == '^' || c == '_' || c == '`' || c == '|' || c == '~'
    ||| generation is Modern && (c == '#' || c == '$' || c == '%' || c == '&' || c == '\'')
}

/// The text of a method of `generation`.
pub open spec fn method_ok(generation: Generation, text: Seq<char>) -> bool {
    &&& text.len() > 0
    &&& forall|i: int| 0 <= i < text.len() ==> method_char(generation, #[trigger] text[i])
}

/// `Method::from_bytes` of `http` 0.2, with the method taken as text: it takes the
/// methods of that crate and keeps their text.
#[verifier::external_body]
fn method_0x(text: &str) -> (method: Result<String, http::method::InvalidMethod>)
    ensures
        method is Ok <==> method_ok(Generation::Legacy, text@),
        method matches Ok(method) ==> method@ == text@,
{
    http::Method::from_bytes(text.as_bytes()).map(|method| method.as_str().to_owned())
}

/// The method of `http` 0.2 for a method of `http` 1.
pub fn convert_method_1_to_0(method: &str) -> (converted: Result<String, ConversionError>)
    ensures
        match converted {
            Ok(converted) => method_ok(Generation::Legacy, method@) && converted@ == method@,
            Err(error) => !method_ok(Generation::Legacy, method@)
                && error == ConversionError::Method,
        },
{
    match method_0x(method) {
        Ok(converted) => Ok(converted),
        Err(_) => Err(ConversionError::Method),
    }
}

/// The text that `http` 0.2 writes for the URI that it reads in `text`, where it
/// reads one.
pub uninterp spec fn uri_text_0x(text: Seq<char>) -> Option<Seq<char>>;

/// The characters of the path of a URI of `http` 0.2.
pub open spec fn path_char(c: char) -> bool {
    ||| '\x24' <= c <= '\x3b'
    ||| '\x40' <= c <= '\x5f'
    ||| '\x61' <= c <= '\x7e'
    ||| c == '!' || c == '"' || c == '='
}

/// The characters of the query of a URI of `http` 0.2.
pub open spec fn query_char(c: char) -> bool {
    ||| '\x24' <= c <= '\x3b'
    ||| '\x3f' <= c <= '\x7e'
    ||| c == '!' || c == '='
}

/// The longest URI that `http` 0.2 takes.
pub const MAX_URI_LEN: usize = 65534;

/// An absolute path up to `end`, and a query behind it unless it ends the text.
pub open spec fn path_then_query(text: Seq<char>, end: int) -> bool {
    &&& 0 < end <= text.len() <= MAX_URI_LEN
    &&& text[0] == '/'
    &&& forall|i: int| 0 <= i < end ==> path_char(#[trigger] text[i])
    &&& end < text.len() ==> text[end] == '?'
    &&& forall|i: int| end < i < text.len() ==> query_char(#[trigger] text[i])
}

/// The forms of a URI that carry neither a scheme nor an authority: an absolute
/// path with or without a query, and the asterisk.
pub open spec fn local_uri(text: Seq<char>) -> bool {
    ||| text == seq!['*']
    ||| exists|end: int| #[trigger] path_then_query(text, end)
}

/// `Uri::from_str` of `http` 0.2, with the URI taken as the text that its
/// `Display` writes. A URI with neither a scheme nor an authority is read, and
/// written as it came.
#[verifier::external_body]
fn uri_0x(text: &str) -> (uri: Result<String, http::uri::InvalidUri>)
    ensures
        uri_text_0x(text@) == match uri {
            Ok(uri) => Some(uri@),
            Err(_) => None,
        },
        local_uri(text@) ==> uri is Ok && uri->Ok_0@ == text@,
{
    text.parse::<http::Uri>().map(|uri| uri.to_string())
}

/// The URI of `http` 0.2 for a URI of `http` 1, given as the text that its
/// `Display` writes.
pub fn convert_uri_1_to_0(uri: &str) -> (converted: Result<String, ConversionError>)
    ensures
        match converted {
            Ok(converted) => uri_text_0x(uri@) == Some(converted@),
            Err(error) => uri_text_0x(uri@) is None && error == ConversionError::Uri,
        },
        local_uri(uri@) ==> converted is Ok && converted->Ok_0@ == uri@,
{
    match uri_0x(uri) {
        Ok(converted) => Ok(converted),
        Err(_) => Err(ConversionError::Uri),
    }
}

/// `StatusCode::from_u16` of `http` 1, with the status code taken as a number: it
/// takes the numbers of three digits.
#[verifier::external_body]
fn status_1x(code: u16) -> (status: Result<u16, hyper::http::status::InvalidStatusCode>)
    ensures
        status is Ok <==> 100 <= code <= 999,
        status matches Ok(status) ==> status == code,
{
    hyper::StatusCode::from_u16(code).map(|status| status.as_u16())
}

/// The status code of `http` 1 for a status code of `http` 0.2.
pub fn convert_status_0_to_1(status: u16) -> (converted: Result<u16, ConversionError>)
    ensures
        match converted {
            Ok(converted) => 100 <= status <= 999 && converted == status,
            Err(error) => !(100 <= status <= 999) && error == ConversionError::Status,
        },
{
    match status_1x(status) {
        Ok(converted) => Ok(converted),
        Err(_) => Err(ConversionError::Status),
    }
}

/// `outcome` is what becomes of the request `req` of hyper 1 in `http` 0.2. The
/// parts are looked at in the order method, URI, headers.
pub open spec fn request_converted<B>(
    req: Request<HeaderMap1, B>,
    outcome: Result<Request<HeaderMap0, HyperBodyToLegacyStream<B>>, ConversionError>,
) -> bool {
    if !method_ok(Generation::Legacy, req.method@) {
        outcome matches Err(ConversionError::Method)
    } else {
        match uri_text_0x(req.uri@) {
            None => outcome matches Err(ConversionError::Uri),
            Some(uri) => match outcome {
                Ok(converted) => {
                    &&& converted.method@ == req.method@
                    &&& converted.uri@ == uri
                    &&& converted.version == carried_version(req.version)
                    &&& fields_converted(
                        Generation::Legacy,
                        header_fields_1x(req.headers),
                        Ok(header_fields_0x(converted.headers)),
                    )
                    &&& converted.body.body == req.body
                },
                Err(error) => fields_converted(
                    Generation::Legacy,
                    header_fields_1x(req.headers),
                    Err(error),
                ),
            },
        }
    }
}

/// The request of `http` 0.2 for a request of hyper 1.
pub fn convert_request<B>(req: Request<HeaderMap1, B>) -> (converted: Result<
    Request<HeaderMap0, HyperBodyToLegacyStream<B>>,
    ConversionError,
>)
    ensures
        request_converted(req, converted),
        local_uri(req.uri@) ==> match converted {
            Ok(converted) => converted.uri@ == req.uri@,
            Err(error) => error != ConversionError::Uri,
        },
        converted matches Ok(converted) ==> {
            &&& converted.method@ == req.method@
            &&& uri_text_0x(req.uri@) == Some(converted.uri@)
            &&& req.version is Http3 || req.version is Unknown ==> converted.version is Http11
            &&& !(req.version is Http3 || req.version is Unknown) ==> converted.version
                == req.version
            &&& converted.body.body == req.body
        },
{
    let method = match convert_method_1_to_0(req.method.as_str()) {
        Ok(method) => method,
        Err(error) => return Err(error),
    };
    let uri = match convert_uri_1_to_0(req.uri.as_str()) {
        Ok(uri) => uri,
        Err(error) => return Err(error),
    };
    let version = convert_version_1_to_0(req.version);
    let headers = match convert_headers_1x_to_0x(req.headers) {
        Ok(headers) => headers,
        Err(error) => return Err(error),
    };
    Ok(Request { method, uri, version, headers, body: HyperBodyToLegacyStream::new(req.body) })
}

/// `outcome` is what becomes of the response `res` of `http` 0.2 in hyper 1. The
/// status is looked at before the headers.
pub open spec fn response_converted<B>(
    res: Response<HeaderMap0, B>,
    outcome: Result<Response<HeaderMap1, LegacyBodyToHyperBody<B>>, ConversionError>,
) -> bool {
    if !(100 <= res.status <= 999) {
        outcome matches Err(ConversionError::Status)
    } else {
        match outcome {
            Ok(converted) => {
                &&& converted.status == res.status
                &&& converted.version == carried_version(res.version)
                &&& fields_converted(
                    Generation::Modern,
                    header_fields_0x(res.headers),
                    Ok(header_fields_1x(converted.headers)),
                )
                &&& converted.body.body == res.body
            },
            Err(error) => fields_converted(
                Generation::Modern,
                header_fields_0x(res.headers),
                Err(error),
            ),
        }
    }
}

/// The response of hyper 1 for a response of `http` 0.2.
pub fn convert_response<B>(res: Response<HeaderMap0, B>) -> (converted: Result<
    Response<HeaderMap1, LegacyBodyToHyperBody<B>>,
    ConversionError,
>)
    ensures
        response_converted(res, converted),
        converted matches Ok(converted) ==> {
            &&& converted.status == res.status
            &&& res.version is Http3 || res.version is Unknown ==> converted.version is Http11
            &&& !(res.version is Http3 || res.version is Unknown) ==> converted.version
                == res.version
            &&& converted.body.body == res.body
        },
{
    let status = match convert_status_0_to_1(res.status) {
        Ok(status) => status,
        Err(error) => return Err(error),
    };
    let version = convert_version_0_to_1(res.version);
    let headers = match convert_headers_0x_to_1x(res.headers) {
        Ok(headers) => headers,
        Err(error) => return Err(error),
    };
    Ok(Response { status, version, headers, body: LegacyBodyToHyperBody::new(res.body) })
}

/// A method of `http` 1 is a method of `http` 0.2, and then keeps its text, unless
/// it has one of the five characters that only `http` 1 takes.
pub proof fn modern_methods_in_legacy(text: Seq<char>)
    requires
        method_ok(Generation::Modern, text),
    ensures
        method_ok(Generation::Legacy, text) <==> !(text.contains('#') || text.contains('$')
            || text.contains('%') || text.contains('&') || text.contains('\'')),
{
    if !method_ok(Generation::Legacy, text) {
        let i = choose|i: int|
            0 <= i < text.len() && !method_char(Generation::Legacy, #[trigger] text[i]);
        assert(method_char(Generation::Modern, text[i]));
        assert(text.contains(text[i]));
    }
}

/// A request with at most `ROOMY` header names converts exactly where its method,
/// its URI and its headers can each stand in `http` 0.2.
pub proof fn requests_convert<B>(
    req: Request<HeaderMap1, B>,
    outcome: Result<Request<HeaderMap0, HyperBodyToLegacyStream<B>>, ConversionError>,
)
    requires
        request_converted(req, outcome),
        header_fields_1x(req.headers).len() <= ROOMY,
    ensures
        outcome is Ok <==> {
            &&& method_ok(Generation::Legacy, req.method@)
            &&& uri_text_0x(req.uri@) is Some
            &&& fields_ok(Generation::Legacy, header_fields_1x(req.headers))
        },
{
}

/// A response with at most `ROOMY` header names converts exactly where its status
/// and its headers can each stand in hyper 1.
pub proof fn responses_convert<B>(
    res: Response<HeaderMap0, B>,
    outcome: Result<Response<HeaderMap1, LegacyBodyToHyperBody<B>>, ConversionError>,
)
    requires
        response_converted(res, outcome),
        header_fields_0x(res.headers).len() <= ROOMY,
    ensures
        outcome is Ok <==> {
            &&& 100 <= res.status <= 999
            &&& fields_ok(Generation::Modern, header_fields_0x(res.headers))
        },
{
}

} // verus!
