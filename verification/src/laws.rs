//! What the functions of the library promise, stated of calls of them and of
//! what goes into and comes out of a message, a body or the listener.

use http::HeaderMap as HeaderMap0;
use hyper::HeaderMap as HeaderMap1;
use vstd::prelude::*;

use crate::body::{
    BodyError, BodyErrorKind, Frame, FramePoll, FrameStep, HyperBodyToLegacyStream,
    LegacyBodyToHyperBody, LegacyPoll, StreamStep,
};
use crate::error::ConversionError;
use crate::fields::{
    field_ok, fields_converted, fields_ok, first_bad, name_char, name_ok, unmarked_values,
    value_ok, Field, Fields, Generation,
};
use crate::headers::{
    convert_headers_0x_to_1x, convert_headers_1x_to_0x, header_fields_0x, header_fields_1x,
};
use crate::listener::{AcceptAction, AcceptEvent, Failure, Listener};
use crate::message::{
    convert_method_1_to_0, convert_request, convert_response, convert_status_0_to_1,
    convert_uri_1_to_0, local_uri, method_char, method_ok, path_char, path_then_query, query_char,
    uri_text_0x, Request, Response,
};
use crate::service::{CallAction, CallEvent, LegacyTowerServiceAsHyper1Service};
use crate::size_hint::SizeHint;
use crate::version::{convert_version_0_to_1, convert_version_1_to_0, HttpVersion};

verus! {

/// The characters of a token of HTTP.
pub open spec fn token_char(c: char) -> bool {
    ||| 'A' <= c <= 'Z'
    ||| 'a' <= c <= 'z'
    ||| '0' <= c <= '9'
    ||| c == '!' || c == '#' || c == '$' || c == '%' || c == '&' || c == '\''
    ||| c == '*' || c == '+' || c == '-' || c == '.'
    ||| c == '^' || c == '_' || c == '`' || c == '|' || c == '~'
}

/// A token without upper-case letters, in which a double quote may stand too
/// where `quote` says so.
pub open spec fn legal_name(name: Seq<char>, quote: bool) -> bool {
    &&& 1 <= name.len() <= 65535
    &&& forall|i: int|
        0 <= i < name.len() ==> {
            ||| token_char(#[trigger] name[i]) && !('A' <= name[i] <= 'Z')
            ||| quote && name[i] == '"'
        }
}

/// Bytes without control characters other than the tab.
pub open spec fn legal_value(value: Seq<u8>) -> bool {
    forall|i: int| 0 <= i < value.len() ==> #[trigger] value[i] == 9 || 32 <= value[i] <= 126
        || 128 <= value[i] <= 255
}

/// A field with a legal name and legal values.
pub open spec fn legal_field(field: Field, quote: bool) -> bool {
    &&& legal_name(field.0, quote)
    &&& forall|j: int| 0 <= j < field.1.len() ==> legal_value(#[trigger] field.1[j].0)
}

/// Fields that are all legal.
pub open spec fn legal_fields(fields: Fields, quote: bool) -> bool {
    forall|i: int| 0 <= i < fields.len() ==> legal_field(#[trigger] fields[i], quote)
}

/// The first field that is not legal is the one at `i`.
pub open spec fn first_illegal(fields: Fields, quote: bool, i: int) -> bool {
    &&& 0 <= i < fields.len()
    &&& !legal_field(fields[i], quote)
    &&& forall|k: int| 0 <= k < i ==> legal_field(#[trigger] fields[k], quote)
}

/// `after` has the names of `before` in their order, under each name the bytes of
/// the values in their order, and no value marked sensitive.
pub open spec fn carried(before: Fields, after: Fields) -> bool {
    &&& after.len() == before.len()
    &&& forall|i: int|
        0 <= i < before.len() ==> {
            &&& (#[trigger] after[i]).0 == before[i].0
            &&& after[i].1.len() == before[i].1.len()
        }
    &&& forall|i: int, j: int|
        #![trigger after[i].1[j]]
        0 <= i < before.len() && 0 <= j < before[i].1.len() ==> {
            &&& after[i].1[j].0 == before[i].1[j].0
            &&& !after[i].1[j].1
        }
}

/// `error` is the reason why fields as `before` are refused: the name or a value
/// of the first that is not legal, or their number. At most 6553 are never too
/// many.
pub open spec fn refused(before: Fields, quote: bool, error: ConversionError) -> bool {
    ||| {
        &&& error is HeaderName
        &&& exists|i: int| #[trigger]
            first_illegal(before, quote, i) && !legal_name(before[i].0, quote)
    }
    ||| {
        &&& error is HeaderValue
        &&& exists|i: int| #[trigger]
            first_illegal(before, quote, i) && legal_name(before[i].0, quote)
    }
    ||| {
        &&& error is TooManyHeaders
        &&& before.len() > 6553
        &&& forall|i: int| 0 <= i < 6553 ==> legal_field(#[trigger] before[i], quote)
    }
}

/// The text of a method that `http` 0.2 takes: a token without five characters.
pub open spec fn legal_method(text: Seq<char>) -> bool {
    &&& text.len() > 0
    &&& forall|i: int|
        0 <= i < text.len() ==> {
            &&& token_char(#[trigger] text[i])
            &&& text[i] != '#' && text[i] != '$' && text[i] != '%' && text[i] != '&'
            &&& text[i] != '\''
        }
}

spec fn takes_quote(generation: Generation) -> bool {
    generation is Legacy
}

proof fn lemma_name(generation: Generation, name: Seq<char>)
    ensures
        name_ok(generation, name) <==> legal_name(name, takes_quote(generation)),
{
    if legal_name(name, takes_quote(generation)) {
        assert forall|i: int| 0 <= i < name.len() implies name_char(generation, #[trigger] name[i]) by {
            assert((token_char(name[i]) && !('A' <= name[i] <= 'Z')) || name[i] == '"');
        }
    }
    if name_ok(generation, name) {
        assert forall|i: int| 0 <= i < name.len() implies {
            ||| token_char(#[trigger] name[i]) && !('A' <= name[i] <= 'Z')
            ||| takes_quote(generation) && name[i] == '"'
        } by {
            assert(name_char(generation, name[i]));
        }
    }
}

proof fn lemma_value(value: Seq<u8>)
    ensures
        value_ok(value) <==> legal_value(value),
{
}

proof fn lemma_field(generation: Generation, field: Field)
    ensures
        field_ok(generation, field) <==> legal_field(field, takes_quote(generation)),
{
    lemma_name(generation, field.0);
    assert forall|j: int| 0 <= j < field.1.len() implies (value_ok(#[trigger] field.1[j].0)
        <==> legal_value(field.1[j].0)) by {
        lemma_value(field.1[j].0);
    }
}

proof fn lemma_fields(generation: Generation, fields: Fields)
    ensures
        fields_ok(generation, fields) <==> legal_fields(fields, takes_quote(generation)),
        forall|i: int| #[trigger]
            first_bad(generation, fields, i) ==> first_illegal(fields, takes_quote(generation), i),
{
    assert forall|i: int| 0 <= i < fields.len() implies (field_ok(generation, #[trigger] fields[i])
        <==> legal_field(fields[i], takes_quote(generation))) by {
        lemma_field(generation, fields[i]);
    }
}

/// What a conversion of fields comes to.
proof fn lemma_converted(
    generation: Generation,
    before: Fields,
    outcome: Result<Fields, ConversionError>,
)
    requires
        fields_converted(generation, before, outcome),
    ensures
        outcome matches Ok(after) ==> carried(before, after) && legal_fields(
            before,
            takes_quote(generation),
        ),
        outcome matches Err(error) ==> refused(before, takes_quote(generation), error),
        before.len() <= 6553 && legal_fields(before, takes_quote(generation)) ==> outcome is Ok,
{
    lemma_fields(generation, before);
    match outcome {
        Ok(after) => {
            assert forall|i: int, j: int|
                #![trigger after[i].1[j]]
                0 <= i < before.len() && 0 <= j < before[i].1.len() implies after[i].1[j] == (
                before[i].1[j].0,
                false,
            ) by {
                assert(after[i].1 == unmarked_values(before[i].1));
            }
        },
        Err(error) => {
            if error is HeaderName || error is HeaderValue {
                let i = choose|i: int| #[trigger]
                    first_bad(generation, before, i) && (error is HeaderName <==> !name_ok(
                        generation,
                        before[i].0,
                    ));
                lemma_name(generation, before[i].0);
                assert(first_illegal(before, takes_quote(generation), i));
            } else {
                assert forall|i: int| 0 <= i < 6553 implies legal_field(
                    #[trigger] before[i],
                    takes_quote(generation),
                ) by {
                    lemma_field(generation, before[i]);
                }
            }
        },
    }
}

proof fn lemma_method(text: Seq<char>)
    ensures
        method_ok(Generation::Legacy, text) <==> legal_method(text),
{
    if legal_method(text) {
        assert forall|i: int| 0 <= i < text.len() implies method_char(
            Generation::Legacy,
            #[trigger] text[i],
        ) by {
            assert(token_char(text[i]));
        }
    }
    if method_ok(Generation::Legacy, text) {
        assert forall|i: int| 0 <= i < text.len() implies {
            &&& token_char(#[trigger] text[i])
            &&& text[i] != '#' && text[i] != '$' && text[i] != '%' && text[i] != '&'
            &&& text[i] != '\''
        } by {
            assert(method_char(Generation::Legacy, text[i]));
        }
    }
}

/// A version of `http` 1 that both generations speak is kept, there and back. Any
/// other becomes HTTP/1.1 and stays that.
pub proof fn versions_go_there_and_back(version: HttpVersion, there: HttpVersion, back: HttpVersion)
    requires
        call_ensures(convert_version_1_to_0, (version,), there),
        call_ensures(convert_version_0_to_1, (there,), back),
    ensures
        version is Http3 || version is Unknown ==> there is Http11,
        !(version is Http3 || version is Unknown) ==> there == version,
        back == there,
{
}

/// A version of `http` 0.2 that both generations speak is kept, there and back. Any
/// other becomes HTTP/1.1 and stays that.
pub proof fn legacy_versions_go_there_and_back(
    version: HttpVersion,
    there: HttpVersion,
    back: HttpVersion,
)
    requires
        call_ensures(convert_version_0_to_1, (version,), there),
        call_ensures(convert_version_1_to_0, (there,), back),
    ensures
        version is Http3 || version is Unknown ==> there is Http11,
        !(version is Http3 || version is Unknown) ==> there == version,
        back == there,
{
}

/// A method keeps its text, and is refused only where it is no token or has one of
/// the five characters of a token that `http` 0.2 does not take.
pub proof fn methods_keep_their_text(method: &str, outcome: Result<String, ConversionError>)
    requires
        call_ensures(convert_method_1_to_0, (method,), outcome),
    ensures
        outcome is Ok <==> legal_method(method@),
        outcome matches Ok(converted) ==> converted@ == method@,
        outcome matches Err(error) ==> error is Method,
{
    lemma_method(method@);
}

/// A URI becomes what `http` 0.2 writes for it, whatever its form, and is refused
/// only where that crate does not read it.
pub proof fn uris_are_those_of_the_legacy_crate(
    uri: &str,
    outcome: Result<String, ConversionError>,
)
    requires
        call_ensures(convert_uri_1_to_0, (uri,), outcome),
    ensures
        outcome matches Ok(converted) ==> uri_text_0x(uri@) == Some(converted@),
        outcome matches Err(error) ==> uri_text_0x(uri@) is None && error is Uri,
{
}

/// The asterisk keeps its text, and so does an absolute path with or without a
/// query, where the characters of each are those that `http` 0.2 takes and the
/// whole is not too long.
pub proof fn local_uris_keep_their_text(
    uri: &str,
    end: int,
    outcome: Result<String, ConversionError>,
)
    requires
        call_ensures(convert_uri_1_to_0, (uri,), outcome),
        uri@ == seq!['*'] || {
            &&& 0 < end <= uri@.len() <= 65534
            &&& uri@[0] == '/'
            &&& forall|i: int|
                0 <= i < end ==> {
                    ||| 0x24 <= #[trigger] uri@[i] as int <= 0x3b
                    ||| 0x40 <= uri@[i] as int <= 0x5f
                    ||| 0x61 <= uri@[i] as int <= 0x7e
                    ||| uri@[i] == '!' || uri@[i] == '"' || uri@[i] == '='
                }
            &&& end < uri@.len() ==> uri@[end] == '?'
            &&& forall|i: int|
                end < i < uri@.len() ==> {
                    ||| 0x24 <= #[trigger] uri@[i] as int <= 0x3b
                    ||| 0x3f <= uri@[i] as int <= 0x7e
                    ||| uri@[i] == '!' || uri@[i] == '='
                }
        },
    ensures
        outcome matches Ok(converted) && converted@ == uri@,
{
    if uri@ != seq!['*'] {
        assert forall|i: int| 0 <= i < end implies path_char(#[trigger] uri@[i]) by {}
        assert forall|i: int| end < i < uri@.len() implies query_char(#[trigger] uri@[i]) by {}
        assert(path_then_query(uri@, end));
    }
    assert(local_uri(uri@));
}

/// A status code is kept, and a number is refused only where it has not three
/// digits.
pub proof fn status_codes_are_kept(status: u16, outcome: Result<u16, ConversionError>)
    requires
        call_ensures(convert_status_0_to_1, (status,), outcome),
    ensures
        outcome is Ok <==> 100 <= status <= 999,
        outcome matches Ok(converted) ==> converted == status,
        outcome matches Err(error) ==> error is Status,
{
}

/// A header map of `http` 0.2 is carried over whole, and is refused only for a
/// field that is not legal or for having more than 6553 names.
pub proof fn legacy_header_maps_are_carried(
    input: HeaderMap0,
    outcome: Result<HeaderMap1, ConversionError>,
)
    requires
        call_ensures(convert_headers_0x_to_1x, (input,), outcome),
    ensures
        outcome matches Ok(map) ==> carried(header_fields_0x(input), header_fields_1x(map))
            && legal_fields(header_fields_0x(input), false),
        outcome matches Err(error) ==> refused(header_fields_0x(input), false, error),
        header_fields_0x(input).len() <= 6553 && legal_fields(header_fields_0x(input), false)
            ==> outcome is Ok,
{
    lemma_converted(
        Generation::Modern,
        header_fields_0x(input),
        match outcome {
            Ok(map) => Ok(header_fields_1x(map)),
            Err(error) => Err(error),
        },
    );
}

/// A header map of `http` 1 is carried over whole, and is refused only for a field
/// that is not legal or for having more than 6553 names.
pub proof fn modern_header_maps_are_carried(
    input: HeaderMap1,
    outcome: Result<HeaderMap0, ConversionError>,
)
    requires
        call_ensures(convert_headers_1x_to_0x, (input,), outcome),
    ensures
        outcome matches Ok(map) ==> carried(header_fields_1x(input), header_fields_0x(map))
            && legal_fields(header_fields_1x(input), true),
        outcome matches Err(error) ==> refused(header_fields_1x(input), true, error),
        header_fields_1x(input).len() <= 6553 && legal_fields(header_fields_1x(input), true)
            ==> outcome is Ok,
{
    lemma_converted(
        Generation::Legacy,
        header_fields_1x(input),
        match outcome {
            Ok(map) => Ok(header_fields_0x(map)),
            Err(error) => Err(error),
        },
    );
}

/// Every part of the request can stand in `http` 0.2.
pub open spec fn legal_request<B>(req: Request<HeaderMap1, B>) -> bool {
    &&& legal_method(req.method@)
    &&& uri_text_0x(req.uri@) is Some
    &&& legal_fields(header_fields_1x(req.headers), true)
}

/// `error` is the reason why the request is refused: its method, or else its URI,
/// or else its headers.
pub open spec fn request_refused<B>(req: Request<HeaderMap1, B>, error: ConversionError) -> bool {
    if !legal_method(req.method@) {
        error is Method
    } else if uri_text_0x(req.uri@) is None {
        error is Uri
    } else {
        refused(header_fields_1x(req.headers), true, error)
    }
}

/// A request is converted without loss, whatever its version and the form of its
/// URI, and is refused only for a part that cannot stand in `http` 0.2 or for
/// having more than 6553 header names.
pub proof fn requests_are_carried<B>(
    req: Request<HeaderMap1, B>,
    outcome: Result<Request<HeaderMap0, HyperBodyToLegacyStream<B>>, ConversionError>,
)
    requires
        call_ensures(convert_request::<B>, (req,), outcome),
    ensures
        outcome matches Ok(converted) ==> {
            &&& converted.method@ == req.method@
            &&& uri_text_0x(req.uri@) == Some(converted.uri@)
            &&& req.version is Http3 || req.version is Unknown ==> converted.version is Http11
            &&& !(req.version is Http3 || req.version is Unknown) ==> converted.version == req.version
            &&& carried(header_fields_1x(req.headers), header_fields_0x(converted.headers))
            &&& converted.body.body == req.body
            &&& legal_request(req)
        },
        outcome matches Err(error) ==> request_refused(req, error),
        legal_request(req) && header_fields_1x(req.headers).len() <= 6553 ==> outcome is Ok,
{
    lemma_method(req.method@);
    match outcome {
        Ok(converted) => {
            lemma_converted(
                Generation::Legacy,
                header_fields_1x(req.headers),
                Ok(header_fields_0x(converted.headers)),
            );
        },
        Err(error) => {
            if legal_method(req.method@) && uri_text_0x(req.uri@) is Some {
                lemma_converted(Generation::Legacy, header_fields_1x(req.headers), Err(error));
            }
        },
    }
}

/// Every part of the response can stand in hyper 1.
pub open spec fn legal_response<B>(res: Response<HeaderMap0, B>) -> bool {
    &&& 100 <= res.status <= 999
    &&& legal_fields(header_fields_0x(res.headers), false)
}

/// `error` is the reason why the response is refused: its status, or else its
/// headers.
pub open spec fn response_refused<B>(res: Response<HeaderMap0, B>, error: ConversionError) -> bool {
    if !(100 <= res.status <= 999) {
        error is Status
    } else {
        refused(header_fields_0x(res.headers), false, error)
    }
}

/// A response is converted without loss, whatever its status and its version, and
/// is refused only for a part that cannot stand in hyper 1 or for having more than
/// 6553 header names.
pub proof fn responses_are_carried<B>(
    res: Response<HeaderMap0, B>,
    outcome: Result<Response<HeaderMap1, LegacyBodyToHyperBody<B>>, ConversionError>,
)
    requires
        call_ensures(convert_response::<B>, (res,), outcome),
    ensures
        outcome matches Ok(converted) ==> {
            &&& converted.status == res.status
            &&& res.version is Http3 || res.version is Unknown ==> converted.version is Http11
            &&& !(res.version is Http3 || res.version is Unknown) ==> converted.version == res.version
            &&& carried(header_fields_0x(res.headers), header_fields_1x(converted.headers))
            &&& converted.body.body == res.body
            &&& legal_response(res)
        },
        outcome matches Err(error) ==> response_refused(res, error),
        legal_response(res) && header_fields_0x(res.headers).len() <= 6553 ==> outcome is Ok,
{
    match outcome {
        Ok(converted) => {
            lemma_converted(
                Generation::Modern,
                header_fields_0x(res.headers),
                Ok(header_fields_1x(converted.headers)),
            );
        },
        Err(error) => {
            if 100 <= res.status <= 999 {
                lemma_converted(Generation::Modern, header_fields_0x(res.headers), Err(error));
            }
        },
    }
}

/// A call forwards the request that it was called with, without loss. It fails
/// instead only where the request is refused, and never on a legal request with at
/// most 6553 header names.
pub proof fn calls_forward_the_request<S, B, R, E>(
    req: Request<HeaderMap1, B>,
    action: Result<CallAction<B, R, E>, ConversionError>,
)
    requires
        call_ensures(
            LegacyTowerServiceAsHyper1Service::<S>::call::<B, R, E>,
            (CallEvent::Called(req),),
            action,
        ),
    ensures
        match action {
            Ok(CallAction::Forward(forwarded)) => {
                &&& forwarded.method@ == req.method@
                &&& uri_text_0x(req.uri@) == Some(forwarded.uri@)
                &&& req.version is Http3 || req.version is Unknown ==> forwarded.version is Http11
                &&& !(req.version is Http3 || req.version is Unknown) ==> forwarded.version == req.version
                &&& carried(header_fields_1x(req.headers), header_fields_0x(forwarded.headers))
                &&& forwarded.body.body == req.body
                &&& legal_request(req)
            },
            Ok(CallAction::Return(_)) => false,
            Err(error) => request_refused(req, error),
        },
        legal_request(req) && header_fields_1x(req.headers).len() <= 6553 ==> action is Ok,
{
    lemma_method(req.method@);
    match action {
        Ok(CallAction::Forward(forwarded)) => {
            lemma_converted(
                Generation::Legacy,
                header_fields_1x(req.headers),
                Ok(header_fields_0x(forwarded.headers)),
            );
        },
        Ok(CallAction::Return(_)) => {},
        Err(error) => {
            if legal_method(req.method@) && uri_text_0x(req.uri@) is Some {
                lemma_converted(Generation::Legacy, header_fields_1x(req.headers), Err(error));
            }
        },
    }
}

/// A call returns the response that the wrapped service gave, without loss. It
/// fails instead only where the response is refused, and never on a legal response
/// with at most 6553 header names.
pub proof fn calls_return_the_response<S, B, R, E>(
    res: Response<HeaderMap0, R>,
    action: Result<CallAction<B, R, E>, ConversionError>,
)
    requires
        call_ensures(
            LegacyTowerServiceAsHyper1Service::<S>::call::<B, R, E>,
            (CallEvent::Answered(Ok(res)),),
            action,
        ),
    ensures
        match action {
            Ok(CallAction::Return(Ok(returned))) => {
                &&& returned.status == res.status
                &&& res.version is Http3 || res.version is Unknown ==> returned.version is Http11
                &&& !(res.version is Http3 || res.version is Unknown) ==> returned.version == res.version
                &&& carried(header_fields_0x(res.headers), header_fields_1x(returned.headers))
                &&& returned.body.body == res.body
                &&& legal_response(res)
            },
            Ok(_) => false,
            Err(error) => response_refused(res, error),
        },
        legal_response(res) && header_fields_0x(res.headers).len() <= 6553 ==> action is Ok,
{
    match action {
        Ok(CallAction::Return(Ok(returned))) => {
            lemma_converted(
                Generation::Modern,
                header_fields_0x(res.headers),
                Ok(header_fields_1x(returned.headers)),
            );
        },
        Ok(_) => {},
        Err(error) => {
            if 100 <= res.status <= 999 {
                lemma_converted(Generation::Modern, header_fields_0x(res.headers), Err(error));
            }
        },
    }
}

/// A call returns the error of the wrapped service as it is.
pub proof fn calls_return_the_error<S, B, R, E>(
    error: E,
    action: Result<CallAction<B, R, E>, ConversionError>,
)
    requires
        call_ensures(
            LegacyTowerServiceAsHyper1Service::<S>::call::<B, R, E>,
            (CallEvent::Answered(Err(error)),),
            action,
        ),
    ensures
        action matches Ok(CallAction::Return(Err(returned))) && returned == error,
{
}

/// A stream answers with data exactly where a frame had that data, with its error
/// exactly where the body failed, and ends and waits exactly where the body does.
/// It polls again exactly where a frame had no data.
pub proof fn streams_answer_as_their_body<B, D, E>(poll: FramePoll<D, E>, step: StreamStep<D>)
    requires
        call_ensures(HyperBodyToLegacyStream::<B>::poll_next::<D, E>, (poll,), step),
    ensures
        poll matches FramePoll::Data(data) ==> step matches StreamStep::Item(Ok(item)) && item
            == data,
        step matches StreamStep::Item(Ok(item)) ==> poll matches FramePoll::Data(data) && data
            == item,
        step matches StreamStep::Item(Err(_)) <==> poll is Failed,
        step is PollAgain <==> poll is NoData,
        step is End <==> poll is End,
        step is Pending <==> poll is Pending,
{
}

/// The error of a stream is an I/O error of the kind for errors that no other kind
/// fits, and says the same whatever failed.
pub proof fn stream_errors_say_one_thing(
    error: BodyError,
    kind: BodyErrorKind,
    message: &'static str,
)
    requires
        call_ensures(BodyError::kind, (&error,), kind),
        call_ensures(BodyError::message, (&error,), message),
    ensures
        kind is Other,
        message@ == "hyper body error"@,
{
}

/// An adapted body answers with a data frame exactly where the wrapped body gave
/// that data, with an error exactly where it gave that error, and ends and waits
/// exactly where it does. It asks for trailers exactly where the data has ended, and
/// trailers are all that can have no counterpart.
pub proof fn bodies_answer_as_the_wrapped_body<B, D, E>(
    poll: LegacyPoll<D, E>,
    step: Result<FrameStep<D, E>, ConversionError>,
)
    requires
        call_ensures(LegacyBodyToHyperBody::<B>::poll_frame::<D, E>, (poll,), step),
    ensures
        step is Err ==> poll is Trailers,
        step matches Ok(step) ==> {
            &&& poll matches LegacyPoll::Data(data) ==> step matches FrameStep::Frame(
                Ok(Frame::Data(chunk)),
            ) && chunk == data
            &&& step matches FrameStep::Frame(Ok(Frame::Data(_))) ==> poll is Data
            &&& poll matches LegacyPoll::Failed(error) ==> step matches FrameStep::Frame(
                Err(given),
            ) && given == error
            &&& step matches FrameStep::Frame(Err(_)) ==> poll is Failed
            &&& step is PollTrailers <==> poll is DataEnd
            &&& step is End <==> poll is NoTrailers
            &&& step is Pending <==> poll is Pending
        },
{
}

/// Trailers are carried over whole, and are refused only for a field that is not
/// legal or for having more than 6553 names.
pub proof fn trailers_are_carried<B, D, E>(
    trailers: HeaderMap0,
    step: Result<FrameStep<D, E>, ConversionError>,
)
    requires
        call_ensures(
            LegacyBodyToHyperBody::<B>::poll_frame::<D, E>,
            (LegacyPoll::Trailers(trailers),),
            step,
        ),
    ensures
        match step {
            Ok(FrameStep::Frame(Ok(Frame::Trailers(given)))) => carried(
                header_fields_0x(trailers),
                header_fields_1x(given),
            ) && legal_fields(header_fields_0x(trailers), false),
            Ok(_) => false,
            Err(error) => refused(header_fields_0x(trailers), false, error),
        },
        header_fields_0x(trailers).len() <= 6553 && legal_fields(header_fields_0x(trailers), false)
            ==> step is Ok,
{
    match step {
        Ok(FrameStep::Frame(Ok(Frame::Trailers(given)))) => {
            lemma_converted(
                Generation::Modern,
                header_fields_0x(trailers),
                Ok(header_fields_1x(given)),
            );
        },
        Ok(_) => {},
        Err(error) => {
            lemma_converted(Generation::Modern, header_fields_0x(trailers), Err(error));
        },
    }
}

/// A size hint can be made of any two bounds of which the lower is not above the
/// upper, and gives them back as they are.
pub proof fn size_hints_keep_bounds<B>(
    lower: u64,
    upper: Option<u64>,
    hint: SizeHint,
    given_lower: u64,
    given_upper: Option<u64>,
)
    ensures
        (upper matches Some(upper) ==> lower <= upper) ==> call_requires(
            LegacyBodyToHyperBody::<B>::size_hint,
            (lower, upper),
        ),
        call_ensures(LegacyBodyToHyperBody::<B>::size_hint, (lower, upper), hint) ==> {
            &&& call_ensures(SizeHint::lower, (&hint,), given_lower) ==> given_lower == lower
            &&& call_ensures(SizeHint::upper, (&hint,), given_upper) ==> given_upper == upper
        },
{
}

/// A new size hint has the lower bound zero and no upper bound.
pub proof fn new_size_hints_know_nothing(
    hint: SizeHint,
    given_lower: u64,
    given_upper: Option<u64>,
)
    requires
        call_ensures(SizeHint::new, (), hint),
        call_ensures(SizeHint::lower, (&hint,), given_lower),
        call_ensures(SizeHint::upper, (&hint,), given_upper),
    ensures
        given_lower == 0,
        given_upper is None,
{
}

/// After the lower bound is set, it is the one that was set, and the upper bound is
/// what it was.
pub proof fn lower_bounds_are_set(
    hint: &mut SizeHint,
    value: u64,
    after: SizeHint,
    upper_before: Option<u64>,
    lower_after: u64,
    upper_after: Option<u64>,
)
    requires
        call_ensures(SizeHint::upper, (&*old(hint),), upper_before),
        call_ensures(SizeHint::set_lower, (hint, value), ()),
        call_ensures(SizeHint::lower, (&after,), lower_after),
        call_ensures(SizeHint::upper, (&after,), upper_after),
    ensures
        after == *final(hint) ==> lower_after == value && upper_after == upper_before,
{
}

/// After the upper bound is set, it is the one that was set, and the lower bound is
/// what it was.
pub proof fn upper_bounds_are_set(
    hint: &mut SizeHint,
    value: u64,
    after: SizeHint,
    lower_before: u64,
    lower_after: u64,
    upper_after: Option<u64>,
)
    requires
        call_ensures(SizeHint::lower, (&*old(hint),), lower_before),
        call_ensures(SizeHint::set_upper, (hint, value), ()),
        call_ensures(SizeHint::lower, (&after,), lower_after),
        call_ensures(SizeHint::upper, (&after,), upper_after),
    ensures
        after == *final(hint) ==> lower_after == lower_before && upper_after == Some(value),
{
}

/// A new listener has the acceptor that it was made with in force.
pub proof fn new_listeners_use_their_acceptor<T>(tls: T, listener: Listener<T>, given: &T)
    requires
        call_ensures(Listener::<T>::new, (tls,), listener),
        call_ensures(Listener::<T>::acceptor, (&listener,), given),
    ensures
        *given == tls,
{
}

/// An acceptor that is put in place of another is in force.
pub proof fn replaced_acceptors_are_in_force<T>(
    listener: &mut Listener<T>,
    acceptor: T,
    after: Listener<T>,
    given: &T,
)
    requires
        call_ensures(Listener::<T>::replace_acceptor, (listener, acceptor), ()),
        call_ensures(Listener::<T>::acceptor, (&after,), given),
    ensures
        after == *final(listener) ==> *given == acceptor,
{
}

/// An acceptor from the queue comes into force, and is installed. Nothing else that
/// happens in a call changes the acceptor in force.
pub proof fn acceptors_change_through_the_queue<T, C, E>(
    listener: &mut Listener<T>,
    event: AcceptEvent<T, C, E>,
    action: AcceptAction<C, E>,
    after: Listener<T>,
    given_before: &T,
    given_after: &T,
)
    requires
        call_ensures(Listener::<T>::acceptor, (&*old(listener),), given_before),
        call_ensures(Listener::<T>::accept::<C, E>, (listener, event), action),
        call_ensures(Listener::<T>::acceptor, (&after,), given_after),
    ensures
        action is Install <==> event is Queued,
        after == *final(listener) ==> match event {
            AcceptEvent::Queued(queued) => *given_after == queued,
            _ => *given_after == *given_before,
        },
{
}

/// A call returns a connection where one was accepted, and the error where anything
/// failed but the handshake of one peer, which is passed over with its error. It
/// accepts where, and only where, the queue was found empty.
pub proof fn calls_pass_over_failed_peers_only<T, C, E>(
    listener: &mut Listener<T>,
    event: AcceptEvent<T, C, E>,
    action: AcceptAction<C, E>,
)
    requires
        call_ensures(Listener::<T>::accept::<C, E>, (listener, event), action),
    ensures
        action is CheckQueue <==> event is Resume,
        action is Accept <==> event is QueueEmpty,
        event matches AcceptEvent::Finished(Ok(connection)) ==> action matches AcceptAction::Return(
            Ok(given),
        ) && given == connection,
        event matches AcceptEvent::Finished(Err((Failure::TlsAccept, error)))
            ==> action matches AcceptAction::Ignore(ignored) && ignored == error,
        event matches AcceptEvent::Finished(Err((Failure::HandshakeTimeout, error)))
            ==> action matches AcceptAction::Ignore(ignored) && ignored == error,
        event matches AcceptEvent::Finished(Err((Failure::Listener, error)))
            ==> action matches AcceptAction::Return(Err(given)) && given == error,
        event matches AcceptEvent::Finished(Err((Failure::Other, error)))
            ==> action matches AcceptAction::Return(Err(given)) && given == error,
        action is Return || action is Ignore ==> event is Finished,
{
}

} // verus!
