//! Header maps of the two generations, and the rebuilding of one in the other.

use http::HeaderMap as HeaderMap0;
use hyper::HeaderMap as HeaderMap1;
use vstd::prelude::*;

use crate::error::ConversionError;
use crate::fields::{
    appended, fields_converted, folded_text, has_name, map_shape, name_ok, value_ok, walk, Fields,
    Generation, Step, ROOMY,
};
use crate::fields::{
    checked, first_bad, lemma_next_append, lemma_next_step, lemma_walk_end, next_place, rebuilt,
    walked,
};

verus! {

/// The header map of `http` 0.2.
#[verifier::external_type_specification]
#[verifier::external_body]
#[verifier::reject_recursive_types(T)]
pub struct ExHeaderMap0<T>(http::HeaderMap<T>);

/// The header value of `http` 0.2.
#[verifier::external_type_specification]
#[verifier::external_body]
pub struct ExHeaderValue0(http::header::HeaderValue);

/// The error of `http` 0.2 for a text that is no header name.
#[verifier::external_type_specification]
#[verifier::external_body]
pub struct ExInvalidHeaderName0(http::header::InvalidHeaderName);

/// The error of `http` 0.2 for bytes that are no header value.
#[verifier::external_type_specification]
#[verifier::external_body]
pub struct ExInvalidHeaderValue0(http::header::InvalidHeaderValue);

/// The error of `http` 0.2 for a header map that cannot grow.
#[verifier::external_type_specification]
#[verifier::external_body]
pub struct ExMaxSizeReached0(http::header::MaxSizeReached);

/// What a header map of `http` 0.2 holds: its fields in the order in which the
/// map walks them, each a name with its values, oldest first. A value is its
/// bytes and its "sensitive" mark.
pub uninterp spec fn header_fields_0x(
    map: http::HeaderMap<http::header::HeaderValue>,
) -> Seq<(Seq<char>, Seq<(Seq<u8>, bool)>)>;

/// The header map of `http` 1.
#[verifier::external_type_specification]
#[verifier::external_body]
#[verifier::reject_recursive_types(T)]
pub struct ExHeaderMap1<T>(hyper::HeaderMap<T>);

/// The header value of `http` 1.
#[verifier::external_type_specification]
#[verifier::external_body]
pub struct ExHeaderValue1(hyper::header::HeaderValue);

/// The error of `http` 1 for a text that is no header name.
#[verifier::external_type_specification]
#[verifier::external_body]
pub struct ExInvalidHeaderName1(hyper::header::InvalidHeaderName);

/// The error of `http` 1 for bytes that are no header value.
#[verifier::external_type_specification]
#[verifier::external_body]
pub struct ExInvalidHeaderValue1(hyper::header::InvalidHeaderValue);

/// The error of `http` 1 for a header map that cannot grow.
#[verifier::external_type_specification]
#[verifier::external_body]
pub struct ExMaxSizeReached1(hyper::header::MaxSizeReached);

/// What a header map of `http` 1 holds: its fields in the order in which the
/// map walks them, each a name with its values, oldest first. A value is its
/// bytes and its "sensitive" mark.
pub uninterp spec fn header_fields_1x(
    map: hyper::HeaderMap<hyper::header::HeaderValue>,
) -> Seq<(Seq<char>, Seq<(Seq<u8>, bool)>)>;

/// The items that a walk hands out, as mathematical values.
pub open spec fn steps_of(items: Seq<(Option<String>, Vec<u8>)>) -> Seq<Step> {
    items.map_values(
        |item: (Option<String>, Vec<u8>)|
            (
                match item.0 {
                    Some(name) => Some(name@),
                    None => None,
                },
                item.1@,
            ),
    )
}

/// `items` is the walk over a header map that holds `fields`.
pub open spec fn walk_of(items: Seq<(Option<String>, Vec<u8>)>, fields: Fields) -> bool {
    &&& map_shape(fields)
    &&& steps_of(items) == walk(fields)
}

/// `HeaderMap::new` of `http` 0.2: a map that holds nothing.
#[verifier::external_body]
fn new_map_0x() -> (map: HeaderMap0)
    ensures
        header_fields_0x(map) == Seq::<(Seq<char>, Seq<(Seq<u8>, bool)>)>::empty(),
{
    HeaderMap0::new()
}

/// `HeaderMap::into_iter` of `http` 0.2, with each name and each value taken as
/// text and bytes: the fields in order, the values of a field in order, and the
/// name with the first value of a field only. Names are in lower case and occur
/// once, and no field is without a value.
#[verifier::external_body]
fn walk_map_0x(map: HeaderMap0) -> (items: Vec<(Option<String>, Vec<u8>)>)
    ensures
        walk_of(items@, header_fields_0x(map)),
{
    map.into_iter()
        .map(|(name, value)| (name.map(|name| name.as_str().to_owned()), value.as_bytes().to_vec()))
        .collect()
}

/// `HeaderName::from_bytes` of `http` 0.2, with the name taken as text: it folds
/// upper-case letters and takes what then is a header name of that crate.
#[verifier::external_body]
fn header_name_0x(text: &str) -> (name: Result<String, http::header::InvalidHeaderName>)
    ensures
        name is Ok <==> name_ok(Generation::Legacy, folded_text(text@)),
        name matches Ok(name) ==> name@ == folded_text(text@),
{
    http::header::HeaderName::from_bytes(text.as_bytes()).map(|name| name.as_str().to_owned())
}

/// `HeaderValue::from_bytes` of `http` 0.2, with the value taken as bytes: it
/// takes every byte but the control characters, and of those the tab.
#[verifier::external_body]
fn header_value_0x(bytes: &[u8]) -> (value: Result<Vec<u8>, http::header::InvalidHeaderValue>)
    ensures
        value is Ok <==> value_ok(bytes@),
        value matches Ok(value) ==> value@ == bytes@,
{
    http::header::HeaderValue::from_bytes(bytes).map(|value| value.as_bytes().to_vec())
}

/// `HeaderMap::try_append` of `http` 0.2, on a name and a value that the crate
/// takes: it adds the value behind those that the name has, or a new field at the
/// end, and tells whether the name was there. It may refuse, and then changes
/// nothing, but not while the map has at most `ROOMY` names. Beyond that number
/// the answer depends on how the names hash, and nothing is said of it.
#[verifier::external_body]
fn append_0x(
    map: &mut HeaderMap0,
    name: &str,
    value: &[u8],
) -> (known: Result<bool, http::header::MaxSizeReached>)
    requires
        name_ok(Generation::Legacy, name@),
        value_ok(value@),
    ensures
        known matches Ok(known) ==> known == has_name(header_fields_0x(*old(map)), name@)
            && appended(header_fields_0x(*old(map)), header_fields_0x(*final(map)), name@, value@),
        known is Err ==> header_fields_0x(*old(map)).len() > ROOMY
            && header_fields_0x(*final(map)) == header_fields_0x(*old(map)),
{
    let name = http::header::HeaderName::from_bytes(name.as_bytes()).expect("a header name");
    let value = http::header::HeaderValue::from_bytes(value).expect("a header value");
    map.try_append(name, value)
}

/// `HeaderMap::new` of `http` 1: a map that holds nothing.
#[verifier::external_body]
fn new_map_1x() -> (map: HeaderMap1)
    ensures
        header_fields_1x(map) == Seq::<(Seq<char>, Seq<(Seq<u8>, bool)>)>::empty(),
{
    HeaderMap1::new()
}

/// `HeaderMap::into_iter` of `http` 1, with each name and each value taken as
/// text and bytes: the fields in order, the values of a field in order, and the
/// name with the first value of a field only. Names are in lower case and occur
/// once, and no field is without a value.
#[verifier::external_body]
fn walk_map_1x(map: HeaderMap1) -> (items: Vec<(Option<String>, Vec<u8>)>)
    ensures
        walk_of(items@, header_fields_1x(map)),
{
    map.into_iter()
        .map(|(name, value)| (name.map(|name| name.as_str().to_owned()), value.as_bytes().to_vec()))
        .collect()
}

/// `HeaderName::from_bytes` of `http` 1, with the name taken as text: it folds
/// upper-case letters and takes what then is a header name of that crate.
#[verifier::external_body]
fn header_name_1x(text: &str) -> (name: Result<String, hyper::header::InvalidHeaderName>)
    ensures
        name is Ok <==> name_ok(Generation::Modern, folded_text(text@)),
        name matches Ok(name) ==> name@ == folded_text(text@),
{
    hyper::header::HeaderName::from_bytes(text.as_bytes()).map(|name| name.as_str().to_owned())
}

/// `HeaderValue::from_bytes` of `http` 1, with the value taken as bytes: it
/// takes every byte but the control characters, and of those the tab.
#[verifier::external_body]
fn header_value_1x(bytes: &[u8]) -> (value: Result<Vec<u8>, hyper::header::InvalidHeaderValue>)
    ensures
        value is Ok <==> value_ok(bytes@),
        value matches Ok(value) ==> value@ == bytes@,
{
    hyper::header::HeaderValue::from_bytes(bytes).map(|value| value.as_bytes().to_vec())
}

/// `HeaderMap::try_append` of `http` 1, on a name and a value that the crate
/// takes: it adds the value behind those that the name has, or a new field at the
/// end, and tells whether the name was there. It may refuse, and then changes
/// nothing, but not while the map has at most `ROOMY` names. Beyond that number
/// the answer depends on how the names hash, and nothing is said of it.
#[verifier::external_body]
fn append_1x(
    map: &mut HeaderMap1,
    name: &str,
    value: &[u8],
) -> (known: Result<bool, hyper::header::MaxSizeReached>)
    requires
        name_ok(Generation::Modern, name@),
        value_ok(value@),
    ensures
        known matches Ok(known) ==> known == has_name(header_fields_1x(*old(map)), name@)
            && appended(header_fields_1x(*old(map)), header_fields_1x(*final(map)), name@, value@),
        known is Err ==> header_fields_1x(*old(map)).len() > ROOMY
            && header_fields_1x(*final(map)) == header_fields_1x(*old(map)),
{
    let name = hyper::header::HeaderName::from_bytes(name.as_bytes()).expect("a header name");
    let value = hyper::header::HeaderValue::from_bytes(value).expect("a header value");
    map.try_append(name, value)
}

/// Rebuilds a header map of `http` 0.2 as one of `http` 1. A name with a double
/// quote in it is a header name of the former only.
pub fn convert_headers_0x_to_1x(input: HeaderMap0) -> (output: Result<HeaderMap1, ConversionError>)
    ensures
        fields_converted(
            Generation::Modern,
            header_fields_0x(input),
            match output {
                Ok(map) => Ok(header_fields_1x(map)),
                Err(error) => Err(error),
            },
        ),
{
    let ghost fields = header_fields_0x(input);
    let mut map = new_map_1x();
    let mut last_name: Option<String> = None;
    let items = walk_map_0x(input);
    let ghost mut i: int = 0;
    let ghost mut j: int = 0;
    let mut k: usize = 0;
    while k < items.len()
        invariant
            k <= items.len(),
            fields == header_fields_0x(input),
            walk_of(items@, fields),
            walked(fields, k as int, i, j),
            checked(Generation::Modern, fields, i, j),
            header_fields_1x(map) == rebuilt(fields, i, j),
            j > 0 ==> last_name is Some && last_name->0@ == fields[i].0,
        decreases items.len() - k,
    {
        let ghost (ni, nj) = next_place(fields, i, j);
        proof {
            lemma_next_step(Generation::Modern, fields, k as int, i, j);
            assert(steps_of(items@)[k as int] == walk(fields)[k as int]);
        }
        let item = &items[k];
        let name: String = match &item.0 {
            Some(name) => name.clone(),
            None => match &last_name {
                Some(name) => name.clone(),
                None => unreached(),
            },
        };
        assert(name@ == fields[ni].0);
        let target_name = match header_name_1x(name.as_str()) {
            Ok(target_name) => target_name,
            Err(_) => {
                assert(first_bad(Generation::Modern, fields, ni));
                return Err(ConversionError::HeaderName);
            },
        };
        let target_value = match header_value_1x(item.1.as_slice()) {
            Ok(target_value) => target_value,
            Err(_) => {
                assert(first_bad(Generation::Modern, fields, ni));
                return Err(ConversionError::HeaderValue);
            },
        };
        if append_1x(&mut map, target_name.as_str(), target_value.as_slice()).is_err() {
            return Err(ConversionError::TooManyHeaders);
        }
        last_name = Some(name);
        k += 1;
        proof {
            lemma_next_append(fields, i, j, header_fields_1x(map));
            i = ni;
            j = nj;
        }
    }
    proof {
        lemma_walk_end(Generation::Modern, fields, k as int, i, j);
    }
    Ok(map)
}

/// Rebuilds a header map of `http` 1 as one of `http` 0.2.
pub fn convert_headers_1x_to_0x(input: HeaderMap1) -> (output: Result<HeaderMap0, ConversionError>)
    ensures
        fields_converted(
            Generation::Legacy,
            header_fields_1x(input),
            match output {
                Ok(map) => Ok(header_fields_0x(map)),
                Err(error) => Err(error),
            },
        ),
{
    let ghost fields = header_fields_1x(input);
    let mut map = new_map_0x();
    let mut last_name: Option<String> = None;
    let items = walk_map_1x(input);
    let ghost mut i: int = 0;
    let ghost mut j: int = 0;
    let mut k: usize = 0;
    while k < items.len()
        invariant
            k <= items.len(),
            fields == header_fields_1x(input),
            walk_of(items@, fields),
            walked(fields, k as int, i, j),
            checked(Generation::Legacy, fields, i, j),
            header_fields_0x(map) == rebuilt(fields, i, j),
            j > 0 ==> last_name is Some && last_name->0@ == fields[i].0,
        decreases items.len() - k,
    {
        let ghost (ni, nj) = next_place(fields, i, j);
        proof {
            lemma_next_step(Generation::Legacy, fields, k as int, i, j);
            assert(steps_of(items@)[k as int] == walk(fields)[k as int]);
        }
        let item = &items[k];
        let name: String = match &item.0 {
            Some(name) => name.clone(),
            None => match &last_name {
                Some(name) => name.clone(),
                None => unreached(),
            },
        };
        assert(name@ == fields[ni].0);
        let target_name = match header_name_0x(name.as_str()) {
            Ok(target_name) => target_name,
            Err(_) => {
                assert(first_bad(Generation::Legacy, fields, ni));
                return Err(ConversionError::HeaderName);
            },
        };
        let target_value = match header_value_0x(item.1.as_slice()) {
            Ok(target_value) => target_value,
            Err(_) => {
                assert(first_bad(Generation::Legacy, fields, ni));
                return Err(ConversionError::HeaderValue);
            },
        };
        if append_0x(&mut map, target_name.as_str(), target_value.as_slice()).is_err() {
            return Err(ConversionError::TooManyHeaders);
        }
        last_name = Some(name);
        k += 1;
        proof {
            lemma_next_append(fields, i, j, header_fields_0x(map));
            i = ni;
            j = nj;
        }
    }
    proof {
        lemma_walk_end(Generation::Legacy, fields, k as int, i, j);
    }
    Ok(map)
}

} // verus!
