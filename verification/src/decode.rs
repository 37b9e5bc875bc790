//! Decoding of response bodies into the typed observation model.
//!
//! JSON parsing itself is consumed as a black box from serde_json; the
//! schema walk from the parsed value to `ObservationResponse` is this
//! module's own logic. `observations` must be present, an array, and each
//! element must carry `date` and `value` as strings; every metadata field is
//! optional, but where present it must have the documented type. Any other
//! shape is a decoding failure that yields no partial value.

use vstd::prelude::*;
use crate::error::ClientError;
use crate::response::Observation;
use crate::response::ObservationModel;
use crate::response::ObservationResponse;
use crate::response::ResponseModel;
use crate::response::observation_views;

verus! {

#[verifier::external_type_specification]
#[verifier::external_body]
pub struct ExValue(serde_json::Value);

/// What serde_json::from_str returns for a text: the parsed value, or
/// nothing when the text is not a well-formed JSON document.
pub uninterp spec fn parsed_json(s: Seq<char>) -> Option<serde_json::Value>;

/// What serde_json::Value::get returns: the member of a JSON object under a
/// key, or nothing when the value is no object or has no such member.
pub uninterp spec fn json_field(v: serde_json::Value, key: Seq<char>) -> Option<serde_json::Value>;

/// What serde_json::Value::as_str returns: the characters of a JSON string,
/// or nothing when the value is no string.
pub uninterp spec fn json_string(v: serde_json::Value) -> Option<Seq<char>>;

/// What serde_json::Value::as_u64 returns: the value of a JSON number
/// representable as an unsigned 64-bit integer, or nothing otherwise.
pub uninterp spec fn json_uint(v: serde_json::Value) -> Option<u64>;

/// What serde_json::Value::as_array returns: the elements of a JSON array
/// in order, or nothing when the value is no array.
pub uninterp spec fn json_items(v: serde_json::Value) -> Option<Seq<serde_json::Value>>;

/// Relies on serde_json::from_str: parses the text as one JSON document or
/// fails; the outcome is a function of the text alone.
#[verifier::external_body]
fn parse_json(body: &str) -> (r: Result<serde_json::Value, String>)
    ensures
        match r {
            Ok(v) => parsed_json(body@) == Some(v),
            Err(_) => parsed_json(body@) is None,
        },
{
    match serde_json::from_str::<serde_json::Value>(body) {
        Ok(v) => Ok(v),
        Err(e) => Err(e.to_string()),
    }
}

/// Relies on serde_json::Value::get: the member of a JSON object selected
/// by a string key; None when the value is not an object or the key is
/// absent.
#[verifier::external_body]
fn value_field<'a>(v: &'a serde_json::Value, key: &str) -> (r: Option<&'a serde_json::Value>)
    ensures
        match r {
            Some(f) => json_field(*v, key@) == Some(*f),
            None => json_field(*v, key@) is None,
        },
{
    v.get(key)
}

/// Relies on serde_json::Value::as_str: the content of a JSON string; None
/// when the value is not a string.
#[verifier::external_body]
fn value_string(v: &serde_json::Value) -> (r: Option<String>)
    ensures
        match r {
            Some(s) => json_string(*v) == Some(s@),
            None => json_string(*v) is None,
        },
{
    match v.as_str() {
        Some(s) => Some(s.to_owned()),
        None => None,
    }
}

/// Relies on serde_json::Value::as_u64: the value of a JSON number when it
/// is an unsigned 64-bit integer; None otherwise.
#[verifier::external_body]
fn value_uint(v: &serde_json::Value) -> (r: Option<u64>)
    ensures
        r == json_uint(*v),
{
    v.as_u64()
}

/// Relies on serde_json::Value::as_array: the elements of a JSON array;
/// None when the value is not an array.
#[verifier::external_body]
fn value_items<'a>(v: &'a serde_json::Value) -> (r: Option<&'a Vec<serde_json::Value>>)
    ensures
        match r {
            Some(items) => json_items(*v) == Some(items@),
            None => json_items(*v) is None,
        },
{
    v.as_array()
}

/// An optional string member of an object: `Some(None)` when absent,
/// `Some(Some(s))` when present as a string, `None` when present with any
/// other type (a malformed payload).
pub open spec fn spec_opt_string_member(v: serde_json::Value, key: Seq<char>) -> Option<
    Option<Seq<char>>,
> {
    match json_field(v, key) {
        None => Some(None),
        Some(f) => match json_string(f) {
            Some(s) => Some(Some(s)),
            None => None,
        },
    }
}

/// An optional unsigned-integer member of an object, like
/// `spec_opt_string_member`.
pub open spec fn spec_opt_uint_member(v: serde_json::Value, key: Seq<char>) -> Option<Option<u64>> {
    match json_field(v, key) {
        None => Some(None),
        Some(f) => match json_uint(f) {
            Some(n) => Some(Some(n)),
            None => None,
        },
    }
}

/// How one element of the observations array decodes: `date` and `value`
/// must be present as strings, the vintage metadata may be absent; any
/// other shape fails.
pub open spec fn spec_observation(v: serde_json::Value) -> Option<ObservationModel> {
    match (json_field(v, "date"@), json_field(v, "value"@)) {
        (Some(d), Some(w)) => match (
            json_string(d),
            json_string(w),
            spec_opt_string_member(v, "realtime_start"@),
            spec_opt_string_member(v, "realtime_end"@),
        ) {
            (Some(ds), Some(ws), Some(rs), Some(re)) => Some(
                ObservationModel { realtime_start: rs, realtime_end: re, date: ds, value: ws },
            ),
            _ => None,
        },
        _ => None,
    }
}

/// How a whole observations array decodes: every element in order, or
/// nothing as soon as one element is malformed.
pub open spec fn spec_observation_seq(items: Seq<serde_json::Value>) -> Option<
    Seq<ObservationModel>,
>
    decreases items.len(),
{
    if items.len() == 0 {
        Some(Seq::empty())
    } else {
        match (spec_observation_seq(items.drop_last()), spec_observation(items.last())) {
            (Some(rest), Some(o)) => Some(rest.push(o)),
            _ => None,
        }
    }
}

/// Whether every metadata member of the envelope that is present has its
/// documented type.
pub open spec fn spec_metadata_ok(v: serde_json::Value) -> bool {
    &&& spec_opt_string_member(v, "realtime_start"@) is Some
    &&& spec_opt_string_member(v, "realtime_end"@) is Some
    &&& spec_opt_string_member(v, "observation_start"@) is Some
    &&& spec_opt_string_member(v, "observation_end"@) is Some
    &&& spec_opt_string_member(v, "units"@) is Some
    &&& spec_opt_uint_member(v, "output_type"@) is Some
    &&& spec_opt_string_member(v, "file_type"@) is Some
    &&& spec_opt_string_member(v, "order_by"@) is Some
    &&& spec_opt_string_member(v, "sort_order"@) is Some
    &&& spec_opt_uint_member(v, "count"@) is Some
    &&& spec_opt_uint_member(v, "offset"@) is Some
    &&& spec_opt_uint_member(v, "limit"@) is Some
}

/// How a parsed payload decodes into the response model: an `observations`
/// array of well-formed elements and well-typed metadata, or nothing.
pub open spec fn spec_response(v: serde_json::Value) -> Option<ResponseModel> {
    match json_field(v, "observations"@) {
        None => None,
        Some(arr) => match json_items(arr) {
            None => None,
            Some(items) => match spec_observation_seq(items) {
                None => None,
                Some(obs) => if spec_metadata_ok(v) {
                    Some(
                        ResponseModel {
                            realtime_start: spec_opt_string_member(v, "realtime_start"@)->0,
                            realtime_end: spec_opt_string_member(v, "realtime_end"@)->0,
                            observation_start: spec_opt_string_member(v, "observation_start"@)->0,
                            observation_end: spec_opt_string_member(v, "observation_end"@)->0,
                            units: spec_opt_string_member(v, "units"@)->0,
                            output_type: spec_opt_uint_member(v, "output_type"@)->0,
                            file_type: spec_opt_string_member(v, "file_type"@)->0,
                            order_by: spec_opt_string_member(v, "order_by"@)->0,
                            sort_order: spec_opt_string_member(v, "sort_order"@)->0,
                            count: spec_opt_uint_member(v, "count"@)->0,
                            offset: spec_opt_uint_member(v, "offset"@)->0,
                            limit: spec_opt_uint_member(v, "limit"@)->0,
                            observations: obs,
                        },
                    )
                } else {
                    None
                },
            },
        },
    }
}

/// Reads an optional string member of an object; `Err` means the member is
/// present with a type other than string.
fn opt_string_member(v: &serde_json::Value, key: &str) -> (r: Result<Option<String>, ()>)
    ensures
        match r {
            Ok(o) => spec_opt_string_member(*v, key@) == Some(
                match o {
                    Some(s) => Some(s@),
                    None => None::<Seq<char>>,
                },
            ),
            Err(_) => spec_opt_string_member(*v, key@) is None,
        },
{
    match value_field(v, key) {
        None => Ok(None),
        Some(f) => match value_string(f) {
            Some(s) => Ok(Some(s)),
            None => Err(()),
        },
    }
}

/// Reads an optional unsigned-integer member of an object; `Err` means the
/// member is present with another type.
fn opt_uint_member(v: &serde_json::Value, key: &str) -> (r: Result<Option<u64>, ()>)
    ensures
        match r {
            Ok(o) => spec_opt_uint_member(*v, key@) == Some(o),
            Err(_) => spec_opt_uint_member(*v, key@) is None,
        },
{
    match value_field(v, key) {
        None => Ok(None),
        Some(f) => match value_uint(f) {
            Some(n) => Ok(Some(n)),
            None => Err(()),
        },
    }
}

/// Decodes one element of the observations array.
fn decode_observation(v: &serde_json::Value) -> (r: Option<Observation>)
    ensures
        match r {
            Some(o) => spec_observation(*v) == Some(o@),
            None => spec_observation(*v) is None,
        },
{
    let date_member = match value_field(v, "date") {
        Some(d) => d,
        None => {
            return None;
        },
    };
    let value_member = match value_field(v, "value") {
        Some(w) => w,
        None => {
            return None;
        },
    };
    let date = match value_string(date_member) {
        Some(s) => s,
        None => {
            return None;
        },
    };
    let value = match value_string(value_member) {
        Some(s) => s,
        None => {
            return None;
        },
    };
    let realtime_start = match opt_string_member(v, "realtime_start") {
        Ok(o) => o,
        Err(_) => {
            return None;
        },
    };
    let realtime_end = match opt_string_member(v, "realtime_end") {
        Ok(o) => o,
        Err(_) => {
            return None;
        },
    };
    let o = Observation { realtime_start, realtime_end, date, value };
    proof {
        assert(spec_observation(*v) matches Some(m) && m =~= o@);
    }
    Some(o)
}

/// If one element of an array is malformed, the whole array fails to
/// decode.
proof fn lemma_observation_seq_fails(items: Seq<serde_json::Value>, i: int)
    requires
        0 <= i < items.len(),
        spec_observation(items[i]) is None,
    ensures
        spec_observation_seq(items) is None,
    decreases items.len(),
{
    if i < items.len() - 1 {
        lemma_observation_seq_fails(items.drop_last(), i);
    }
}

/// Decodes the observations array.
fn decode_observations(items: &Vec<serde_json::Value>) -> (r: Option<Vec<Observation>>)
    ensures
        match r {
            Some(obs) => spec_observation_seq(items@) == Some(observation_views(obs@)),
            None => spec_observation_seq(items@) is None,
        },
{
    let mut obs: Vec<Observation> = Vec::new();
    let n = items.len();
    let mut i: usize = 0;
    proof {
        assert(items@.take(0) =~= Seq::<serde_json::Value>::empty());
        assert(observation_views(obs@) =~= Seq::<ObservationModel>::empty());
    }
    while i < n
        invariant
            i <= n,
            n == items@.len(),
            spec_observation_seq(items@.take(i as int)) == Some(observation_views(obs@)),
        decreases n - i,
    {
        let item = &items[i];
        match decode_observation(item) {
            Some(o) => {
                obs.push(o);
                proof {
                    assert(items@.take(i as int + 1).drop_last() =~= items@.take(i as int));
                    assert(items@.take(i as int + 1).last() == items@[i as int]);
                    assert(observation_views(obs@) =~= observation_views(
                        obs@.drop_last(),
                    ).push(o@));
                }
            },
            None => {
                proof {
                    lemma_observation_seq_fails(items@, i as int);
                }
                return None;
            },
        }
        i = i + 1;
    }
    proof {
        assert(items@.take(n as int) =~= items@);
    }
    Some(obs)
}

/// Decodes a response body into the typed observation response.
///
/// Returns the decoded envelope exactly when the body is well-formed JSON
/// whose shape `spec_response` accepts; any other body yields a
/// `DecodeError` and no partial value.
pub fn decode_observation_response(body: &str) -> (r: Result<ObservationResponse, ClientError>)
    ensures
        match r {
            Ok(resp) => parsed_json(body@) matches Some(v) && spec_response(v) == Some(resp@),
            Err(e) => {
                &&& e is DecodeError
                &&& parsed_json(body@) matches Some(v) ==> spec_response(v) is None
            },
        },
{
    let v = match parse_json(body) {
        Ok(v) => v,
        Err(cause) => {
            return Err(ClientError::DecodeError(cause));
        },
    };
    let obs_member = match value_field(&v, "observations") {
        Some(a) => a,
        None => {
            return Err(ClientError::DecodeError("missing observations member".to_owned()));
        },
    };
    let items = match value_items(obs_member) {
        Some(i) => i,
        None => {
            return Err(ClientError::DecodeError("observations is not an array".to_owned()));
        },
    };
    let observations = match decode_observations(items) {
        Some(o) => o,
        None => {
            return Err(ClientError::DecodeError("malformed observation".to_owned()));
        },
    };
    let realtime_start = match opt_string_member(&v, "realtime_start") {
        Ok(o) => o,
        Err(_) => {
            return Err(ClientError::DecodeError("malformed realtime_start".to_owned()));
        },
    };
    let realtime_end = match opt_string_member(&v, "realtime_end") {
        Ok(o) => o,
        Err(_) => {
            return Err(ClientError::DecodeError("malformed realtime_end".to_owned()));
        },
    };
    let observation_start = match opt_string_member(&v, "observation_start") {
        Ok(o) => o,
        Err(_) => {
            return Err(ClientError::DecodeError("malformed observation_start".to_owned()));
        },
    };
    let observation_end = match opt_string_member(&v, "observation_end") {
        Ok(o) => o,
        Err(_) => {
            return Err(ClientError::DecodeError("malformed observation_end".to_owned()));
        },
    };
    let units = match opt_string_member(&v, "units") {
        Ok(o) => o,
        Err(_) => {
            return Err(ClientError::DecodeError("malformed units".to_owned()));
        },
    };
    let output_type = match opt_uint_member(&v, "output_type") {
        Ok(o) => o,
        Err(_) => {
            return Err(ClientError::DecodeError("malformed output_type".to_owned()));
        },
    };
    let file_type = match opt_string_member(&v, "file_type") {
        Ok(o) => o,
        Err(_) => {
            return Err(ClientError::DecodeError("malformed file_type".to_owned()));
        },
    };
    let order_by = match opt_string_member(&v, "order_by") {
        Ok(o) => o,
        Err(_) => {
            return Err(ClientError::DecodeError("malformed order_by".to_owned()));
        },
    };
    let sort_order = match opt_string_member(&v, "sort_order") {
        Ok(o) => o,
        Err(_) => {
            return Err(ClientError::DecodeError("malformed sort_order".to_owned()));
        },
    };
    let count = match opt_uint_member(&v, "count") {
        Ok(o) => o,
        Err(_) => {
            return Err(ClientError::DecodeError("malformed count".to_owned()));
        },
    };
    let offset = match opt_uint_member(&v, "offset") {
        Ok(o) => o,
        Err(_) => {
            return Err(ClientError::DecodeError("malformed offset".to_owned()));
        },
    };
    let limit = match opt_uint_member(&v, "limit") {
        Ok(o) => o,
        Err(_) => {
            return Err(ClientError::DecodeError("malformed limit".to_owned()));
        },
    };
    let resp = ObservationResponse {
        realtime_start,
        realtime_end,
        observation_start,
        observation_end,
        units,
        output_type,
        file_type,
        order_by,
        sort_order,
        count,
        offset,
        limit,
        observations,
    };
    proof {
        assert(spec_response(v) matches Some(m) && m =~= resp@);
    }
    Ok(resp)
}

} // verus!
