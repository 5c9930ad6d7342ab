use vstd::prelude::*;
use vstd::slice::slice_to_vec;
use crate::connection::{malformed_reply, spec_dispatch, spec_malformed_reply};
use crate::errors::SolutionError;
use crate::primality::{JsonNumber, is_prime, spec_number_is_prime};
use crate::protocol::{Protocol, RequestDelimiter};

verus! {

/// What decoding a JSON object from `line` yields: the string value under
/// `skey` and the numeric value under `nkey` - as its 64-bit truncation and
/// an integrality flag - or nothing if `line` is not a well-formed object
/// holding both fields with those types. The decoding depends on the bytes
/// and the two keys alone.
pub uninterp spec fn spec_json_obj_fields(line: Seq<u8>, skey: Seq<char>, nkey: Seq<char>) -> Option<
    (Seq<char>, i64, bool),
>;

/// The serialization of the JSON object holding the string `sval` under
/// `skey` and the boolean `bval` under `bkey`; it depends on those four
/// values alone. Keys are emitted in their lexicographic order.
pub uninterp spec fn spec_json_two_field_obj(
    skey: Seq<char>,
    sval: Seq<char>,
    bkey: Seq<char>,
    bval: bool,
) -> Seq<u8>;

/// Relies on serde_json: `from_slice` parses the bytes as a JSON value, and
/// `Value::get`, `Value::as_str` and `Value::as_f64` read the two required
/// fields out of it. The numeric field is reduced to the plain values the
/// service reads of it: its truncation toward a 64-bit integer (saturating
/// at the bounds) and whether it had a zero fractional part.
#[verifier::external_body]
fn decode_str_num_object(line: &[u8], skey: &str, nkey: &str) -> (r: Option<(String, i64, bool)>)
    ensures
        r matches Some(f) ==> spec_json_obj_fields(line@, skey@, nkey@) == Some(
            (f.0@, f.1, f.2),
        ),
        r is None ==> spec_json_obj_fields(line@, skey@, nkey@) is None,
{
    let value: serde_json::Value = serde_json::from_slice(line).ok()?;
    let s = value.get(skey)?.as_str()?.to_string();
    let number = value.get(nkey)?.as_f64()?;
    Some((s, number as i64, number.is_finite() && number == number.trunc()))
}

/// Relies on serde_json: `to_vec` serializes a `Value::Object` built from
/// the two given entries. Such a serialization cannot fail: the object's
/// keys are strings. The object is backed by a map ordered by key, so the
/// bytes depend on the four arguments alone.
#[verifier::external_body]
fn encode_str_bool_object(skey: &str, sval: &String, bkey: &str, bval: bool) -> (r: Vec<u8>)
    ensures
        r@ == spec_json_two_field_obj(skey@, sval@, bkey@, bval),
{
    let mut obj = serde_json::Map::new();
    obj.insert(skey.to_string(), serde_json::Value::String(sval.clone()));
    obj.insert(bkey.to_string(), serde_json::Value::Bool(bval));
    serde_json::to_vec(&serde_json::Value::Object(obj)).unwrap()
}

/// The fields a request payload decodes to, if it is a well-formed JSON
/// object with a string `method` and a numeric `number`.
pub open spec fn spec_decoded_request(line: Seq<u8>) -> Option<(Seq<char>, i64, bool)> {
    spec_json_obj_fields(line, "method"@, "number"@)
}

/// A payload conforms exactly when it decodes and its method is `isPrime`.
/// Extra fields are ignored and field order does not matter: both are the
/// decoder's business.
pub open spec fn spec_request_conforming(line: Seq<u8>) -> bool {
    match spec_decoded_request(line) {
        Some(fields) => fields.0 == "isPrime"@,
        None => false,
    }
}

/// The number a conforming payload carries.
pub open spec fn spec_request_number(line: Seq<u8>) -> JsonNumber {
    match spec_decoded_request(line) {
        Some(fields) => JsonNumber { trunc: fields.1, integral: fields.2 },
        None => JsonNumber { trunc: 0, integral: false },
    }
}

/// One primality request: either conforming, with its method string and its
/// number, or malformed. Every payload maps to exactly one of the two.
#[derive(Debug, PartialEq)]
pub enum Request {
    ConformingReq { method: String, number: JsonNumber },
    MalformedReq,
}

/// One primality response: either conforming, with the method string and
/// the verdict, or malformed, which carries nothing.
#[derive(Debug, PartialEq)]
pub enum Response {
    ConformingResp { method: String, prime: bool },
    MalformedResp,
}

impl Request {
    /// Decodes one payload: a well-formed JSON object with a string field
    /// `method` equal to `isPrime` and a numeric field `number` conforms;
    /// anything else is malformed.
    pub fn from_bytes(line: &[u8]) -> (r: Request)
        ensures
            spec_request_conforming(line@) ==> (r matches Request::ConformingReq {
                method,
                number,
            } && method@ == "isPrime"@ && number == spec_request_number(line@)),
            !spec_request_conforming(line@) ==> r == Request::MalformedReq,
    {
        match decode_str_num_object(line, "method", "number") {
            Some((method, trunc, integral)) => {
                let expected: String = "isPrime".to_owned();
                if method == expected {
                    Request::ConformingReq { method, number: JsonNumber { trunc, integral } }
                } else {
                    Request::MalformedReq
                }
            },
            None => Request::MalformedReq,
        }
    }

    /// Answers the request: a conforming one draws a conforming response
    /// echoing its method and carrying the verdict; a malformed one draws
    /// the malformed response.
    pub fn process(self) -> (resp: Response)
        ensures
            (self matches Request::ConformingReq { method, number } ==> resp
                == Response::ConformingResp {
                method,
                prime: spec_number_is_prime(number),
            }),
            self matches Request::MalformedReq ==> resp == Response::MalformedResp,
    {
        match self {
            Request::ConformingReq { method, number } => Response::ConformingResp {
                method,
                prime: is_prime(number),
            },
            Request::MalformedReq => Response::MalformedResp,
        }
    }
}

impl Response {
    /// The exact bytes to write back: the serialized two-field object with
    /// a newline appended, or the fixed malformed reply.
    pub fn into_bytes(self) -> (r: Vec<u8>)
        ensures
            (self matches Response::ConformingResp { method, prime } ==> r@
                == spec_json_two_field_obj("method"@, method@, "prime"@, prime).push(10u8)),
            self matches Response::MalformedResp ==> r@ == spec_malformed_reply(),
    {
        match self {
            Response::ConformingResp { method, prime } => {
                let mut bytes = encode_str_bool_object("method", &method, "prime", prime);
                bytes.push(10);  // newline
                bytes
            },
            Response::MalformedResp => malformed_reply(),
        }
    }
}

/// The primality service: it answers JSON-encoded requests of the shape
/// `{"method":"isPrime","number":<JSON number>}` - field order free, extra
/// fields ignored - with `{"method":"isPrime","prime":<bool>}` and a
/// newline. Any other payload is malformed. It keeps no state across
/// requests.
#[derive(Debug, Default)]
pub struct PrimeTimeServer;

impl Protocol for PrimeTimeServer {
    open spec fn spec_delimiter(&self) -> RequestDelimiter {
        RequestDelimiter::UntilChar(10)
    }

    open spec fn spec_accepts(&self, line: Seq<u8>) -> bool {
        spec_request_conforming(line)
    }

    open spec fn spec_reply(&self, line: Seq<u8>) -> Seq<u8> {
        spec_json_two_field_obj(
            "method"@,
            "isPrime"@,
            "prime"@,
            spec_number_is_prime(spec_request_number(line)),
        ).push(10u8)
    }

    /// Requests are newline-terminated lines.
    fn get_delimiter(&self) -> (d: RequestDelimiter) {
        RequestDelimiter::UntilChar(10)
    }

    /// Decodes the payload, computes the verdict and serializes the
    /// response; a payload that does not conform is signalled with its own
    /// bytes attached.
    fn process_request(&mut self, line: &[u8]) -> (r: Result<Vec<u8>, SolutionError>) {
        match Request::from_bytes(line) {
            Request::MalformedReq => Err(SolutionError::Request(slice_to_vec(line))),
            conforming => {
                let resp = conforming.process();
                Ok(resp.into_bytes())
            },
        }
    }
}

/// A payload that is not a conforming primality request draws exactly the
/// fixed malformed reply, and the connection does not stay open.
pub proof fn lemma_malformed_request_disconnects(h: PrimeTimeServer, line: Seq<u8>)
    requires
        !spec_request_conforming(line),
    ensures
        spec_dispatch(h, line) == (spec_malformed_reply(), false),
{
}

/// A conforming primality request draws the conforming response - the
/// serialized object carrying the `isPrime` method and the verdict on the
/// request's number, newline-terminated - and the connection stays open for
/// the next request.
pub proof fn lemma_conforming_request_answered(h: PrimeTimeServer, line: Seq<u8>)
    requires
        spec_request_conforming(line),
    ensures
        spec_dispatch(h, line) == (spec_json_two_field_obj(
            "method"@,
            "isPrime"@,
            "prime"@,
            spec_number_is_prime(spec_request_number(line)),
        ).push(10u8), true),
{
}

} // verus!
