//! The fetcher's core: build a bounded outbound GET request, and normalize
//! the transport's outcome — success with a response, or failure with an
//! error code and message — into one uniform `PageResult` shape.

use vstd::prelude::*;
use vstd::string::StringExecFns;
use vstd::utf8::decode_utf8;
use vstd::utf8::valid_utf8;
use crate::page::HeaderModel;
use crate::page::HttpHeader;
use crate::page::PageModel;
use crate::page::PageResult;

verus! {

/// The HTTP method of an outbound request. The fetcher only ever produces
/// `Get`; the other variants exist so that the request shape matches what
/// the transport accepts.
#[derive(Clone, Copy, PartialEq, Eq, Structural, Debug)]
pub enum HttpMethod {
    Get,
    Post,
    Head,
}

/// The bounded outbound request handed to the transport: a GET for the
/// given URL, with no headers and no body, capped at `max_response_bytes`,
/// carrying the flat resource budget the call spends.
pub struct FetchRequest {
    pub url: String,
    pub method: HttpMethod,
    pub headers: Vec<HttpHeader>,
    pub body: Option<Vec<u8>>,
    pub max_response_bytes: u64,
    pub resource_budget: u128,
}

/// Cap on the response size carried by every request: the fetcher never
/// issues an unbounded fetch.
pub const MAX_RESPONSE_BYTES: u64 = 2_000_000;

/// Flat resource cost attached to every outbound call, spent whatever the
/// outcome. A constant sized for the worst-case payload, not recomputed
/// per call.
pub const RESOURCE_BUDGET: u128 = 30_000_000_000;

/// Sentinel status reported to the caller when the transport itself failed.
pub const FAILURE_STATUS: u128 = 500;

/// Builds the one request shape the fetcher ever submits: method GET, no
/// headers, no body, the fixed response-size cap and the fixed budget.
/// The URL is passed through unvalidated; a malformed URL is the
/// transport's to reject.
pub fn build_request(url: String) -> (r: FetchRequest)
    ensures
        r.url@ == url@,
        r.method is Get,
        r.headers@.len() == 0,
        r.body is None,
        r.max_response_bytes == MAX_RESPONSE_BYTES,
        r.resource_budget == RESOURCE_BUDGET,
{
    FetchRequest {
        url,
        method: HttpMethod::Get,
        headers: Vec::new(),
        body: None,
        max_response_bytes: MAX_RESPONSE_BYTES,
        resource_budget: RESOURCE_BUDGET,
    }
}

/// What the transport reports back from one outbound call: a response with
/// a status, headers and raw body bytes, or a failure with an error code
/// name and a message.
pub enum TransportOutcome {
    Success { status: u128, headers: Vec<HttpHeader>, body: Vec<u8> },
    Failure { code: String, message: String },
}

/// Mathematical model of a transport outcome.
#[verifier::ext_equal]
pub ghost enum OutcomeModel {
    Success { status: int, headers: Seq<HeaderModel>, body: Seq<u8> },
    Failure { code: Seq<char>, message: Seq<char> },
}

impl View for TransportOutcome {
    type V = OutcomeModel;

    open spec fn view(&self) -> OutcomeModel {
        match self {
            TransportOutcome::Success { status, headers, body } => OutcomeModel::Success {
                status: *status as int,
                headers: headers@.map_values(|h: HttpHeader| h@),
                body: body@,
            },
            TransportOutcome::Failure { code, message } => OutcomeModel::Failure {
                code: code@,
                message: message@,
            },
        }
    }
}

/// The text that lossy UTF-8 decoding yields for the given bytes.
pub uninterp spec fn utf8_lossy(bytes: Seq<u8>) -> Seq<char>;

/// Relies on `String::from_utf8_lossy`: decodes the bytes as UTF-8, leaves
/// valid UTF-8 unchanged, and substitutes replacement characters for
/// invalid sequences instead of failing.
#[verifier::external_body]
fn decode_body(bytes: &Vec<u8>) -> (r: String)
    ensures
        r@ == utf8_lossy(bytes@),
        valid_utf8(bytes@) ==> r@ == decode_utf8(bytes@),
        bytes@.len() == 0 ==> r@.len() == 0,
{
    String::from_utf8_lossy(bytes.as_slice()).into_owned()
}

/// The uniform result that normalization assigns to a transport outcome:
/// a success passes status and headers through and decodes the body
/// leniently; a failure is flattened to the sentinel status, one synthetic
/// diagnostic header naming the error code, and a body embedding both the
/// code and the message.
pub open spec fn normalized_of(o: OutcomeModel) -> PageModel {
    match o {
        OutcomeModel::Success { status, headers, body } => PageModel {
            status: status,
            headers: headers,
            body: utf8_lossy(body),
        },
        OutcomeModel::Failure { code, message } => PageModel {
            status: FAILURE_STATUS as int,
            headers: seq![HeaderModel { name: "IC-Error"@, value: code }],
            body: "error: "@ + code + ": "@ + message,
        },
    }
}

/// Turns the transport's outcome into the uniform result shape. Never
/// fails: every outcome, success or failure, becomes an ordinary
/// `PageResult` value.
pub fn normalize_outcome(outcome: TransportOutcome) -> (r: PageResult)
    ensures
        r@ == normalized_of(outcome@),
{
    match outcome {
        TransportOutcome::Success { status, headers, body } => {
            let text = decode_body(&body);
            let r = PageResult { status, headers, body: text };
            proof {
                assert(r@.headers =~= normalized_of(outcome@).headers);
            }
            r
        },
        TransportOutcome::Failure { code, message } => {
            let body = String::from_str("error: ").concat(code.as_str()).concat(": ").concat(
                message.as_str(),
            );
            let mut headers: Vec<HttpHeader> = Vec::new();
            headers.push(HttpHeader { name: String::from_str("IC-Error"), value: code });
            let r = PageResult { status: FAILURE_STATUS, headers, body };
            proof {
                assert(r@.headers =~= normalized_of(outcome@).headers);
                assert(r@.body =~= normalized_of(outcome@).body);
            }
            r
        },
    }
}

/// Law: normalization is deterministic. Two normalizations of the same
/// transport outcome yield the same result, so normalizing an outcome
/// twice agrees with normalizing it once: the result carries no hidden
/// randomness or timestamps.
pub proof fn lemma_normalization_deterministic(o: OutcomeModel, r1: PageModel, r2: PageModel)
    requires
        r1 == normalized_of(o),
        r2 == normalized_of(o),
    ensures
        r1 == r2,
{
}

} // verus!
