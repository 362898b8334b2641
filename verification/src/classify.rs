//! The response classifier.
//!
//! Given the parts of a completed HTTP response — the numeric status
//! code, the content-type header bytes and the body text — the
//! classifier produces exactly one of three outcomes: a typed success
//! payload, a client fault carrying the HTTP status, or a server-side
//! application fault carrying the API's structured error.
//!
//! Two quirks of the upstream API are reproduced deliberately:
//! a response whose content type mentions HTML is an authentication
//! redirect and is classified as a 401 client fault whatever its status
//! says, and a structurally successful response whose body carries a
//! message under `reason` (or the legacy `error` name) is an
//! application-level fault, which is also how the API reports an empty
//! result set.

use vstd::prelude::*;

use crate::entities::Membership;
use crate::entities::Page;
use crate::entities::Purchase;
use crate::entities::Support;
use crate::entities::decode_membership;
use crate::entities::decode_membership_page;
use crate::entities::decode_purchase;
use crate::entities::decode_purchase_page;
use crate::entities::decode_support;
use crate::entities::decode_support_page;
use crate::entities::membership_decoder;
use crate::entities::purchase_decoder;
use crate::entities::spec_page_decodable;
use crate::entities::spec_page_matches;
use crate::entities::support_decoder;
use crate::json::JsonValue;
use crate::json::opt_u16_field;
use crate::json::parse_json_text;
use crate::json::spec_opt_u16_field;
use crate::json::spec_parse_json;
use crate::json::spec_str_field;
use crate::json::str_field;

verus! {

/// The API's structured error body: an optional numeric code and a
/// human-readable reason.
#[derive(Debug, Clone, PartialEq, Eq)]
pub struct ServerError {
    pub error_code: Option<u16>,
    pub reason: String,
}

impl ServerError {
    /// The human-readable form of the fault: the numeric code, when one
    /// is present, followed by a space and the reason.
    pub fn message(&self) -> (r: String)
        ensures
            match self.error_code {
                Some(c) => r@ == crate::digits::spec_decimal(c as nat) + " "@ + self.reason@,
                None => r@ == self.reason@,
            },
    {
        match &self.error_code {
            Some(c) => {
                let mut s = crate::digits::u32_decimal(*c as u32);
                s.append(" ");
                s.append(self.reason.as_str());
                s
            },
            None => self.reason.clone(),
        }
    }
}

/// The three failure kinds a request can end in.
///
/// `Decode` stands for a body that is malformed JSON or matches neither
/// the error shape nor the target shape; `Client` carries an HTTP 4xx
/// status (including the 401 synthesized from the HTML redirect
/// workaround); `Server` carries the API's structured error.
#[derive(Debug, Clone, PartialEq, Eq)]
pub enum Error {
    Decode,
    Client(u16),
    Server(ServerError),
}

/// What the status line, the headers and the raw body alone determine:
/// either a fault, or a parsed JSON payload still to be decoded into a
/// target type.
#[derive(Debug)]
pub enum Classified {
    Faulted(Error),
    Payload(JsonValue),
}

/// The lowest HTTP status of the client-error class.
pub const CLIENT_ERROR_MIN: u16 = 400;

/// The highest HTTP status of the client-error class.
pub const CLIENT_ERROR_MAX: u16 = 499;

/// The status synthesized when the API redirects to its HTML login page.
pub const UNAUTHORIZED: u16 = 401;

/// The four bytes whose presence in a content-type header marks an HTML
/// document.
pub open spec fn html_marker() -> Seq<u8> {
    seq!['h' as u8, 't' as u8, 'm' as u8, 'l' as u8]
}

/// Whether the marker occurs anywhere in the header bytes.
pub open spec fn spec_contains_html(b: Seq<u8>) -> bool {
    exists|i: int| 0 <= i && i + 4 <= b.len() && #[trigger] b.subrange(i, i + 4) == html_marker()
}

/// Whether a content-type header (absent on some responses) indicates an
/// HTML document.
pub open spec fn spec_is_html(ct: Option<Seq<u8>>) -> bool {
    match ct {
        Some(b) => spec_contains_html(b),
        None => false,
    }
}

/// The view of an optional header value.
pub open spec fn opt_bytes_view(ct: Option<&[u8]>) -> Option<Seq<u8>> {
    match ct {
        Some(b) => Some(b@),
        None => None,
    }
}

/// Decides whether the marker occurs in the header bytes.
pub fn contains_html(b: &[u8]) -> (r: bool)
    ensures
        r == spec_contains_html(b@),
{
    let n = b.len();
    if n < 4 {
        return false;
    }
    let mut i: usize = 0;
    while i <= n - 4
        invariant
            4 <= n,
            n == b@.len(),
            i <= n - 3,
            forall|j: int| 0 <= j && j < i ==> #[trigger] b@.subrange(j, j + 4) != html_marker(),
        decreases n - i,
    {
        if b[i] == 'h' as u8 && b[i + 1] == 't' as u8 && b[i + 2] == 'm' as u8 && b[i + 3]
            == 'l' as u8 {
            proof {
                assert(b@.subrange(i as int, i as int + 4) =~= html_marker());
            }
            return true;
        }
        proof {
            let s = b@.subrange(i as int, i as int + 4);
            assert(s[0] == b@[i as int]);
            assert(s[1] == b@[i as int + 1]);
            assert(s[2] == b@[i as int + 2]);
            assert(s[3] == b@[i as int + 3]);
            assert(s != html_marker());
        }
        i += 1;
    }
    proof {
        assert(!spec_contains_html(b@));
    }
    false
}

/// The structured error an object's fields denote, if a message-like
/// string field is present: `reason` is preferred, the legacy `error`
/// name is accepted in its place, and a numeric `error_code` may
/// accompany either but must be a `u16` when present.
pub open spec fn spec_error_body_fields(o: Seq<(String, JsonValue)>) -> Option<ServerError> {
    let msg = if spec_str_field(o, "reason"@) is Some {
        spec_str_field(o, "reason"@)
    } else {
        spec_str_field(o, "error"@)
    };
    let code = spec_opt_u16_field(o, "error_code"@);
    match (msg, code) {
        (Some(m), Some(c)) => Some(ServerError { error_code: c, reason: m }),
        _ => None,
    }
}

/// The structured error a JSON body denotes, if it has the error shape.
pub open spec fn spec_error_body(v: JsonValue) -> Option<ServerError> {
    match v {
        JsonValue::Obj(o) => spec_error_body_fields(o@),
        _ => None,
    }
}

/// Matches a parsed body against the error shape.
pub fn error_body(v: &JsonValue) -> (r: Option<ServerError>)
    ensures
        r == spec_error_body(*v),
{
    let o = match v {
        JsonValue::Obj(o) => o,
        _ => { return None; },
    };
    let reason = match str_field(o, "reason") {
        Some(m) => m,
        None => match str_field(o, "error") {
            Some(m) => m,
            None => { return None; },
        },
    };
    let error_code = match opt_u16_field(o, "error_code") {
        Some(c) => c,
        None => { return None; },
    };
    Some(ServerError { error_code, reason })
}

/// What the classifier makes of a response before any target decoding:
/// an HTML content type is the login redirect and means an unauthorized
/// client fault whatever the status; any other 4xx response is a client
/// fault carrying its own status; otherwise the body must parse as JSON,
/// and a body of the error shape is a server fault.  What is left is a
/// payload for the target decoder.
pub open spec fn spec_classify_body(
    status: u16,
    ct: Option<Seq<u8>>,
    parsed: Option<JsonValue>,
) -> Classified {
    if spec_is_html(ct) {
        Classified::Faulted(Error::Client(UNAUTHORIZED))
    } else if CLIENT_ERROR_MIN <= status && status <= CLIENT_ERROR_MAX {
        Classified::Faulted(Error::Client(status))
    } else {
        match parsed {
            None => Classified::Faulted(Error::Decode),
            Some(v) => match spec_error_body(v) {
                Some(e) => Classified::Faulted(Error::Server(e)),
                None => Classified::Payload(v),
            },
        }
    }
}

/// The outcome of a request against a target decoder `d`: a fault is
/// passed through, and a payload either decodes into the target type or
/// ends in a decode error.
pub open spec fn spec_outcome<T>(
    status: u16,
    ct: Option<Seq<u8>>,
    parsed: Option<JsonValue>,
    d: spec_fn(JsonValue) -> Option<T>,
) -> Result<T, Error> {
    match spec_classify_body(status, ct, parsed) {
        Classified::Faulted(e) => Err(e),
        Classified::Payload(v) => match d(v) {
            Some(t) => Ok(t),
            None => Err(Error::Decode),
        },
    }
}

/// Classifies a response up to, but not including, target decoding.
pub fn classify_body(status: u16, content_type: Option<&[u8]>, body: &str) -> (r: Classified)
    ensures
        r == spec_classify_body(status, opt_bytes_view(content_type), spec_parse_json(body@)),
{
    if let Some(ct) = content_type {
        if contains_html(ct) {
            return Classified::Faulted(Error::Client(UNAUTHORIZED));
        }
    }
    if CLIENT_ERROR_MIN <= status && status <= CLIENT_ERROR_MAX {
        return Classified::Faulted(Error::Client(status));
    }
    match parse_json_text(body) {
        None => Classified::Faulted(Error::Decode),
        Some(v) => match error_body(&v) {
            Some(e) => Classified::Faulted(Error::Server(e)),
            None => Classified::Payload(v),
        },
    }
}

/// Classifies a response carrying a single membership record.
pub fn classify_membership(status: u16, content_type: Option<&[u8]>, body: &str) -> (r: Result<
    Membership,
    Error,
>)
    ensures
        r == spec_outcome(
            status,
            opt_bytes_view(content_type),
            spec_parse_json(body@),
            membership_decoder(),
        ),
{
    match classify_body(status, content_type, body) {
        Classified::Faulted(e) => Err(e),
        Classified::Payload(v) => match decode_membership(&v) {
            Some(t) => Ok(t),
            None => Err(Error::Decode),
        },
    }
}

/// Classifies a response carrying a single support record.
pub fn classify_support(status: u16, content_type: Option<&[u8]>, body: &str) -> (r: Result<
    Support,
    Error,
>)
    ensures
        r == spec_outcome(
            status,
            opt_bytes_view(content_type),
            spec_parse_json(body@),
            support_decoder(),
        ),
{
    match classify_body(status, content_type, body) {
        Classified::Faulted(e) => Err(e),
        Classified::Payload(v) => match decode_support(&v) {
            Some(t) => Ok(t),
            None => Err(Error::Decode),
        },
    }
}

/// Classifies a response carrying a single purchase record.
pub fn classify_purchase(status: u16, content_type: Option<&[u8]>, body: &str) -> (r: Result<
    Purchase,
    Error,
>)
    ensures
        r == spec_outcome(
            status,
            opt_bytes_view(content_type),
            spec_parse_json(body@),
            purchase_decoder(),
        ),
{
    match classify_body(status, content_type, body) {
        Classified::Faulted(e) => Err(e),
        Classified::Payload(v) => match decode_purchase(&v) {
            Some(t) => Ok(t),
            None => Err(Error::Decode),
        },
    }
}

/// Classifies a response carrying a page of membership records.
pub fn classify_membership_page(status: u16, content_type: Option<&[u8]>, body: &str) -> (r:
    Result<Page<Membership>, Error>)
    ensures
        ({
            let cls = spec_classify_body(
                status,
                opt_bytes_view(content_type),
                spec_parse_json(body@),
            );
            match r {
                Ok(p) => {
                    &&& cls matches Classified::Payload(v)
                    &&& spec_page_decodable(v, membership_decoder())
                    &&& spec_page_matches(v, membership_decoder(), p)
                },
                Err(e) => match cls {
                    Classified::Faulted(e2) => e == e2,
                    Classified::Payload(v) => e == Error::Decode && !spec_page_decodable(
                        v,
                        membership_decoder(),
                    ),
                },
            }
        }),
{
    match classify_body(status, content_type, body) {
        Classified::Faulted(e) => Err(e),
        Classified::Payload(v) => match decode_membership_page(&v) {
            Some(t) => Ok(t),
            None => Err(Error::Decode),
        },
    }
}

/// Classifies a response carrying a page of support records.
pub fn classify_support_page(status: u16, content_type: Option<&[u8]>, body: &str) -> (r: Result<
    Page<Support>,
    Error,
>)
    ensures
        ({
            let cls = spec_classify_body(
                status,
                opt_bytes_view(content_type),
                spec_parse_json(body@),
            );
            match r {
                Ok(p) => {
                    &&& cls matches Classified::Payload(v)
                    &&& spec_page_decodable(v, support_decoder())
                    &&& spec_page_matches(v, support_decoder(), p)
                },
                Err(e) => match cls {
                    Classified::Faulted(e2) => e == e2,
                    Classified::Payload(v) => e == Error::Decode && !spec_page_decodable(
                        v,
                        support_decoder(),
                    ),
                },
            }
        }),
{
    match classify_body(status, content_type, body) {
        Classified::Faulted(e) => Err(e),
        Classified::Payload(v) => match decode_support_page(&v) {
            Some(t) => Ok(t),
            None => Err(Error::Decode),
        },
    }
}

/// Classifies a response carrying a page of purchase records.
pub fn classify_purchase_page(status: u16, content_type: Option<&[u8]>, body: &str) -> (r: Result<
    Page<Purchase>,
    Error,
>)
    ensures
        ({
            let cls = spec_classify_body(
                status,
                opt_bytes_view(content_type),
                spec_parse_json(body@),
            );
            match r {
                Ok(p) => {
                    &&& cls matches Classified::Payload(v)
                    &&& spec_page_decodable(v, purchase_decoder())
                    &&& spec_page_matches(v, purchase_decoder(), p)
                },
                Err(e) => match cls {
                    Classified::Faulted(e2) => e == e2,
                    Classified::Payload(v) => e == Error::Decode && !spec_page_decodable(
                        v,
                        purchase_decoder(),
                    ),
                },
            }
        }),
{
    match classify_body(status, content_type, body) {
        Classified::Faulted(e) => Err(e),
        Classified::Payload(v) => match decode_purchase_page(&v) {
            Some(t) => Ok(t),
            None => Err(Error::Decode),
        },
    }
}

/// A 4xx response not disguised as HTML is classified as a client fault
/// carrying exactly its own status code, whatever the body holds.
pub proof fn lemma_client_fault_keeps_status(
    status: u16,
    ct: Option<Seq<u8>>,
    parsed: Option<JsonValue>,
)
    requires
        CLIENT_ERROR_MIN <= status <= CLIENT_ERROR_MAX,
        !spec_is_html(ct),
    ensures
        spec_classify_body(status, ct, parsed) == Classified::Faulted(Error::Client(status)),
{
}

/// A response whose content type indicates HTML is classified as a 401
/// client fault regardless of its actual status code and body.
pub proof fn lemma_html_means_unauthorized(
    status: u16,
    ct: Option<Seq<u8>>,
    parsed: Option<JsonValue>,
)
    requires
        spec_is_html(ct),
    ensures
        spec_classify_body(status, ct, parsed) == Classified::Faulted(Error::Client(UNAUTHORIZED)),
{
}

/// Outside the HTML and 4xx cases, a body of the error shape is
/// classified as a server fault carrying exactly that structured error.
pub proof fn lemma_error_body_means_server_fault(
    status: u16,
    ct: Option<Seq<u8>>,
    v: JsonValue,
)
    requires
        !spec_is_html(ct),
        !(CLIENT_ERROR_MIN <= status <= CLIENT_ERROR_MAX),
        spec_error_body(v) is Some,
    ensures
        spec_classify_body(status, ct, Some(v)) == Classified::Faulted(
            Error::Server(spec_error_body(v).unwrap()),
        ),
{
}

/// The server fault built from an object carries the message of its
/// `reason` field — or, failing that, of its legacy `error` field — as
/// the reason, and carries a numeric code exactly when an `error_code`
/// field is present.
pub proof fn lemma_server_fault_fields(o: Seq<(String, JsonValue)>)
    requires
        spec_opt_u16_field(o, "error_code"@) is Some,
    ensures
        spec_str_field(o, "reason"@) matches Some(m) ==> spec_error_body_fields(o) == Some(
            ServerError {
                error_code: spec_opt_u16_field(o, "error_code"@).unwrap(),
                reason: m,
            },
        ),
        (spec_str_field(o, "reason"@) is None && spec_str_field(o, "error"@) is Some)
            ==> spec_error_body_fields(o) == Some(
            ServerError {
                error_code: spec_opt_u16_field(o, "error_code"@).unwrap(),
                reason: spec_str_field(o, "error"@).unwrap(),
            },
        ),
        crate::json::obj_get(o, "error_code"@) is None ==> (spec_error_body_fields(o) matches Some(
            e,
        ) ==> e.error_code is None),
{
}

/// Outside the fault cases, a body that decodes under the target decoder
/// is a success carrying exactly the decoded record.
pub proof fn lemma_success_carries_decoded<T>(
    status: u16,
    ct: Option<Seq<u8>>,
    v: JsonValue,
    d: spec_fn(JsonValue) -> Option<T>,
)
    requires
        !spec_is_html(ct),
        !(CLIENT_ERROR_MIN <= status <= CLIENT_ERROR_MAX),
        spec_error_body(v) is None,
        d(v) is Some,
    ensures
        spec_outcome(status, ct, Some(v), d) == Ok::<T, Error>(d(v).unwrap()),
{
}

/// Classification is stateless: it is a function of the response alone,
/// so two identical read-only requests are classified alike.
pub proof fn lemma_classification_deterministic<T>(
    status1: u16,
    ct1: Option<Seq<u8>>,
    parsed1: Option<JsonValue>,
    status2: u16,
    ct2: Option<Seq<u8>>,
    parsed2: Option<JsonValue>,
    d: spec_fn(JsonValue) -> Option<T>,
)
    requires
        status1 == status2,
        ct1 == ct2,
        parsed1 == parsed2,
    ensures
        spec_outcome(status1, ct1, parsed1, d) == spec_outcome(status2, ct2, parsed2, d),
{
}

} // verus!
