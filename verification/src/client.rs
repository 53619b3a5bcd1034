//! The response side of the client: the error taxonomy, and the envelope
//! decoding that turns a raw response body into a typed record or a typed
//! error.
//!
//! The envelope is an untagged union, distinguished by shape: the success
//! schema is tried first, and only on a structural mismatch the error schema
//! — never the reverse.

use vstd::prelude::*;

use crate::json::{spec_get, JsonValue, SpecJson};
use crate::json_parse::parse_json;
use crate::models::SmmoModel;
use crate::strings::str_eq;

verus! {

/// The mathematical view of an [`ApiErrorType`].
#[verifier::ext_equal]
pub enum ApiErrorTypeView {
    ItemNotFound,
    Unauthenticated,
    Unrecognized(Seq<char>),
}

/// A domain-level error reported by the upstream API, recognised from its
/// error string.  An unrecognised string is preserved rather than refused.
#[derive(Debug, Clone)]
pub enum ApiErrorType {
    /// The API reported that the item was not found.
    ItemNotFound,
    /// The API reported that the api key is not valid.
    Unauthenticated,
    /// The API reported an error string this library does not know; the
    /// original string is kept for diagnostics.
    Unrecognized(String),
}

impl View for ApiErrorType {
    type V = ApiErrorTypeView;

    open spec fn view(&self) -> ApiErrorTypeView {
        match self {
            ApiErrorType::ItemNotFound => ApiErrorTypeView::ItemNotFound,
            ApiErrorType::Unauthenticated => ApiErrorTypeView::Unauthenticated,
            ApiErrorType::Unrecognized(s) => ApiErrorTypeView::Unrecognized(s@),
        }
    }
}

/// The error a wire string names: the two recognised strings, matched
/// case-sensitively, and the fallback that keeps the string.
pub open spec fn spec_api_error_from_wire(msg: Seq<char>) -> ApiErrorTypeView {
    if msg == "item not found"@ {
        ApiErrorTypeView::ItemNotFound
    } else if msg == "unauthenticated"@ {
        ApiErrorTypeView::Unauthenticated
    } else {
        ApiErrorTypeView::Unrecognized(msg)
    }
}

impl ApiErrorType {
    /// Decodes an upstream error string; never fails.
    pub fn from_wire(s: &str) -> (r: ApiErrorType)
        ensures
            r@ == spec_api_error_from_wire(s@),
    {
        if str_eq(s, "item not found") {
            ApiErrorType::ItemNotFound
        } else if str_eq(s, "unauthenticated") {
            ApiErrorType::Unauthenticated
        } else {
            ApiErrorType::Unrecognized(s.to_owned())
        }
    }
}

impl PartialEq for ApiErrorType {
    /// Structural equality; unrecognised errors compare by their strings.
    fn eq(&self, other: &ApiErrorType) -> (r: bool) {
        let r = match (self, other) {
            (ApiErrorType::ItemNotFound, ApiErrorType::ItemNotFound) => true,
            (ApiErrorType::Unauthenticated, ApiErrorType::Unauthenticated) => true,
            (ApiErrorType::Unrecognized(a), ApiErrorType::Unrecognized(b)) => str_eq(
                a.as_str(),
                b.as_str(),
            ),
            _ => false,
        };
        proof {
            if r {
                assert(self@ =~= other@);
            }
            if self@ == other@ {
                assert(r);
            }
        }
        r
    }
}

impl vstd::std_specs::cmp::PartialEqSpecImpl for ApiErrorType {
    open spec fn obeys_eq_spec() -> bool {
        true
    }

    /// Two errors are equal exactly when their views agree.
    open spec fn eq_spec(&self, other: &ApiErrorType) -> bool {
        self@ == other@
    }
}

/// The mathematical view of a [`SmmoError`].
#[verifier::ext_equal]
pub enum SmmoErrorView {
    ApiError { error: ApiErrorTypeView },
    TransportError { message: Seq<char> },
    BodyReadError { message: Seq<char> },
    JsonDecodeError { raw_body: Seq<char>, url: Seq<char>, expected_type: Seq<char> },
    InternalError,
}

/// Everything a client call can fail with.
#[derive(Debug, Clone)]
pub enum SmmoError {
    /// The upstream API explicitly reported a domain-level error; a
    /// recognised, expected outcome for callers to branch on.
    ApiError { error: ApiErrorType },
    /// The HTTP call itself failed (DNS, connection, TLS); not retried by
    /// this layer.
    TransportError { message: String },
    /// A response arrived but its body could not be read; a
    /// transport-class failure.
    BodyReadError { message: String },
    /// The body matched neither the success nor the error schema; the raw
    /// text and the request URL are kept for offline diagnosis.
    JsonDecodeError { raw_body: String, url: String, expected_type: &'static str },
    /// A state that should be unreachable; reaching it is a logic bug, not
    /// an outcome of untrusted input.
    InternalError,
}

impl View for SmmoError {
    type V = SmmoErrorView;

    open spec fn view(&self) -> SmmoErrorView {
        match self {
            SmmoError::ApiError { error } => SmmoErrorView::ApiError { error: error@ },
            SmmoError::TransportError { message } => SmmoErrorView::TransportError {
                message: message@,
            },
            SmmoError::BodyReadError { message } => SmmoErrorView::BodyReadError {
                message: message@,
            },
            SmmoError::JsonDecodeError { raw_body, url, expected_type } => {
                SmmoErrorView::JsonDecodeError {
                    raw_body: raw_body@,
                    url: url@,
                    expected_type: expected_type@,
                }
            },
            SmmoError::InternalError => SmmoErrorView::InternalError,
        }
    }
}

/// The human-readable form of an error, with enough context to diagnose
/// upstream drift without re-running the request.
pub open spec fn spec_error_display(e: SmmoErrorView) -> Seq<char> {
    match e {
        SmmoErrorView::ApiError { error } => match error {
            ApiErrorTypeView::ItemNotFound => "Item not found."@,
            ApiErrorTypeView::Unauthenticated =>
                "Authentication error with the SMMO api. Check the api key."@,
            ApiErrorTypeView::Unrecognized(msg) => "Unrecognised error from the SMMO api: "@
                + msg,
        },
        SmmoErrorView::TransportError { message } => "Error with the SMMO api: ```"@ + message
            + "```"@,
        SmmoErrorView::BodyReadError { message } => "Could not read the response body: ```"@
            + message + "```"@,
        SmmoErrorView::JsonDecodeError { raw_body, url, expected_type } => {
            "JSON decode error.\nURL: `"@ + url + "`\nJSON received from the api: ```"@ + raw_body
                + "```\nExpected type: "@ + expected_type + "\n"@
        },
        SmmoErrorView::InternalError => "Something went wrong! Check the logs!"@,
    }
}

impl SmmoError {
    /// The human-readable form of the error.
    pub fn display_string(&self) -> (r: String)
        ensures
            r@ == spec_error_display(self@),
    {
        match self {
            SmmoError::ApiError { error } => match error {
                ApiErrorType::ItemNotFound => String::from_str("Item not found."),
                ApiErrorType::Unauthenticated => String::from_str(
                    "Authentication error with the SMMO api. Check the api key.",
                ),
                ApiErrorType::Unrecognized(msg) => {
                    let mut out = String::from_str("Unrecognised error from the SMMO api: ");
                    out.append(msg.as_str());
                    out
                },
            },
            SmmoError::TransportError { message } => {
                let mut out = String::from_str("Error with the SMMO api: ```");
                out.append(message.as_str());
                out.append("```");
                out
            },
            SmmoError::BodyReadError { message } => {
                let mut out = String::from_str("Could not read the response body: ```");
                out.append(message.as_str());
                out.append("```");
                out
            },
            SmmoError::JsonDecodeError { raw_body, url, expected_type } => {
                let mut out = String::from_str("JSON decode error.\nURL: `");
                out.append(url.as_str());
                out.append("`\nJSON received from the api: ```");
                out.append(raw_body.as_str());
                out.append("```\nExpected type: ");
                out.append(expected_type);
                out.append("\n");
                out
            },
            SmmoError::InternalError => String::from_str("Something went wrong! Check the logs!"),
        }
    }
}

/// What every endpoint call resolves to: the decoded record, or a typed
/// error.
pub type SmmoResult<T> = Result<T, SmmoError>;

/// The error shape of the envelope: an object with an `error` string.
pub open spec fn spec_error_shape(j: SpecJson) -> Option<Seq<char>> {
    match spec_get(j, "error"@) {
        Some(SpecJson::Str(s)) => Some(s),
        _ => None,
    }
}

/// Decodes a parsed response document through the envelope: the success
/// schema is tried first; on a structural mismatch the error schema; if
/// both fail, a decode error carrying the raw body and the request URL.
pub fn decode_envelope<T: SmmoModel>(v: &JsonValue, body: &str, url: &str) -> (r: Result<
    T,
    SmmoError,
>)
    ensures
        match r {
            Ok(m) => T::spec_from_json(v@) == Some(m@),
            Err(e) => T::spec_from_json(v@) is None && match e@ {
                SmmoErrorView::ApiError { error } => spec_error_shape(v@) is Some && error
                    == spec_api_error_from_wire(spec_error_shape(v@)->0),
                SmmoErrorView::JsonDecodeError { raw_body, url: u, expected_type } => {
                    &&& spec_error_shape(v@) is None
                    &&& raw_body == body@
                    &&& u == url@
                    &&& expected_type == T::spec_type_label()
                },
                _ => false,
            },
        },
{
    match T::from_json(v) {
        Ok(m) => Ok(m),
        Err(e) => match v.get("error") {
            Some(f) => match f {
                JsonValue::Str(msg) => Err(
                    SmmoError::ApiError { error: ApiErrorType::from_wire(msg.as_str()) },
                ),
                _ => Err(
                    SmmoError::JsonDecodeError {
                        raw_body: body.to_owned(),
                        url: url.to_owned(),
                        expected_type: T::type_label(),
                    },
                ),
            },
            None => Err(
                SmmoError::JsonDecodeError {
                    raw_body: body.to_owned(),
                    url: url.to_owned(),
                    expected_type: T::type_label(),
                },
            ),
        },
    }
}

/// Decodes a raw response body: parses it as JSON and decodes through the
/// envelope.  A body that is not well-formed JSON yields a decode error
/// that carries the raw text and the request URL — never a crash.
pub fn decode_response<T: SmmoModel>(body: &str, url: &str) -> (r: Result<T, SmmoError>)
    ensures
        match crate::json_parse::spec_parse_json(body@) {
            None => (match r {
                Err(e) => match e@ {
                    SmmoErrorView::JsonDecodeError { raw_body, url: u, expected_type } => {
                        &&& raw_body == body@
                        &&& u == url@
                        &&& expected_type == T::spec_type_label()
                    },
                    _ => false,
                },
                Ok(m) => false,
            }),
            Some(j) => (match r {
                Ok(m) => T::spec_from_json(j) == Some(m@),
                Err(e) => T::spec_from_json(j) is None && match e@ {
                    SmmoErrorView::ApiError { error } => spec_error_shape(j) is Some && error
                        == spec_api_error_from_wire(spec_error_shape(j)->0),
                    SmmoErrorView::JsonDecodeError { raw_body, url: u, expected_type } => {
                        &&& spec_error_shape(j) is None
                        &&& raw_body == body@
                        &&& u == url@
                        &&& expected_type == T::spec_type_label()
                    },
                    _ => false,
                },
            }),
        },
{
    match parse_json(body) {
        Some(v) => decode_envelope::<T>(&v, body, url),
        None => Err(
            SmmoError::JsonDecodeError {
                raw_body: body.to_owned(),
                url: url.to_owned(),
                expected_type: T::type_label(),
            },
        ),
    }
}

/// The document of a pure error response: `{"error": <msg>}`.
pub open spec fn spec_error_envelope(msg: Seq<char>) -> SpecJson {
    SpecJson::Obj(seq![("error"@, SpecJson::Str(msg))])
}

/// An error envelope decodes into no domain type's success schema: with
/// the envelope contract above, decoding it into any of the four domain
/// types yields the corresponding API error, never a success.
pub proof fn lemma_error_envelope_never_success(msg: Seq<char>)
    ensures
        crate::models::item::spec_decode_item(spec_error_envelope(msg)) is None,
        crate::models::smmo_player::spec_decode_player(spec_error_envelope(msg)) is None,
        crate::models::world_boss::spec_decode_world_bosses(spec_error_envelope(msg)) is None,
        crate::models::orphanage::spec_decode_orphanage(spec_error_envelope(msg)) is None,
        spec_error_shape(spec_error_envelope(msg)) == Some(msg),
{
    reveal_strlit("error");
    reveal_strlit("id");
    reveal_strlit("current_amount");
    assert(("error"@) =~= seq!['e', 'r', 'r', 'o', 'r']);
    assert(("id"@) =~= seq!['i', 'd']);
    assert(("current_amount"@) =~= seq![
        'c', 'u', 'r', 'r', 'e', 'n', 't', '_', 'a', 'm', 'o', 'u', 'n', 't',
    ]);
    let j = spec_error_envelope(msg);
    reveal_with_fuel(crate::json::spec_obj_get, 3);
    assert(spec_get(j, "id"@) is None);
    assert(spec_get(j, "current_amount"@) is None);
    assert(spec_get(j, "error"@) == Some(SpecJson::Str(msg)));
}

/// The two recognised error strings map to their variants: the string
/// `item not found` to [`ApiErrorTypeView::ItemNotFound`] and the string
/// `unauthenticated` to [`ApiErrorTypeView::Unauthenticated`].
pub proof fn lemma_recognised_error_strings()
    ensures
        spec_api_error_from_wire("item not found"@) == ApiErrorTypeView::ItemNotFound,
        spec_api_error_from_wire("unauthenticated"@) == ApiErrorTypeView::Unauthenticated,
{
    reveal_strlit("item not found");
    reveal_strlit("unauthenticated");
    assert(("item not found"@)[0] == 'i');
    assert(("unauthenticated"@)[0] == 'u');
}

} // verus!
