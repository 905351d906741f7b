//! The application's error kinds: their HTTP status, their message and the
//! JSON body of the error response.

use vstd::prelude::*;
use vstd::string::*;

use crate::json::{json_string, json_string_literal};
use crate::numbers::{decimal, push_decimal};

verus! {

/// The error kinds of the application. Each carries the text of the error
/// it wraps, as the message shows it: its `Display` text for `InternalError`
/// and `Other`, its `Debug` text for `Anyhow` and `HeaderParse`.
#[derive(Clone, Debug)]
pub enum Error {
    /// An unspecified internal error.
    InternalError(String),
    /// A miscellaneous error, shown as it is.
    Other(String),
    /// A general application error.
    Anyhow(String),
    /// A header value that is not visible ASCII.
    HeaderParse(String),
}

/// The abstract value of an [`Error`].
pub enum ErrorView {
    InternalError(Seq<char>),
    Other(Seq<char>),
    Anyhow(Seq<char>),
    HeaderParse(Seq<char>),
}

impl View for Error {
    type V = ErrorView;

    open spec fn view(&self) -> ErrorView {
        match self {
            Error::InternalError(d) => ErrorView::InternalError(d@),
            Error::Other(d) => ErrorView::Other(d@),
            Error::Anyhow(d) => ErrorView::Anyhow(d@),
            Error::HeaderParse(d) => ErrorView::HeaderParse(d@),
        }
    }
}

/// The HTTP status of an error: 500 (Internal Server Error) for internal and
/// miscellaneous errors, 400 (Bad Request) for the others.
pub open spec fn status_of(e: ErrorView) -> u16 {
    match e {
        ErrorView::InternalError(_) | ErrorView::Other(_) => 500,
        _ => 400,
    }
}

/// The fixed message of an internal error.
pub open spec fn internal_error_text() -> Seq<char> {
    "an unspecified internal error occurred: * `lib.rs` sibling file text :*:\n```rust\npub mod asset_endpoint;\npub mod data_database_connection;\npub mod http_error;\n\n```"@
}

/// The message of an error.
pub open spec fn error_text(e: ErrorView) -> Seq<char> {
    match e {
        ErrorView::InternalError(_) => internal_error_text(),
        ErrorView::Other(d) => d,
        ErrorView::Anyhow(d) => "an error has occurred: "@ + d,
        ErrorView::HeaderParse(d) => "unable to parse headers: "@ + d,
    }
}

/// The JSON body of an error response: the message and the status, and the
/// stack trace where there is one, with the keys in sorted order.
pub open spec fn error_body_text(message: Seq<char>, status: u16, stacktrace: Option<Seq<char>>) -> Seq<char> {
    match stacktrace {
        Some(t) => "{\"message\":"@ + json_string(message) + ",\"stacktrace\":"@ + json_string(t)
            + ",\"status\":"@ + decimal(status as nat) + "}"@,
        None => "{\"message\":"@ + json_string(message) + ",\"status\":"@ + decimal(status as nat) + "}"@,
    }
}

/// An HTTP response with a JSON body.
#[derive(Clone, Debug)]
pub struct JsonResponse {
    /// The HTTP status code.
    pub status: u16,
    /// The `Content-Type` header.
    pub content_type: String,
    /// The JSON text of the body.
    pub body: String,
}

/// The view of an optional string slice.
pub open spec fn opt_str_view(o: Option<&str>) -> Option<Seq<char>> {
    match o {
        Some(s) => Some(s@),
        None => None,
    }
}

/// The last field of an error body: the status, then the closing brace.
pub open spec fn status_field(status: u16) -> Seq<char> {
    ",\"status\":"@ + decimal(status as nat) + "}"@
}

impl Error {
    /// The HTTP status code of this error.
    pub fn status_code(&self) -> (r: u16)
        ensures
            r == status_of(self@),
    {
        match self {
            Error::InternalError(_) | Error::Other(_) => 500,
            _ => 400,
        }
    }

    /// The message of this error, as its text reads.
    pub fn message(&self) -> (r: String)
        ensures
            r@ == error_text(self@),
    {
        match self {
            Error::InternalError(_) => String::from_str(
                "an unspecified internal error occurred: * `lib.rs` sibling file text :*:\n```rust\npub mod asset_endpoint;\npub mod data_database_connection;\npub mod http_error;\n\n```",
            ),
            Error::Other(d) => d.clone(),
            Error::Anyhow(d) => {
                let mut out = String::from_str("an error has occurred: ");
                out.append(d.as_str());
                out
            },
            Error::HeaderParse(d) => {
                let mut out = String::from_str("unable to parse headers: ");
                out.append(d.as_str());
                out
            },
        }
    }

    /// The response to this error: its status, and a JSON body with its
    /// message and status, and with `stacktrace` where one is given (debug
    /// builds give one).
    pub fn error_response(&self, stacktrace: Option<&str>) -> (r: JsonResponse)
        ensures
            r.status == status_of(self@),
            r.content_type@ == "application/json"@,
            r.body@ == error_body_text(error_text(self@), status_of(self@), opt_str_view(stacktrace)),
            r.body@.len() >= status_field(r.status).len(),
            r.body@.subrange(r.body@.len() - status_field(r.status).len(), r.body@.len() as int)
                == status_field(r.status),
    {
        proof {
            law_error_body_fields(error_text(self@), status_of(self@), opt_str_view(stacktrace));
        }
        let status: u16 = self.status_code();
        let message = self.message();
        let mut body = String::from_str("{\"message\":");
        let quoted = json_string_literal(message.as_str());
        body.append(quoted.as_str());
        match stacktrace {
            Some(t) => {
                body.append(",\"stacktrace\":");
                let quoted_trace = json_string_literal(t);
                body.append(quoted_trace.as_str());
            },
            None => {},
        }
        body.append(",\"status\":");
        push_decimal(&mut body, status);
        body.append("}");
        JsonResponse { status, content_type: String::from_str("application/json"), body }
    }
}

/// The reason phrase that `http::StatusCode::canonical_reason` gives for the
/// status `code` (`100 <= code < 1000`), where the code has one.
pub uninterp spec fn canonical_reason_text(code: u16) -> Option<Seq<char>>;

/// Calls `StatusCode::from_u16` and `StatusCode::canonical_reason` (the
/// `http` crate that actix-web re-exports). `from_u16` accepts exactly the
/// codes from 100 to 999, which `requires` admits, so its error arm is never
/// taken; the reason phrase is claimed only to be a function of the code.
#[verifier::external_body]
fn canonical_reason(code: u16) -> (r: Option<String>)
    requires
        100 <= code < 1000,
    ensures
        opt_string_view(r) == canonical_reason_text(code),
{
    match actix_web::http::StatusCode::from_u16(code) {
        Ok(status) => match status.canonical_reason() {
            Some(reason) => Some(String::from(reason)),
            None => None,
        },
        Err(_) => None,
    }
}

/// The view of an optional string.
pub open spec fn opt_string_view(o: Option<String>) -> Option<Seq<char>> {
    match o {
        Some(s) => Some(s@),
        None => None,
    }
}

/// The message of the error made from an HTTP response with status `status`:
/// `HTTP response error: ` and the status's reason phrase, or nothing where
/// the status has none.
pub open spec fn http_response_error_spec(status: u16) -> Seq<char> {
    "HTTP response error: "@ + match canonical_reason_text(status) {
        Some(t) => t,
        None => Seq::<char>::empty(),
    }
}

/// The message of the error that an HTTP response with status `status`
/// converts to (a response's status is always between 100 and 999).
pub fn http_response_error_text(status: u16) -> (r: String)
    requires
        100 <= status < 1000,
    ensures
        r@ == http_response_error_spec(status),
{
    let mut out = String::from_str("HTTP response error: ");
    match canonical_reason(status) {
        Some(reason) => out.append(reason.as_str()),
        None => {},
    }
    out
}

/// Every error of the application is answered with 400 (Bad Request) or 500
/// (Internal Server Error), and with 500 exactly for the internal and the
/// miscellaneous errors.
pub proof fn law_error_status_is_client_or_server(e: ErrorView)
    ensures
        status_of(e) == 400 || status_of(e) == 500,
        status_of(e) == 500 <==> (e is InternalError || e is Other),
{
}

/// Every error body opens with the message and closes with the status it was
/// made with, with a stack trace or without.
pub proof fn law_error_body_fields(message: Seq<char>, status: u16, stacktrace: Option<Seq<char>>)
    ensures
        ({
            let body = error_body_text(message, status, stacktrace);
            let head = "{\"message\":"@ + json_string(message);
            &&& body.len() >= head.len() + status_field(status).len()
            &&& body.subrange(0, head.len() as int) == head
            &&& body.subrange(body.len() - status_field(status).len(), body.len() as int) == status_field(status)
        }),
{
    let body = error_body_text(message, status, stacktrace);
    let head = "{\"message\":"@ + json_string(message);
    let mid: Seq<char> = match stacktrace {
        Some(t) => ",\"stacktrace\":"@ + json_string(t),
        None => Seq::empty(),
    };
    assert(body =~= head + mid + status_field(status));
    assert(body.subrange(0, head.len() as int) =~= head);
    assert(body.subrange(body.len() - status_field(status).len(), body.len() as int) =~= status_field(status));
}

} // verus!
