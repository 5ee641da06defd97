//! Everything that can go wrong on the way to a result.
use reqwest::Error as TransportError;
use vstd::prelude::*;

use crate::json::{member, Json, JsonView};
use crate::text::{decimal, push_decimal, push_str};

verus! {

/// The error of the HTTP client (`reqwest`'s error type): a request that never
/// reached the API.
#[verifier::external_type_specification]
#[verifier::external_body]
pub struct ExTransportError(TransportError);

/// What the API said about a failure.
#[derive(Debug, Clone, PartialEq)]
pub struct ApiError {
    /// The HTTP status.
    pub status: u16,
    /// The machine-readable code from the body, such as `BIC_NOT_FOUND`.
    /// Empty when the API sent none.
    pub code: String,
    /// The human-readable reason.
    pub message: String,
    /// The decoded response body, when the API sent one.
    pub body: Option<Json>,
}

/// The mathematical value of an [`ApiError`].
pub struct ApiErrorView {
    pub status: u16,
    pub code: Seq<char>,
    pub message: Seq<char>,
    pub body: Option<JsonView>,
}

impl View for ApiError {
    type V = ApiErrorView;

    open spec fn view(&self) -> ApiErrorView {
        ApiErrorView {
            status: self.status,
            code: self.code@,
            message: self.message@,
            body: match self.body {
                Some(b) => Some(b@),
                None => None,
            },
        }
    }
}

/// Everything that can go wrong on the way to a result.
///
/// A malformed IBAN is not an error: validation returns a result with
/// `valid` false. These are returned for transport, authentication, quota
/// and server-side problems only.
#[derive(Debug)]
pub enum Error {
    /// HTTP 400: the request was malformed.
    BadRequest(ApiError),
    /// HTTP 401: the API key is missing, invalid or inactive.
    Authentication(ApiError),
    /// HTTP 404: no such country code or BIC.
    NotFound(ApiError),
    /// HTTP 429: the hourly rate limit or the monthly quota was exceeded.
    RateLimit(ApiError),
    /// Any other error status, or a response body that could not be read.
    Api(ApiError),
    /// The request never reached the API: DNS, TLS, connection or timeout.
    Transport(TransportError),
}

/// The result of every call in this crate.
pub type Result<T> = core::result::Result<T, Error>;

/// Which variant an [`Error`] is.
pub enum ErrorKind {
    BadRequest,
    Authentication,
    NotFound,
    RateLimit,
    Api,
    Transport,
}

/// The variant an error status maps to.
pub open spec fn kind_for_status(status: u16) -> ErrorKind {
    if status == 400 {
        ErrorKind::BadRequest
    } else if status == 401 {
        ErrorKind::Authentication
    } else if status == 404 {
        ErrorKind::NotFound
    } else if status == 429 {
        ErrorKind::RateLimit
    } else {
        ErrorKind::Api
    }
}

/// The string member `name` of a body, empty when there is none.
pub open spec fn body_text(body: Option<JsonView>, name: Seq<char>) -> Seq<char> {
    match body {
        Some(d) => match member(d, name) {
            Some(JsonView::String(s)) => s,
            _ => seq![],
        },
        None => seq![],
    }
}

/// The message of an error status: the body's `error`, or `HTTP` and the
/// status when the body gives none.
pub open spec fn status_message(status: u16, body: Option<JsonView>) -> Seq<char> {
    if body_text(body, "error"@).len() == 0 {
        "HTTP "@ + decimal(status as nat)
    } else {
        body_text(body, "error"@)
    }
}

/// What the API says about the error `from_status` makes.
pub open spec fn status_error_view(status: u16, body: Option<JsonView>) -> ApiErrorView {
    ApiErrorView {
        status,
        code: body_text(body, "error_code"@),
        message: status_message(status, body),
        body,
    }
}

impl Error {
    /// Which variant this is.
    pub open spec fn kind(&self) -> ErrorKind {
        match self {
            Error::BadRequest(_) => ErrorKind::BadRequest,
            Error::Authentication(_) => ErrorKind::Authentication,
            Error::NotFound(_) => ErrorKind::NotFound,
            Error::RateLimit(_) => ErrorKind::RateLimit,
            Error::Api(_) => ErrorKind::Api,
            Error::Transport(_) => ErrorKind::Transport,
        }
    }

    /// The API's account of the failure, for every variant but `Transport`.
    pub open spec fn api_view(&self) -> Option<ApiErrorView> {
        match self {
            Error::BadRequest(a) => Some(a@),
            Error::Authentication(a) => Some(a@),
            Error::NotFound(a) => Some(a@),
            Error::RateLimit(a) => Some(a@),
            Error::Api(a) => Some(a@),
            Error::Transport(_) => None,
        }
    }

    /// The API's own account of the failure, for every variant except
    /// [`Error::Transport`].
    pub fn api(&self) -> (r: Option<&ApiError>)
        ensures
            match r {
                Some(a) => self.api_view() == Some(a@),
                None => self.api_view() is None,
            },
            r is None <==> self.kind() is Transport,
    {
        match self {
            Error::BadRequest(e) => Some(e),
            Error::Authentication(e) => Some(e),
            Error::NotFound(e) => Some(e),
            Error::RateLimit(e) => Some(e),
            Error::Api(e) => Some(e),
            Error::Transport(_) => None,
        }
    }

    /// The HTTP status, when the request got far enough to have one.
    pub fn status(&self) -> (r: Option<u16>)
        ensures
            match self.api_view() {
                Some(a) => r == Some(a.status),
                None => r is None,
            },
    {
        match self.api() {
            Some(e) => Some(e.status),
            None => None,
        }
    }

    /// The machine-readable code, when the API sent a non-empty one.
    pub fn code(&self) -> (r: Option<&str>)
        ensures
            match self.api_view() {
                Some(a) => if a.code.len() > 0 {
                    r matches Some(c) && c@ == a.code
                } else {
                    r is None
                },
                None => r is None,
            },
    {
        match self.api() {
            Some(e) => {
                let c = e.code.as_str();
                if c.is_empty() {
                    None
                } else {
                    Some(c)
                }
            },
            None => None,
        }
    }

    /// The error for an error status: the variant by the status, the code
    /// and the message out of the body when it gives them.
    pub fn from_status(status: u16, body: Option<Json>) -> (e: Error)
        ensures
            e.kind() == kind_for_status(status),
            e.api_view() == Some(status_error_view(status, opt_json_view(body))),
    {
        let code = text_member(&body, "error_code");
        let found = text_member(&body, "error");
        let message = if found.as_str().is_empty() {
            let mut m = String::new();
            push_str(&mut m, "HTTP ");
            push_decimal(&mut m, status as u64);
            m
        } else {
            found
        };
        let api = ApiError { status, code, message, body };
        assert(api@ == status_error_view(status, opt_json_view(body)));
        if status == 400 {
            Error::BadRequest(api)
        } else if status == 401 {
            Error::Authentication(api)
        } else if status == 404 {
            Error::NotFound(api)
        } else if status == 429 {
            Error::RateLimit(api)
        } else {
            Error::Api(api)
        }
    }

    /// An `Api` error for a response that could not be read.
    pub fn unreadable(status: u16, message: &str) -> (e: Error)
        ensures
            e.kind() is Api,
            e.api_view() == Some(
                ApiErrorView { status, code: seq![], message: message@, body: None },
            ),
    {
        Error::Api(ApiError { status, code: String::new(), message: message.to_owned(), body: None })
    }

    /// The error in words: `ibanchecker: ` with the message and the status,
    /// or, for a transport failure, with the HTTP client's own account.
    pub fn to_string(&self) -> (r: String)
        ensures
            match self.api_view() {
                Some(a) => r@ == "ibanchecker: "@ + a.message + " (HTTP "@ + decimal(a.status as nat) + ")"@,
                None => self matches Error::Transport(e) && exists|t: String|
                    #[trigger] vstd::string::to_string_from_display_ensures::<TransportError>(&e, t)
                        && r@ == "ibanchecker: request failed: "@ + t@,
            },
    {
        let mut out = String::new();
        match self {
            Error::Transport(e) => {
                let t = e.to_string();
                push_str(&mut out, "ibanchecker: request failed: ");
                push_str(&mut out, t.as_str());
            },
            _ => {
                let a = self.api();
                match a {
                    Some(api) => {
                        push_str(&mut out, "ibanchecker: ");
                        push_str(&mut out, api.message.as_str());
                        push_str(&mut out, " (HTTP ");
                        push_decimal(&mut out, api.status as u64);
                        push_str(&mut out, ")");
                    },
                    None => {},
                }
            },
        }
        out
    }
}

/// The view of an optional document.
pub open spec fn opt_json_view(body: Option<Json>) -> Option<JsonView> {
    match body {
        Some(b) => Some(b@),
        None => None,
    }
}

/// The string member `name` of a body, empty when there is none.
fn text_member(body: &Option<Json>, name: &str) -> (r: String)
    ensures
        r@ == body_text(opt_json_view(*body), name@),
{
    match body {
        Some(b) => match b.get(name) {
            Some(Json::String(s)) => s.clone(),
            _ => String::new(),
        },
        None => String::new(),
    }
}

impl From<TransportError> for Error {
    fn from(e: TransportError) -> (r: Error) {
        Error::Transport(e)
    }
}

impl vstd::std_specs::convert::FromSpecImpl<TransportError> for Error {
    open spec fn obeys_from_spec() -> bool {
        true
    }

    open spec fn from_spec(v: TransportError) -> Error {
        Error::Transport(v)
    }
}

} // verus!
