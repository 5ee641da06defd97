//! The client: its configuration, the requests it sends, and how it reads
//! the responses that come back.
use core::time::Duration;
use reqwest::Client as HttpClient;
use reqwest::ClientBuilder as HttpClientBuilder;
use reqwest::Error as TransportError;
use vstd::prelude::*;
use vstd::string::StringSliceAdditionalSpecFns;

use crate::error::{ApiError, kind_for_status, opt_json_view, status_error_view, ApiErrorView, Error, ErrorKind};
use crate::json::{json_reading, parse_json, Json, JsonView};
use crate::models::Model;
use crate::percent::{escape, escaped};
use crate::text::{
    blank, is_blank, lowercase_of, push_str, to_lowercase, to_uppercase, uppercase_of,
    without_trailing_slashes, trim_end_slashes,
};

verus! {

/// The HTTP client of `reqwest` that sends the requests.
#[verifier::external_type_specification]
#[verifier::external_body]
pub struct ExHttpClient(HttpClient);

/// The builder of `reqwest`'s HTTP client.
#[verifier::external_type_specification]
#[verifier::external_body]
pub struct ExHttpClientBuilder(HttpClientBuilder);

/// `reqwest`'s policy on following redirects.
#[verifier::external_type_specification]
#[verifier::external_body]
pub struct ExRedirectPolicy(reqwest::redirect::Policy);

/// The total request timeout a `reqwest` client builder is set to, if any.
pub uninterp spec fn builder_timeout(b: HttpClientBuilder) -> Option<Duration>;

/// Whether the redirect policy a `reqwest` client builder is set to
/// follows redirects.
pub uninterp spec fn builder_follows_redirects(b: HttpClientBuilder) -> bool;

/// Whether a `reqwest` redirect policy follows redirects.
pub uninterp spec fn policy_follows_redirects(p: reqwest::redirect::Policy) -> bool;

/// The total request timeout a `reqwest` client was built with, if any.
pub uninterp spec fn client_timeout(c: HttpClient) -> Option<Duration>;

/// Whether a `reqwest` client was built with a policy that follows
/// redirects.
pub uninterp spec fn client_follows_redirects(c: HttpClient) -> bool;

/// What `Duration::from_secs` returns for a number of seconds.
pub uninterp spec fn duration_of_secs(secs: u64) -> Duration;

/// `reqwest::Client::builder`: a builder with `reqwest`'s defaults, which
/// set no timeout and a policy that follows up to ten redirects.
pub assume_specification[ HttpClient::builder ]() -> (r: HttpClientBuilder)
    ensures
        builder_timeout(r) is None,
        builder_follows_redirects(r),
;

/// `reqwest::ClientBuilder::timeout`: sets the total request timeout and
/// keeps the redirect policy.
pub assume_specification[ HttpClientBuilder::timeout ](
    b: HttpClientBuilder,
    timeout: Duration,
) -> (r: HttpClientBuilder)
    ensures
        builder_timeout(r) == Some(timeout),
        builder_follows_redirects(r) == builder_follows_redirects(b),
;

/// `reqwest::redirect::Policy::none`: the policy that follows no redirect.
pub assume_specification[ reqwest::redirect::Policy::none ]() -> (r: reqwest::redirect::Policy)
    ensures
        !policy_follows_redirects(r),
;

/// `reqwest::ClientBuilder::redirect`: sets the redirect policy and keeps
/// the timeout.
pub assume_specification[ HttpClientBuilder::redirect ](
    b: HttpClientBuilder,
    policy: reqwest::redirect::Policy,
) -> (r: HttpClientBuilder)
    ensures
        builder_follows_redirects(r) == policy_follows_redirects(policy),
        builder_timeout(r) == builder_timeout(b),
;

/// `reqwest::ClientBuilder::build`: the HTTP client, with the builder's
/// timeout and redirect policy, or the error of a TLS backend or resolver
/// that failed to load. Which of the two comes back depends on the machine,
/// so that is not stated.
pub assume_specification[ HttpClientBuilder::build ](
    b: HttpClientBuilder,
) -> (r: core::result::Result<HttpClient, TransportError>)
    ensures
        r matches Ok(c) ==> client_timeout(c) == builder_timeout(b) && client_follows_redirects(c)
            == builder_follows_redirects(b),
;

/// `Clone` of `reqwest::Client`: another handle on the same client, with
/// the same timeout and redirect policy.
pub assume_specification[ <HttpClient as Clone>::clone ](c: &HttpClient) -> (r: HttpClient)
    ensures
        client_timeout(r) == client_timeout(*c),
        client_follows_redirects(r) == client_follows_redirects(*c),
;

/// `Duration::from_secs` from std: the duration of `secs` seconds.
pub assume_specification[ Duration::from_secs ](secs: u64) -> (r: Duration)
    ensures
        r == duration_of_secs(secs),
;

/// The timeout a built HTTP client gets: the one set, else ten seconds.
pub open spec fn timeout_setting(t: Option<Duration>) -> Duration {
    match t {
        Some(d) => d,
        None => duration_of_secs(10),
    }
}

/// Whether `c` is the HTTP client the library builds for the timeout
/// setting `t`: that timeout, and no redirect followed.
pub open spec fn own_http_client(c: HttpClient, t: Option<Duration>) -> bool {
    &&& client_timeout(c) == Some(timeout_setting(t))
    &&& !client_follows_redirects(c)
}

/// The version that goes out in the `User-Agent` header.
pub const VERSION: &'static str = "0.1.0";

/// The production API.
pub const DEFAULT_BASE_URL: &'static str = "https://ibanchecker.cash/api/v1";

/// Client for the ibanchecker.cash API.
#[derive(Debug, Clone)]
pub struct Client {
    api_key: Option<String>,
    base_url: String,
    http: HttpClient,
}

/// The configuration of a [`Client`].
pub struct ClientView {
    /// The key sent as a bearer token, if any.
    pub api_key: Option<Seq<char>>,
    /// Where the paths of the API are appended.
    pub base_url: Seq<char>,
    /// The HTTP client that sends the requests.
    pub http: HttpClient,
}

impl View for Client {
    type V = ClientView;

    closed spec fn view(&self) -> ClientView {
        ClientView {
            api_key: opt_text_view(self.api_key),
            base_url: self.base_url@,
            http: self.http,
        }
    }
}

/// Builds a [`Client`].
#[derive(Debug)]
pub struct ClientBuilder {
    api_key: Option<String>,
    base_url: Option<String>,
    timeout: Option<Duration>,
    http: Option<HttpClient>,
}

/// The settings gathered by a [`ClientBuilder`].
pub struct ClientBuilderView {
    pub api_key: Option<Seq<char>>,
    pub base_url: Option<Seq<char>>,
    pub timeout: Option<Duration>,
    pub http: Option<HttpClient>,
}

impl View for ClientBuilder {
    type V = ClientBuilderView;

    closed spec fn view(&self) -> ClientBuilderView {
        ClientBuilderView {
            api_key: opt_text_view(self.api_key),
            base_url: opt_text_view(self.base_url),
            timeout: self.timeout,
            http: self.http,
        }
    }
}

/// The view of an optional string.
pub open spec fn opt_text_view(s: Option<String>) -> Option<Seq<char>> {
    match s {
        Some(t) => Some(t@),
        None => None,
    }
}

/// The key a builder keeps for `key`: none for an empty one.
pub open spec fn key_setting(key: Seq<char>) -> Option<Seq<char>> {
    if key.len() == 0 {
        None
    } else {
        Some(key)
    }
}

/// The base URL a client goes to: the one set, else production.
pub open spec fn base_url_setting(set: Option<Seq<char>>) -> Seq<char> {
    match set {
        Some(u) => u,
        None => DEFAULT_BASE_URL@,
    }
}

impl Default for ClientBuilder {
    fn default() -> (r: ClientBuilder)
        ensures
            r@ == (ClientBuilderView { api_key: None, base_url: None, timeout: None, http: None }),
    {
        ClientBuilder { api_key: None, base_url: None, timeout: None, http: None }
    }
}

impl ClientBuilder {
    /// Sets the API key. Without one, requests are limited to 100 per hour
    /// per IP. An empty key is the same as no key.
    pub fn api_key(self, key: &str) -> (r: ClientBuilder)
        ensures
            r@ == (ClientBuilderView { api_key: key_setting(key@), ..self@ }),
    {
        let api_key = if key.is_empty() {
            None
        } else {
            Some(key.to_owned())
        };
        ClientBuilder { api_key, ..self }
    }

    /// Points the client at a different host. Any trailing slash is
    /// trimmed.
    pub fn base_url(self, url: &str) -> (r: ClientBuilder)
        ensures
            r@ == (ClientBuilderView { base_url: Some(trim_end_slashes(url@)), ..self@ }),
    {
        ClientBuilder { base_url: Some(without_trailing_slashes(url)), ..self }
    }

    /// Sets the request timeout. Ignored when [`ClientBuilder::http_client`]
    /// supplies a client of its own.
    pub fn timeout(self, timeout: Duration) -> (r: ClientBuilder)
        ensures
            r@ == (ClientBuilderView { timeout: Some(timeout), ..self@ }),
    {
        ClientBuilder { timeout: Some(timeout), ..self }
    }

    /// Routes the calls through an application's own HTTP client. It
    /// replaces the timeout and the redirect policy, so set both on the
    /// client passed in.
    pub fn http_client(self, http: HttpClient) -> (r: ClientBuilder)
        ensures
            r@ == (ClientBuilderView { http: Some(http), ..self@ }),
    {
        ClientBuilder { http: Some(http), ..self }
    }

    /// Builds the client. Without an HTTP client of the application's own,
    /// one is built that times out after the timeout set (ten seconds when
    /// none is) and follows no redirect.
    ///
    /// # Errors
    ///
    /// [`Error::Transport`] when that HTTP client cannot be built, which in
    /// practice means a TLS backend that failed to load.
    pub fn build(self) -> (r: Result<Client, Error>)
        ensures
            match r {
                Ok(c) => {
                    &&& c@.api_key == self@.api_key
                    &&& c@.base_url == base_url_setting(self@.base_url)
                    &&& match self@.http {
                        Some(h) => c@.http == h,
                        None => own_http_client(c@.http, self@.timeout),
                    }
                    &&& (self@.http is None ==> (self@.timeout matches Some(t) ==> client_timeout(
                        c@.http,
                    ) == Some(t)))
                    &&& (self@.http is None && self@.timeout is None ==> client_timeout(c@.http)
                        == Some(duration_of_secs(10)))
                },
                Err(e) => self@.http is None && e.kind() is Transport,
            },
    {
        let http = match self.http {
            Some(h) => h,
            None => {
                let timeout = match self.timeout {
                    Some(t) => t,
                    None => Duration::from_secs(10),
                };
                let built = HttpClient::builder().timeout(timeout).redirect(
                    reqwest::redirect::Policy::none(),
                ).build();
                match built {
                    Ok(c) => c,
                    Err(e) => return Err(Error::Transport(e)),
                }
            },
        };
        let base_url = match self.base_url {
            Some(u) => u,
            None => DEFAULT_BASE_URL.to_owned(),
        };
        Ok(Client { api_key: self.api_key, base_url, http })
    }
}


impl Client {
    /// Starts building a client.
    pub fn builder() -> (r: ClientBuilder)
        ensures
            r@ == (ClientBuilderView { api_key: None, base_url: None, timeout: None, http: None }),
    {
        ClientBuilder::default()
    }

    /// A client with no API key, pointed at production.
    ///
    /// # Errors
    ///
    /// [`Error::Transport`] when the HTTP client cannot be built.
    pub fn new() -> (r: Result<Client, Error>)
        ensures
            match r {
                Ok(c) => c@.api_key is None && c@.base_url == DEFAULT_BASE_URL@ && own_http_client(
                    c@.http,
                    None,
                ),
                Err(e) => e.kind() is Transport,
            },
    {
        Self::builder().build()
    }

    /// A client with an API key, pointed at production.
    ///
    /// # Errors
    ///
    /// [`Error::Transport`] when the HTTP client cannot be built.
    pub fn with_api_key(key: &str) -> (r: Result<Client, Error>)
        ensures
            match r {
                Ok(c) => c@.api_key == key_setting(key@) && c@.base_url == DEFAULT_BASE_URL@
                    && own_http_client(c@.http, None),
                Err(e) => e.kind() is Transport,
            },
    {
        Self::builder().api_key(key).build()
    }

    /// The HTTP client that sends the requests.
    pub fn http(&self) -> (r: &HttpClient)
        ensures
            *r == self@.http,
    {
        &self.http
    }
}


/// The HTTP method of a request.
#[derive(Debug, Clone, Copy, PartialEq, Eq, Structural)]
pub enum HttpMethod {
    /// `GET`, with no body.
    Get,
    /// `POST`, with a JSON body.
    Post,
}

/// A request to the API, ready to be sent: the method, the full URL, the
/// headers by lower-case name, and the JSON body if there is one.
#[derive(Debug)]
pub struct HttpRequest {
    /// The method.
    pub method: HttpMethod,
    /// The full URL.
    pub url: String,
    /// The headers, by lower-case name, in order.
    pub headers: Vec<(String, String)>,
    /// The JSON body, sent with the `application/json` content type.
    pub body: Option<Json>,
}

/// The mathematical value of an [`HttpRequest`].
pub struct HttpRequestView {
    pub method: HttpMethod,
    pub url: Seq<char>,
    pub headers: Seq<(Seq<char>, Seq<char>)>,
    pub body: Option<JsonView>,
}

/// The view of a list of name and value pairs.
pub open spec fn pairs_view(s: Seq<(String, String)>) -> Seq<(Seq<char>, Seq<char>)> {
    s.map_values(|p: (String, String)| (p.0@, p.1@))
}

impl View for HttpRequest {
    type V = HttpRequestView;

    open spec fn view(&self) -> HttpRequestView {
        HttpRequestView {
            method: self.method,
            url: self.url@,
            headers: pairs_view(self.headers@),
            body: opt_json_view(self.body),
        }
    }
}

/// The `User-Agent` every request carries.
pub open spec fn user_agent() -> Seq<char> {
    "ibanchecker-rust/"@ + VERSION@
}

/// The headers of a request: JSON accepted, the user agent, the API key as
/// a bearer token when the client has one, and the JSON content type when
/// the request has a body.
pub open spec fn request_headers(api_key: Option<Seq<char>>, has_body: bool) -> Seq<
    (Seq<char>, Seq<char>),
> {
    let common = seq![("accept"@, "application/json"@), ("user-agent"@, user_agent())];
    let keyed = match api_key {
        Some(k) => common.push(("authorization"@, "Bearer "@ + k)),
        None => common,
    };
    if has_body {
        keyed.push(("content-type"@, "application/json"@))
    } else {
        keyed
    }
}

/// The request a client sends for a path of the API.
pub open spec fn planned(
    client: ClientView,
    method: HttpMethod,
    path: Seq<char>,
    body: Option<JsonView>,
) -> HttpRequestView {
    HttpRequestView {
        method,
        url: client.base_url + path,
        headers: request_headers(client.api_key, body is Some),
        body,
    }
}

/// The body `{ name: value }`.
pub open spec fn single_member(name: Seq<char>, value: JsonView) -> JsonView {
    JsonView::Object(seq![(name, value)])
}

/// The path segment a value becomes: its UTF-8 bytes, percent-encoded.
pub open spec fn segment(value: Seq<char>) -> Seq<char> {
    escaped(vstd::utf8::encode_utf8(value))
}

/// The array of strings `ibans`.
pub open spec fn text_array(ibans: Seq<String>) -> JsonView {
    JsonView::Array(ibans.map_values(|s: String| JsonView::String(s@)))
}

fn single_member_json(name: &str, value: Json) -> (r: Json)
    ensures
        r@ == single_member(name@, value@),
{
    let entries = vec![(name.to_owned(), value)];
    proof {
        crate::json::lemma_entries_view(entries@);
    }
    let r = Json::Object(entries);
    assert(r@ == JsonView::Object(crate::json::entries_view(entries@)));
    assert(crate::json::entries_view(entries@) =~= seq![(name@, value@)]);
    r
}

impl Client {
    fn plan(&self, method: HttpMethod, path: &str, body: Option<Json>) -> (r: HttpRequest)
        ensures
            r@ == planned(self@, method, path@, opt_json_view(body)),
    {
        let mut url = self.base_url.clone();
        push_str(&mut url, path);
        let mut headers: Vec<(String, String)> = Vec::new();
        headers.push(("accept".to_owned(), "application/json".to_owned()));
        let mut agent = String::new();
        push_str(&mut agent, "ibanchecker-rust/");
        push_str(&mut agent, VERSION);
        headers.push(("user-agent".to_owned(), agent));
        match &self.api_key {
            Some(k) => {
                let mut bearer = String::new();
                push_str(&mut bearer, "Bearer ");
                push_str(&mut bearer, k.as_str());
                headers.push(("authorization".to_owned(), bearer));
            },
            None => {},
        }
        if body.is_some() {
            headers.push(("content-type".to_owned(), "application/json".to_owned()));
        }
        let r = HttpRequest { method, url, headers, body };
        assert(pairs_view(r.headers@) =~= request_headers(self@.api_key, body is Some));
        r
    }

    /// The request that validates a single IBAN: `POST /validate` with
    /// `{"iban": iban}`.
    pub fn validate_request(&self, iban: &str) -> (r: HttpRequest)
        ensures
            r@ == planned(
                self@,
                HttpMethod::Post,
                "/validate"@,
                Some(single_member("iban"@, JsonView::String(iban@))),
            ),
    {
        let body = single_member_json("iban", Json::String(iban.to_owned()));
        self.plan(HttpMethod::Post, "/validate", Some(body))
    }

    /// The request that validates a list of IBANs in one go:
    /// `POST /validate/bulk` with `{"ibans": [...]}`, the list in order and
    /// an empty list sent as an empty array.
    pub fn validate_bulk_request(&self, ibans: &[String]) -> (r: HttpRequest)
        ensures
            r@ == planned(
                self@,
                HttpMethod::Post,
                "/validate/bulk"@,
                Some(single_member("ibans"@, text_array(ibans@))),
            ),
    {
        let mut items: Vec<Json> = Vec::new();
        let mut i: usize = 0;
        while i < ibans.len()
            invariant
                i <= ibans@.len(),
                items@.len() == i,
                forall|j: int| 0 <= j < i ==> #[trigger] items@[j]@ == JsonView::String(ibans@[j]@),
            decreases ibans@.len() - i,
        {
            items.push(Json::String(ibans[i].clone()));
            i += 1;
        }
        let list = Json::Array(items);
        proof {
            crate::json::lemma_items_view(items@);
            assert forall|j: int| 0 <= j < items@.len() implies crate::json::items_view(items@)[j]
                == JsonView::String(ibans@[j]@) by {
                assert(items@[j]@ == JsonView::String(ibans@[j]@));
            }
            assert(crate::json::items_view(items@) =~= ibans@.map_values(
                |s: String| JsonView::String(s@),
            ));
        }
        let body = single_member_json("ibans", list);
        self.plan(HttpMethod::Post, "/validate/bulk", Some(body))
    }

    /// The request that finds and validates the IBANs in free text:
    /// `POST /extract` with `{"text": text}`.
    pub fn extract_request(&self, text: &str) -> (r: HttpRequest)
        ensures
            r@ == planned(
                self@,
                HttpMethod::Post,
                "/extract"@,
                Some(single_member("text"@, JsonView::String(text@))),
            ),
    {
        let body = single_member_json("text", Json::String(text.to_owned()));
        self.plan(HttpMethod::Post, "/extract", Some(body))
    }

    /// The request for the IBAN format of an ISO 3166-1 alpha-2 country
    /// code: `GET /formats/{code}`, the code lower-cased and escaped.
    pub fn country_format_request(&self, country: &str) -> (r: HttpRequest)
        ensures
            r@ == planned(
                self@,
                HttpMethod::Get,
                "/formats/"@ + segment(lowercase_of(country@)),
                None,
            ),
    {
        let lower = to_lowercase(country);
        let mut path = String::new();
        push_str(&mut path, "/formats/");
        let seg = escape(lower.as_str());
        push_str(&mut path, seg.as_str());
        self.plan(HttpMethod::Get, path.as_str(), None)
    }

    /// The request that resolves an 8 or 11 character BIC:
    /// `GET /swift/{bic}`, the BIC upper-cased and escaped.
    pub fn lookup_bic_request(&self, bic: &str) -> (r: HttpRequest)
        ensures
            r@ == planned(
                self@,
                HttpMethod::Get,
                "/swift/"@ + segment(uppercase_of(bic@)),
                None,
            ),
    {
        let upper = to_uppercase(bic);
        let mut path = String::new();
        push_str(&mut path, "/swift/");
        let seg = escape(upper.as_str());
        push_str(&mut path, seg.as_str());
        self.plan(HttpMethod::Get, path.as_str(), None)
    }
}


/// What a response reads as: a document, or an error of some kind with the
/// API's account of it.
pub enum Outcome {
    Document(JsonView),
    Failure(ErrorKind, ApiErrorView),
}

/// A `3xx` status.
pub open spec fn is_redirection(status: u16) -> bool {
    300 <= status && status <= 399
}

/// A `4xx` or `5xx` status.
pub open spec fn is_error_status(status: u16) -> bool {
    400 <= status && status <= 599
}

/// Why a redirect is refused, naming where it pointed.
pub open spec fn redirect_message(location: Option<Seq<char>>) -> Seq<char> {
    "refusing to follow the redirect to "@ + match location {
        Some(l) => l,
        None => "another address"@,
    } + ": set the base URL to that address (the API is https, and an http base URL redirects)"@
}

/// The document a body decodes to: none for a blank body, else what the
/// JSON reader made of it.
pub open spec fn decoded_body(text: Seq<char>, parsed: Option<JsonView>) -> Option<JsonView> {
    if is_blank(text) {
        None
    } else {
        parsed
    }
}

/// The message for a successful status whose body holds no document.
pub open spec fn no_document_message(text: Seq<char>) -> Seq<char> {
    if is_blank(text) {
        "the API returned an empty body"@
    } else {
        "the API returned a body that is not JSON"@
    }
}

/// What a response with `status`, `location`, the body `text` and the JSON
/// reader's reading `parsed` of that text amounts to. A redirect is
/// refused; an error status is an error carrying whatever the body said;
/// any other status needs a document in the body.
pub open spec fn response_outcome(
    status: u16,
    location: Option<Seq<char>>,
    text: Seq<char>,
    parsed: Option<JsonView>,
) -> Outcome {
    if is_redirection(status) {
        Outcome::Failure(
            ErrorKind::Api,
            ApiErrorView { status, code: seq![], message: redirect_message(location), body: None },
        )
    } else if is_error_status(status) {
        Outcome::Failure(
            kind_for_status(status),
            status_error_view(status, decoded_body(text, parsed)),
        )
    } else {
        match decoded_body(text, parsed) {
            Some(d) => Outcome::Document(d),
            None => Outcome::Failure(
                ErrorKind::Api,
                ApiErrorView {
                    status,
                    code: seq![],
                    message: no_document_message(text),
                    body: None,
                },
            ),
        }
    }
}

/// The message for a document that does not read as the expected model,
/// with the reason `why`.
pub open spec fn decode_message(why: Seq<char>) -> Seq<char> {
    "could not decode the response: "@ + why
}

/// The view of an optional string slice.
pub open spec fn opt_str_view(s: Option<&str>) -> Option<Seq<char>> {
    match s {
        Some(t) => Some(t@),
        None => None,
    }
}

/// Reads a response: `status`, the `Location` header if there was one, the
/// body `text`, and `parsed`, the JSON reader's reading of `text` (none
/// when it is not JSON).
pub fn read_response(status: u16, location: Option<&str>, text: &str, parsed: Option<Json>) -> (r:
    Result<Json, Error>)
    ensures
        match response_outcome(status, opt_str_view(location), text@, opt_json_view(parsed)) {
            Outcome::Document(d) => r matches Ok(v) && v@ == d,
            Outcome::Failure(k, a) => r matches Err(e) && e.kind() == k && e.api_view() == Some(a),
        },
{
    if 300 <= status && status <= 399 {
        let mut message = String::new();
        push_str(&mut message, "refusing to follow the redirect to ");
        match location {
            Some(l) => push_str(&mut message, l),
            None => push_str(&mut message, "another address"),
        }
        push_str(
            &mut message,
            ": set the base URL to that address (the API is https, and an http base URL redirects)",
        );
        return Err(Error::unreadable(status, message.as_str()));
    }
    let is_blank_text = blank(text);
    let decoded = if is_blank_text {
        None
    } else {
        parsed
    };
    if 400 <= status && status <= 599 {
        return Err(Error::from_status(status, decoded));
    }
    match decoded {
        Some(d) => Ok(d),
        None => {
            if is_blank_text {
                Err(Error::unreadable(status, "the API returned an empty body"))
            } else {
                Err(Error::unreadable(status, "the API returned a body that is not JSON"))
            }
        },
    }
}

/// Reads a response as the model `T`: what [`read_response`] gives, read as
/// a `T`; a document that does not read as one is an `Api` error.
pub fn read_model<T: Model>(status: u16, location: Option<&str>, text: &str, parsed: Option<Json>) -> (r:
    Result<T, Error>)
    ensures
        match response_outcome(status, opt_str_view(location), text@, opt_json_view(parsed)) {
            Outcome::Document(d) => if T::decodes(d) {
                r matches Ok(v) && v.read_from(d)
            } else {
                r matches Err(e) && e.kind() is Api && e.api_view() == Some(
                    ApiErrorView {
                        status,
                        code: seq![],
                        message: decode_message(T::failure(d)),
                        body: Some(d),
                    },
                )
            },
            Outcome::Failure(k, a) => r matches Err(e) && e.kind() == k && e.api_view() == Some(a),
        },
{
    match read_response(status, location, text, parsed) {
        Ok(doc) => {
            let kept = doc.copy();
            match T::from_json(doc) {
                Ok(v) => Ok(v),
                Err(why) => {
                    let mut message = String::new();
                    push_str(&mut message, "could not decode the response: ");
                    push_str(&mut message, why.as_str());
                    Err(
                        Error::Api(
                            ApiError { status, code: String::new(), message, body: Some(kept) },
                        ),
                    )
                },
            }
        },
        Err(e) => Err(e),
    }
}


/// Reads a response from its `status`, its `Location` header if there was
/// one, and its body `text`, which is read as JSON unless it is blank.
pub fn read_document(status: u16, location: Option<&str>, text: &str) -> (r: Result<Json, Error>)
    ensures
        match response_outcome(status, opt_str_view(location), text@, json_reading(text@)) {
            Outcome::Document(d) => r matches Ok(v) && v@ == d,
            Outcome::Failure(k, a) => r matches Err(e) && e.kind() == k && e.api_view() == Some(a),
        },
{
    let parsed = if blank(text) {
        None
    } else {
        parse_json(text)
    };
    read_response(status, location, text, parsed)
}

/// Reads a response from its `status`, its `Location` header if there was
/// one, and its body `text`, as the model `T`.
pub fn read_reply<T: Model>(status: u16, location: Option<&str>, text: &str) -> (r: Result<T, Error>)
    ensures
        match response_outcome(status, opt_str_view(location), text@, json_reading(text@)) {
            Outcome::Document(d) => if T::decodes(d) {
                r matches Ok(v) && v.read_from(d)
            } else {
                r matches Err(e) && e.kind() is Api && e.api_view() == Some(
                    ApiErrorView {
                        status,
                        code: seq![],
                        message: decode_message(T::failure(d)),
                        body: Some(d),
                    },
                )
            },
            Outcome::Failure(k, a) => r matches Err(e) && e.kind() == k && e.api_view() == Some(a),
        },
{
    let parsed = if blank(text) {
        None
    } else {
        parse_json(text)
    };
    read_model::<T>(status, location, text, parsed)
}

/// A redirect is never followed: every `3xx` response is an `Api` error
/// that carries the status and names where the redirect pointed.
pub proof fn lemma_redirect_is_refused(
    status: u16,
    location: Option<Seq<char>>,
    text: Seq<char>,
    parsed: Option<JsonView>,
)
    requires
        is_redirection(status),
    ensures
        response_outcome(status, location, text, parsed) matches Outcome::Failure(k, a) && k is Api
            && a.status == status && a.message == redirect_message(location),
{
}

/// Every `4xx` or `5xx` response is an error, never a document, of the
/// variant its status maps to and carrying that status, whatever the body.
pub proof fn lemma_error_status_is_an_error(
    status: u16,
    location: Option<Seq<char>>,
    text: Seq<char>,
    parsed: Option<JsonView>,
)
    requires
        is_error_status(status),
    ensures
        response_outcome(status, location, text, parsed) matches Outcome::Failure(k, a) && k
            == kind_for_status(status) && !(k is Transport) && a.status == status,
{
}

/// A `2xx` response whose body is a JSON document reads as that document,
/// whatever it says: an IBAN that the API finds malformed comes back as a
/// result with `valid` false, not as an error.
pub proof fn lemma_success_reads_the_document(
    status: u16,
    location: Option<Seq<char>>,
    text: Seq<char>,
    doc: JsonView,
)
    requires
        200 <= status <= 299,
        !is_blank(text),
    ensures
        response_outcome(status, location, text, Some(doc)) == Outcome::Document(doc),
{
}

/// The API key goes out as a bearer token, and only when the client has
/// one; the JSON content type goes out when, and only when, a body does.
pub proof fn lemma_planned_headers(api_key: Option<Seq<char>>, has_body: bool)
    ensures
        (exists|i: int|
            0 <= i < request_headers(api_key, has_body).len() && #[trigger] request_headers(
                api_key,
                has_body,
            )[i].0 == "authorization"@) <==> api_key is Some,
        api_key matches Some(k) ==> request_headers(api_key, has_body)[2] == ("authorization"@,
            "Bearer "@ + k),
        (exists|i: int|
            0 <= i < request_headers(api_key, has_body).len() && #[trigger] request_headers(
                api_key,
                has_body,
            )[i] == ("content-type"@, "application/json"@)) <==> has_body,
{
    reveal_strlit("accept");
    reveal_strlit("user-agent");
    reveal_strlit("authorization");
    reveal_strlit("content-type");
    let h = request_headers(api_key, has_body);
    assert("accept"@ != "authorization"@) by {
        assert("accept"@[1] != "authorization"@[1]);
    }
    assert("user-agent"@ != "authorization"@) by {
        assert("user-agent"@[0] != "authorization"@[0]);
    }
    assert("content-type"@ != "authorization"@) by {
        assert("content-type"@[0] != "authorization"@[0]);
    }
    assert("accept"@ != "content-type"@) by {
        assert("accept"@[1] != "content-type"@[1]);
    }
    assert("user-agent"@ != "content-type"@) by {
        assert("user-agent"@[0] != "content-type"@[0]);
    }
    assert("authorization"@ != "content-type"@) by {
        assert("authorization"@[0] != "content-type"@[0]);
    }
    if api_key is Some {
        assert(h[2].0 == "authorization"@);
    }
    if has_body {
        assert(h[h.len() - 1] == ("content-type"@, "application/json"@));
    }
}

/// A timeout that was set is the timeout the library's own HTTP client
/// gets; without one, it gets ten seconds. Either way it follows no
/// redirect.
pub proof fn lemma_own_http_client_keeps_the_timeout(c: HttpClient, t: Option<Duration>)
    requires
        own_http_client(c, t),
    ensures
        t matches Some(d) ==> client_timeout(c) == Some(d),
        t is None ==> client_timeout(c) == Some(duration_of_secs(10)),
        !client_follows_redirects(c),
{
}

} // verus!
