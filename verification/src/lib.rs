//! Client library for the ibanchecker.cash IBAN validation API.
//!
//! The library plans each request (the URL, the headers, the JSON body),
//! reads each response (the status, the `Location` header and the body) and
//! reads the response document into typed models. Sending the requests is
//! left to the caller's HTTP stack.
//!
//! A malformed IBAN is not an error: a validation comes back as a
//! [`ValidationResult`] with `valid` false and an `error` plus `error_code`
//! explaining why. [`Error`] is returned for transport, authentication,
//! quota and server-side problems only.
//!
//! `national_check_valid`, `sepa` and `swift` are `Option<bool>`: the API
//! distinguishes false from absent, so `None` means "not known" rather than
//! "no". Every model keeps the untouched response document in `raw`.

pub mod client;
pub mod error;
pub mod fields;
pub mod json;
pub mod models;
pub mod percent;
pub mod text;

pub use client::{
    read_document, read_model, read_reply, read_response, Client, ClientBuilder, HttpMethod, HttpRequest, DEFAULT_BASE_URL,
    VERSION,
};
pub use error::{ApiError, Error, Result};
pub use json::{Json, JsonNumber};
pub use models::{BankRecord, BatchResult, BbanField, FormatSpec, Model, ValidationResult};
pub use percent::escape;
