# ibanchecker

A client library for the ibanchecker.cash IBAN validation API, written in
Verus: the library plans every request, reads every response and reads the
response documents into typed models, and Verus proves each of those steps
against its contract.

## Layout

- `src/client.rs`: the client's configuration (`ClientBuilder`, `Client`),
  the request each call sends (`validate_request`, `validate_bulk_request`,
  `extract_request`, `country_format_request`, `lookup_bic_request`), and
  the reading of a response (`read_response`, `read_model`, `read_document`,
  `read_reply`), with the laws on redirects, error statuses and headers.
- `src/error.rs`: `Error` and `ApiError`, the mapping of error statuses to
  variants and the messages.
- `src/json.rs`: `Json`, the document type, its mathematical view, and the
  JSON reader of `serde_json` behind a trusted wrapper.
- `src/fields.rs`: how a field is read out of a document (absent and `null`
  read alike), and the law that says so.
- `src/models.rs`: the response models and their readers.
- `src/percent.rs`: percent-encoding of path segments, with its laws (the
  escape stays in its segment and decodes back to what it was made from).
- `src/text.rs`: string helpers: decimal numerals, white space, trailing
  slashes, case folding.
- `app/lib.rs`: sends the planned requests over `reqwest` (`Calls`), and
  hands each response back to the library.
