use ibanchecker::{
    read_reply, BankRecord, BatchResult, Client, Error, FormatSpec, HttpMethod, HttpRequest, Json,
    Model, ValidationResult, VERSION,
};

const BASE: &str = "http://127.0.0.1:9";

fn s(x: &str) -> Json {
    Json::String(x.to_string())
}

fn obj(members: Vec<(&str, Json)>) -> Json {
    Json::Object(members.into_iter().map(|(k, v)| (k.to_string(), v)).collect())
}

fn client() -> Client {
    Client::builder().base_url(BASE).build().unwrap()
}

fn header<'a>(req: &'a HttpRequest, name: &str) -> Option<&'a str> {
    req.headers.iter().find(|(k, _)| k == name).map(|(_, v)| v.as_str())
}

fn path(req: &HttpRequest) -> &str {
    &req.url[BASE.len()..]
}

/// Reads a 200 response whose body is `text`.
fn ok<T: Model>(text: &str) -> Result<T, Error> {
    read_reply::<T>(200, None, text)
}

#[test]
fn validate_returns_a_populated_result() {
    let req = client().validate_request("DE89 3704 0044 0532 0130 00");
    assert_eq!(req.method, HttpMethod::Post);
    assert_eq!(path(&req), "/validate");
    assert_eq!(req.body, Some(obj(vec![("iban", s("DE89 3704 0044 0532 0130 00"))])));
    assert_eq!(header(&req, "content-type"), Some("application/json"));

    let result: ValidationResult = ok(r#"{
        "valid": true,
        "iban": "DE89370400440532013000",
        "formatted": "DE89 3704 0044 0532 0130 00",
        "country": "DE",
        "country_name": "Germany",
        "bank_name": "Commerzbank AG Cologne",
        "bic": "COBADEFFXXX",
        "bank_city": "Köln",
        "sepa": true,
        "national_check_valid": true
    }"#)
    .unwrap();

    assert!(result.valid);
    assert_eq!(result.country_name, "Germany");
    assert_eq!(result.bic, "COBADEFFXXX");
    assert_eq!(result.bank_city, "Köln");
    assert_eq!(result.sepa, Some(true));
    assert_eq!(result.national_check_valid, Some(true));
    assert_eq!(result.raw.get("iban"), Some(&s("DE89370400440532013000")));
}

#[test]
fn a_malformed_iban_is_a_result_not_an_error() {
    let result: ValidationResult = ok(r#"{
        "valid": false,
        "iban": "XX00",
        "country": "XX",
        "error": "\"XX\" is not a recognized IBAN country code.",
        "error_code": "INVALID_COUNTRY"
    }"#)
    .unwrap();

    assert!(!result.valid);
    assert_eq!(result.error_code, "INVALID_COUNTRY");
    assert_eq!(result.error, "\"XX\" is not a recognized IBAN country code.");
    assert_eq!(result.national_check_valid, None);
    assert_eq!(result.bank_name, "");
}

/// The API sends an explicit null for a field a country's format does not
/// have, rather than omitting the key.
#[test]
fn explicit_nulls_are_read_as_absent() {
    let result: ValidationResult = ok(r#"{
        "valid": true,
        "iban": "DE89370400440532013000",
        "branch_code": null,
        "bank_name": null,
        "national_check_valid": null,
        "sepa": null
    }"#)
    .unwrap();

    assert_eq!(result.branch_code, "");
    assert_eq!(result.bank_name, "");
    assert_eq!(result.national_check_valid, None);
    assert_eq!(result.sepa, None);
    assert_eq!(result.raw.get("branch_code"), Some(&Json::Null), "raw keeps the null");
}

/// The same for a list and for the nested models inside one.
#[test]
fn explicit_nulls_are_read_as_absent_in_nested_models() {
    let spec: FormatSpec = ok(r#"{
        "country_code": "DE",
        "length": 22,
        "bban_fields": [{ "label": "BLZ", "length": 8, "type": null, "description": null }],
        "sepa": null
    }"#)
    .unwrap();

    assert_eq!(spec.sepa, None);
    assert_eq!(spec.bban_fields.len(), 1);
    assert_eq!(spec.bban_fields[0].type_, "");
    assert_eq!(spec.bban_fields[0].description, "");
}

#[test]
fn a_null_list_is_read_as_empty() {
    let batch: BatchResult = ok(r#"{ "count": 0, "results": null }"#).unwrap();
    assert!(batch.results.is_empty());
}

#[test]
fn a_national_check_of_false_is_not_absent() {
    let result: ValidationResult = ok(
        r#"{ "valid": true, "iban": "DE84100100100532013000", "national_check_valid": false }"#,
    )
    .unwrap();
    assert_eq!(result.national_check_valid, Some(false));
}

#[test]
fn the_api_key_becomes_a_bearer_header_and_is_omitted_without_one() {
    let with_key = Client::builder().base_url(BASE).api_key("iban_test_key").build().unwrap();
    let req = with_key.validate_request("DE89");
    assert_eq!(header(&req, "authorization"), Some("Bearer iban_test_key"));

    let without_key = Client::builder().base_url(BASE).build().unwrap();
    assert_eq!(header(&without_key.validate_request("DE89"), "authorization"), None);

    // An empty key is the same as no key.
    let empty_key = Client::builder().base_url(BASE).api_key("").build().unwrap();
    assert_eq!(header(&empty_key.validate_request("DE89"), "authorization"), None);
}

#[test]
fn the_user_agent_carries_the_client_version() {
    let req = client().validate_request("DE89");
    assert_eq!(
        header(&req, "user-agent"),
        Some(format!("ibanchecker-rust/{}", VERSION).as_str())
    );
    assert_eq!(header(&req, "accept"), Some("application/json"));
}

#[test]
fn validate_bulk_keeps_input_order_and_counts() {
    let req = client().validate_bulk_request(&[
        "DE89370400440532013000".to_string(),
        "XX00".to_string(),
    ]);
    assert_eq!(path(&req), "/validate/bulk");
    assert_eq!(
        req.body,
        Some(obj(vec![(
            "ibans",
            Json::Array(vec![s("DE89370400440532013000"), s("XX00")])
        )]))
    );

    let batch: BatchResult = ok(r#"{
        "count": 2, "valid_count": 1, "invalid_count": 1,
        "results": [
            { "valid": true, "iban": "DE89370400440532013000" },
            { "valid": false, "iban": "XX00" }
        ]
    }"#)
    .unwrap();

    assert_eq!((batch.count, batch.valid_count, batch.invalid_count), (2, 1, 1));
    assert_eq!(batch.results.len(), 2);
    assert_eq!(batch.results[0].iban, "DE89370400440532013000");
    assert_eq!(batch.results[1].iban, "XX00");
    assert_eq!(
        batch.results[0].raw.get("iban"),
        Some(&s("DE89370400440532013000")),
        "nested results should keep their own raw"
    );
}

#[test]
fn validate_bulk_sends_an_empty_array_not_null() {
    let req = client().validate_bulk_request(&[]);
    assert_eq!(req.body, Some(obj(vec![("ibans", Json::Array(vec![]))])));
}

#[test]
fn extract_reads_ibans_out_of_text() {
    let text = "Please wire to DE89 3704 0044 0532 0130 00 by Friday.";
    let req = client().extract_request(text);
    assert_eq!(path(&req), "/extract");
    assert_eq!(req.body, Some(obj(vec![("text", s(text))])));

    let batch: BatchResult = ok(r#"{
        "count": 1, "valid_count": 1, "invalid_count": 0,
        "results": [{
            "valid": true,
            "iban": "DE89370400440532013000",
            "bank_name": "Commerzbank AG Cologne"
        }]
    }"#)
    .unwrap();

    assert_eq!(batch.results.len(), 1);
    assert_eq!(batch.results[0].bank_name, "Commerzbank AG Cologne");
}

#[test]
fn country_format_parses_bban_fields() {
    let spec: FormatSpec = ok(r#"{
        "country_code": "DE", "country_name": "Germany", "length": 22,
        "sepa": true, "swift": true, "example": "DE89370400440532013000",
        "bban_fields": [
            { "label": "BLZ", "length": 8, "type": "numeric", "description": "8-digit Bankleitzahl" },
            { "label": "Account No.", "length": 10, "type": "numeric" }
        ]
    }"#)
    .unwrap();

    assert_eq!(spec.length, 22);
    assert_eq!(spec.sepa, Some(true));
    assert_eq!(spec.swift, Some(true));
    assert_eq!(spec.bban_fields.len(), 2);
    assert_eq!(spec.bban_fields[0].label, "BLZ");
    assert_eq!(spec.bban_fields[0].length, 8);
    assert_eq!(spec.bban_fields[0].type_, "numeric");
    assert_eq!(spec.bban_fields[1].length, 10);
    assert_eq!(spec.bban_fields[1].description, "");

    let req = client().country_format_request("DE");
    assert_eq!(req.method, HttpMethod::Get);
    assert_eq!(path(&req), "/formats/de", "the country code should be lowercased");
    assert!(req.body.is_none(), "a GET should send no body");
    assert_eq!(header(&req, "content-type"), None);
}

#[test]
fn lookup_bic_uppercases_the_path() {
    let bank: BankRecord = ok(r#"{
        "bic": "DEUTDEFFXXX", "bic8": "DEUTDEFF",
        "bank_name": "Deutsche Bank AG Frankfurt", "city": "FRANKFURT AM MAIN",
        "sepa": true, "type": "private", "status": "active"
    }"#)
    .unwrap();

    assert_eq!(bank.bank_name, "Deutsche Bank AG Frankfurt");
    assert_eq!(bank.bic8, "DEUTDEFF");
    assert_eq!(bank.type_, "private");
    assert_eq!(bank.status, "active");
    assert_eq!(path(&client().lookup_bic_request("deutdeff")), "/swift/DEUTDEFF");
}

#[test]
fn path_segments_are_escaped() {
    let req = client().lookup_bic_request("de/../admin");
    assert_eq!(
        req.url.rsplit('/').next().unwrap(),
        "DE%2F..%2FADMIN",
        "the separators should not climb out of the segment"
    );
}

#[test]
fn error_statuses_map_to_variants() {
    for status in [400u16, 401, 404, 429, 500, 503] {
        let err = read_reply::<BankRecord>(
            status,
            None,
            r#"{ "error": "nope", "error_code": "SOME_CODE" }"#,
        )
        .unwrap_err();

        let matched = matches!(
            (status, &err),
            (400, Error::BadRequest(_))
                | (401, Error::Authentication(_))
                | (404, Error::NotFound(_))
                | (429, Error::RateLimit(_))
                | (500, Error::Api(_))
                | (503, Error::Api(_))
        );
        assert!(matched, "HTTP {status} produced {err:?}");

        let api = err.api().expect("an API error");
        assert_eq!(api.status, status);
        assert_eq!(api.code, "SOME_CODE");
        assert_eq!(api.message, "nope");
        assert_eq!(api.body.as_ref().unwrap().get("error_code"), Some(&s("SOME_CODE")));
        assert_eq!(err.status(), Some(status));
        assert_eq!(err.code(), Some("SOME_CODE"));
        assert!(err.to_string().contains("nope"));
    }
}

#[test]
fn an_error_status_without_a_json_body_still_carries_the_status() {
    let err = read_reply::<ValidationResult>(502, None, "<html>bad gateway</html>").unwrap_err();
    assert!(matches!(err, Error::Api(_)));

    let api = err.api().unwrap();
    assert_eq!(api.status, 502);
    assert_eq!(api.message, "HTTP 502");
    assert_eq!(api.code, "");
    assert!(api.body.is_none());
    assert_eq!(err.code(), None);
}

#[test]
fn a_non_json_body_on_a_successful_status_is_an_error() {
    let err = read_reply::<ValidationResult>(200, None, "<html>maintenance</html>").unwrap_err();
    assert!(err.to_string().contains("not JSON"), "{}", err.to_string());
}

#[test]
fn an_empty_body_on_a_successful_status_is_an_error() {
    let err = read_reply::<ValidationResult>(200, None, "").unwrap_err();
    assert!(err.to_string().contains("empty body"), "{}", err.to_string());
}

#[test]
fn a_redirect_is_refused_with_the_target_named() {
    let err = read_reply::<ValidationResult>(
        301,
        Some("https://elsewhere.test/api/v1/validate"),
        "",
    )
    .unwrap_err();

    let message = err.to_string();
    assert!(message.contains("refusing to follow the redirect"), "{message}");
    assert!(
        message.contains("https://elsewhere.test/api/v1/validate"),
        "the target should be named: {message}"
    );
}

#[test]
fn the_base_url_drops_a_trailing_slash() {
    let with_slash = Client::builder().base_url(&format!("{}/", BASE)).build().unwrap();
    let req = with_slash.validate_request("DE89");
    assert_eq!(req.url, format!("{}/validate", BASE), "a doubled slash would show up here");
}

#[test]
fn a_failed_request_is_a_transport_error() {
    let transport = reqwest::Client::new().get("not a url").build().unwrap_err();
    let err = Error::from(transport);
    assert!(matches!(err, Error::Transport(_)), "{err:?}");
    assert_eq!(err.api(), None);
    assert_eq!(err.status(), None);
    assert_eq!(err.code(), None);
    assert!(err.to_string().starts_with("ibanchecker: request failed: "));
}
