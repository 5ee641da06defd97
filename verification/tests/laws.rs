use ibanchecker::error::ApiError;
use ibanchecker::{
    escape, read_document, read_model, read_reply, read_response, BankRecord, BatchResult, BbanField, Client, Error,
    FormatSpec, HttpMethod, Json, JsonNumber, Model, ValidationResult, DEFAULT_BASE_URL,
};

fn s(x: &str) -> Json {
    Json::String(x.to_string())
}

fn obj(members: Vec<(&str, Json)>) -> Json {
    Json::Object(members.into_iter().map(|(k, v)| (k.to_string(), v)).collect())
}

fn unescape(text: &str) -> Vec<u8> {
    let b = text.as_bytes();
    let mut out = Vec::new();
    let mut i = 0;
    while i < b.len() {
        if b[i] == b'%' && i + 2 < b.len() {
            out.push(u8::from_str_radix(&text[i + 1..i + 3], 16).unwrap());
            i += 3;
        } else {
            out.push(b[i]);
            i += 1;
        }
    }
    out
}

#[test]
fn escape_keeps_unreserved_characters() {
    assert_eq!(escape("AZaz09-._~"), "AZaz09-._~");
    assert_eq!(escape(""), "");
}

#[test]
fn escape_encodes_everything_else_in_upper_case_hex() {
    assert_eq!(escape("a b/c?d#e%"), "a%20b%2Fc%3Fd%23e%25");
    assert_eq!(escape("ü"), "%C3%BC");
    assert_eq!(escape("\n"), "%0A");
}

#[test]
fn escape_round_trips_and_stays_in_its_segment() {
    for value in ["de/../admin", "ä ö ü", "100%", "a+b=c&d", "~ok~", "\u{1F600}"] {
        let e = escape(value);
        assert_eq!(unescape(&e), value.as_bytes());
        assert!(e.chars().all(|c| c.is_ascii_alphanumeric() || "-._~%".contains(c)));
        assert!(!e.contains('/'));
    }
}

#[test]
fn the_base_url_trims_every_trailing_slash() {
    let once = Client::builder().base_url("http://h/api").build().unwrap();
    let many = Client::builder().base_url("http://h/api///").build().unwrap();
    assert_eq!(once.validate_request("x").url, "http://h/api/validate");
    assert_eq!(many.validate_request("x").url, "http://h/api/validate");
}

#[test]
fn the_default_base_url_is_production() {
    let client = Client::builder().build().unwrap();
    assert_eq!(client.validate_request("x").url, format!("{}/validate", DEFAULT_BASE_URL));
    let with_key = Client::with_api_key("k").unwrap();
    assert_eq!(with_key.extract_request("x").url, format!("{}/extract", DEFAULT_BASE_URL));
}

#[test]
fn headers_come_in_a_fixed_order() {
    let client = Client::builder().base_url("http://h").api_key("key").build().unwrap();
    let req = client.lookup_bic_request("deutdeff");
    let names: Vec<&str> = req.headers.iter().map(|(k, _)| k.as_str()).collect();
    assert_eq!(names, vec!["accept", "user-agent", "authorization"]);
    assert_eq!(req.method, HttpMethod::Get);
    assert!(req.body.is_none());

    let post = client.validate_bulk_request(&[]);
    let names: Vec<&str> = post.headers.iter().map(|(k, _)| k.as_str()).collect();
    assert_eq!(names, vec!["accept", "user-agent", "authorization", "content-type"]);
    assert_eq!(post.headers[3].1, "application/json");
}

#[test]
fn paths_fold_case_beyond_ascii() {
    let client = Client::builder().base_url("http://h").build().unwrap();
    assert_eq!(client.country_format_request("ÄT").url, "http://h/formats/%C3%A4t");
    assert_eq!(client.lookup_bic_request("straße").url, "http://h/swift/STRASSE");
}

#[test]
fn a_document_in_array_form_reads_field_by_position() {
    let field: BbanField = read_model(
        200,
        None,
        "[...]",
        Some(Json::Array(vec![s("BLZ"), Json::Number(JsonNumber::PosInt(8))])),
    )
    .unwrap();
    assert_eq!(field.label, "BLZ");
    assert_eq!(field.length, 8);
    assert_eq!(field.type_, "");

    let too_long = Json::Array(vec![Json::Null, Json::Null, Json::Null, Json::Null, Json::Null]);
    assert!(read_model::<BbanField>(200, None, "[...]", Some(too_long)).is_err());
}

#[test]
fn a_field_of_the_wrong_type_fails_the_whole_response() {
    let doc = obj(vec![("valid", s("yes"))]);
    let err = read_model::<ValidationResult>(200, None, "{...}", Some(doc)).unwrap_err();
    assert!(matches!(err, Error::Api(_)));
    assert_eq!(err.status(), Some(200));
    assert!(err.to_string().contains("could not decode the response"));

    let overflow = obj(vec![("count", Json::Number(JsonNumber::PosInt(1 << 33)))]);
    assert!(read_model::<BatchResult>(200, None, "{...}", Some(overflow)).is_err());
    let negative = obj(vec![("length", Json::Number(JsonNumber::NegInt(-1)))]);
    assert!(read_model::<FormatSpec>(200, None, "{...}", Some(negative)).is_err());
    let float = obj(vec![("length", Json::Number(JsonNumber::Float("1.5".to_string())))]);
    assert!(read_model::<FormatSpec>(200, None, "{...}", Some(float)).is_err());
    let not_a_list = obj(vec![("results", s("none"))]);
    assert!(read_model::<BatchResult>(200, None, "{...}", Some(not_a_list)).is_err());
    let null_element = obj(vec![("results", Json::Array(vec![Json::Null]))]);
    assert!(read_model::<BatchResult>(200, None, "{...}", Some(null_element)).is_err());
}

#[test]
fn a_document_that_is_not_an_object_or_array_is_refused() {
    assert!(read_model::<BankRecord>(200, None, "\"x\"", Some(s("x"))).is_err());
    assert!(read_model::<BankRecord>(200, None, "1", Some(Json::Number(JsonNumber::PosInt(1)))).is_err());
}

#[test]
fn a_null_member_reads_as_an_absent_one() {
    let with_null: ValidationResult =
        read_model(200, None, "{...}", Some(obj(vec![("iban", s("X")), ("bic", Json::Null)]))).unwrap();
    let without: ValidationResult =
        read_model(200, None, "{...}", Some(obj(vec![("iban", s("X"))]))).unwrap();
    assert_eq!(with_null.bic, without.bic);
    assert_eq!(with_null.iban, without.iban);
    assert_eq!(with_null.sepa, without.sepa);
    assert_ne!(with_null.raw, without.raw);
}

#[test]
fn unknown_members_are_ignored() {
    let bank: BankRecord =
        read_model(200, None, "{...}", Some(obj(vec![("later", s("x")), ("bic", s("B"))]))).unwrap();
    assert_eq!(bank.bic, "B");
}

#[test]
fn a_blank_body_counts_as_empty_whatever_the_reader_made_of_it() {
    let err = read_response(200, None, " \t\r\n\u{3000}", Some(s("ignored"))).unwrap_err();
    assert!(err.to_string().contains("empty body"));
    let err = read_response(500, None, "  ", Some(s("ignored"))).unwrap_err();
    assert!(err.api().unwrap().body.is_none());
}

#[test]
fn white_space_is_the_unicode_property() {
    for c in (0u32..=0x10FFFF).filter_map(char::from_u32) {
        let text = c.to_string();
        let err = read_response(200, None, &text, None).unwrap_err();
        let blank = err.to_string().contains("empty body");
        assert_eq!(blank, c.is_whitespace(), "{:?}", c);
    }
}

#[test]
fn a_redirect_without_a_location_still_refuses() {
    for status in [300u16, 302, 307, 399] {
        let err = read_response(status, None, "", None).unwrap_err();
        assert!(matches!(err, Error::Api(_)));
        assert_eq!(err.status(), Some(status));
        assert!(err.to_string().contains("another address"));
    }
}

#[test]
fn other_statuses_read_the_body() {
    let doc = read_response(204, None, "{}", Some(obj(vec![]))).unwrap();
    assert_eq!(doc, obj(vec![]));
    let doc = read_response(600, None, "{}", Some(obj(vec![]))).unwrap();
    assert_eq!(doc, obj(vec![]));
}

#[test]
fn an_error_body_without_an_error_member_names_the_status() {
    let err = Error::from_status(418, Some(obj(vec![("error_code", s("TEAPOT"))])));
    let api = err.api().unwrap();
    assert_eq!(api.message, "HTTP 418");
    assert_eq!(api.code, "TEAPOT");
    assert_eq!(err.to_string(), "ibanchecker: HTTP 418 (HTTP 418)");
    let err = Error::from_status(404, Some(obj(vec![("error", Json::Bool(true))])));
    assert!(matches!(err, Error::NotFound(_)));
    assert_eq!(err.api().unwrap().message, "HTTP 404");
    assert_eq!(Error::from_status(0, None).api().unwrap().message, "HTTP 0");
    assert_eq!(Error::from_status(65535, None).api().unwrap().message, "HTTP 65535");
}

#[test]
fn an_empty_code_is_no_code() {
    let err = Error::unreadable(200, "why");
    assert_eq!(err.code(), None);
    assert_eq!(
        err.api(),
        Some(&ApiError { status: 200, code: String::new(), message: "why".to_string(), body: None })
    );
    assert_eq!(err.to_string(), "ibanchecker: why (HTTP 200)");
}

#[test]
fn a_copy_of_a_document_is_equal_to_it() {
    let doc = obj(vec![
        ("a", Json::Array(vec![Json::Null, Json::Bool(false), Json::Number(JsonNumber::NegInt(-3))])),
        ("b", obj(vec![("c", Json::Number(JsonNumber::Float("2.5".to_string())))])),
    ]);
    assert_eq!(doc.copy(), doc);
    assert_eq!(doc.clone(), doc);
    assert_eq!(doc.get("missing"), None);
    assert_eq!(s("x").get("a"), None);
}

#[test]
fn from_json_keeps_the_document_as_raw() {
    let doc = obj(vec![("label", s("IBAN")), ("extra", Json::Null)]);
    let field = BbanField::from_json(doc.clone()).unwrap();
    assert_eq!(field.raw, doc);
}

#[test]
fn json_text_is_read_as_a_document() {
    let doc = read_document(200, None, r#"{"b": [1, -2, 2.5, "x", null, true], "a": {}}"#).unwrap();
    assert_eq!(
        doc,
        obj(vec![
            ("a", obj(vec![])),
            (
                "b",
                Json::Array(vec![
                    Json::Number(JsonNumber::PosInt(1)),
                    Json::Number(JsonNumber::NegInt(-2)),
                    Json::Number(JsonNumber::Float("2.5".to_string())),
                    s("x"),
                    Json::Null,
                    Json::Bool(true),
                ]),
            ),
        ])
    );
    assert!(read_reply::<BbanField>(200, None, "[1,").is_err());
    let field: BbanField = read_reply(200, None, r#"["IBAN", 4]"#).unwrap();
    assert_eq!((field.label.as_str(), field.length), ("IBAN", 4));
}

#[test]
fn a_document_of_the_wrong_shape_names_what_failed_and_keeps_the_body() {
    let err = read_reply::<ValidationResult>(200, None, r#"{"valid": "yes"}"#).unwrap_err();
    let api = err.api().unwrap();
    assert_eq!(api.message, "could not decode the response: the member `valid` is not a boolean");
    assert_eq!(api.body, Some(obj(vec![("valid", s("yes"))])));
    assert_eq!(api.code, "");

    let err = read_reply::<BatchResult>(
        200,
        None,
        r#"{"results": [{"iban": "A"}, {"iban": 7}]}"#,
    )
    .unwrap_err();
    assert_eq!(
        err.api().unwrap().message,
        "could not decode the response: the member `results`, element 1: the member `iban` is not a string"
    );

    let err = read_reply::<FormatSpec>(200, None, r#"{"length": -1}"#).unwrap_err();
    assert_eq!(
        err.api().unwrap().message,
        "could not decode the response: the member `length` is not an integer from 0 to 4294967295"
    );

    let err = read_reply::<BbanField>(200, None, r#"[1, 2, 3, 4, 5]"#).unwrap_err();
    assert_eq!(
        err.api().unwrap().message,
        "could not decode the response: the document is neither an object nor an array of at most 4 elements"
    );

    let err = read_reply::<BatchResult>(200, None, r#"{"results": {}}"#).unwrap_err();
    assert_eq!(
        err.api().unwrap().message,
        "could not decode the response: the member `results` is not an array"
    );
}
