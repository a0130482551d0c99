use coindesk::{pointer_token, Bitcoin, Currency, Error, Timestamp};

fn quote(code: &str, symbol: &str, description: &str, rate: &str) -> String {
    format!(
        "{{\"code\":\"{}\",\"symbol\":\"{}\",\"description\":\"{}\",\"rate_float\":{}}}",
        code, symbol, description, rate
    )
}

fn document(usd: &str, gbp: &str, eur: &str, time: &str) -> String {
    format!(
        "{{\"bpi\":{{\"USD\":{},\"GBP\":{},\"EUR\":{}}},\"time\":{}}}",
        usd, gbp, eur, time
    )
}

fn fixture() -> String {
    document(
        &quote("USD", "&#36;", "United States Dollar", "57532.86"),
        &quote("GBP", "&pound;", "British Pound Sterling", "41359.4525"),
        &quote("EUR", "&euro;", "Euro", "47927.864"),
        "{\"updated\":\"May 5, 2021 15:58:00 UTC\",\"updatedISO\":\"2021-05-05T15:58:00+00:00\"}",
    )
}

fn format_message(r: Result<Bitcoin, Error>) -> String {
    match r {
        Err(Error::Format(m)) => m,
        other => panic!("expected a format error, got {:?}", other),
    }
}

#[test]
fn example_document_decodes() {
    let b = Bitcoin::decode(&fixture()).unwrap();
    assert_eq!(f64::from_bits(b.usd.rate_bits), 57532.86);
    assert_eq!(b.usd.rate_bits, 4678140069651855442);
    assert_eq!(b.time, Timestamp { seconds: 1620230280, nanos: 0 });
}

#[test]
fn well_formed_fixture_holds_source_values() {
    let b = Bitcoin::decode(&fixture()).unwrap();
    assert_eq!(b.usd.code, "USD");
    assert_eq!(b.usd.symbol, "&#36;");
    assert_eq!(b.usd.description, "United States Dollar");
    assert_eq!(b.gbp.code, "GBP");
    assert_eq!(b.gbp.symbol, "&pound;");
    assert_eq!(b.gbp.description, "British Pound Sterling");
    assert_eq!(f64::from_bits(b.gbp.rate_bits), 41359.4525);
    assert_eq!(b.eur.code, "EUR");
    assert_eq!(b.eur.symbol, "&euro;");
    assert_eq!(b.eur.description, "Euro");
    assert_eq!(f64::from_bits(b.eur.rate_bits), 47927.864);
    let expected = chrono::DateTime::parse_from_rfc3339("2021-05-05T15:58:00Z").unwrap();
    assert_eq!(b.time.seconds, expected.timestamp());
}

#[test]
fn offset_is_folded_into_instant() {
    let raw = document(
        &quote("USD", "$", "d", "1"),
        &quote("GBP", "p", "d", "2"),
        &quote("EUR", "e", "d", "3"),
        "{\"updatedISO\":\"2021-05-05T16:58:00.5+01:00\"}",
    );
    let b = Bitcoin::decode(&raw).unwrap();
    assert_eq!(b.time, Timestamp { seconds: 1620230280, nanos: 500_000_000 });
    assert_eq!(f64::from_bits(b.gbp.rate_bits), 2.0);
}

#[test]
fn missing_usd_code_fails() {
    let raw = document(
        "{\"symbol\":\"$\",\"description\":\"d\",\"rate_float\":1.0}",
        &quote("GBP", "p", "d", "2"),
        &quote("EUR", "e", "d", "3"),
        "{\"updatedISO\":\"2021-05-05T15:58:00+00:00\"}",
    );
    assert_eq!(format_message(Bitcoin::decode(&raw)), "Couldn't find code");
}

#[test]
fn missing_gbp_rate_fails() {
    let raw = document(
        &quote("USD", "$", "d", "1"),
        "{\"code\":\"GBP\",\"symbol\":\"p\",\"description\":\"d\"}",
        &quote("EUR", "e", "d", "3"),
        "{\"updatedISO\":\"2021-05-05T15:58:00+00:00\"}",
    );
    assert_eq!(format_message(Bitcoin::decode(&raw)), "Couldn't find rate");
}

#[test]
fn missing_eur_symbol_fails() {
    let raw = document(
        &quote("USD", "$", "d", "1"),
        &quote("GBP", "p", "d", "2"),
        "{\"code\":\"EUR\",\"description\":\"d\",\"rate_float\":3}",
        "{\"updatedISO\":\"2021-05-05T15:58:00+00:00\"}",
    );
    assert_eq!(format_message(Bitcoin::decode(&raw)), "Couldn't find symbol");
}

#[test]
fn missing_update_time_fails() {
    let raw = document(
        &quote("USD", "$", "d", "1"),
        &quote("GBP", "p", "d", "2"),
        &quote("EUR", "e", "d", "3"),
        "{\"updated\":\"May 5\"}",
    );
    assert_eq!(format_message(Bitcoin::decode(&raw)), "Couldn't find updatedISO");
}

#[test]
fn first_failure_decides() {
    let raw = document(
        "{\"code\":\"USD\",\"symbol\":\"$\",\"rate_float\":1}",
        "{}",
        &quote("EUR", "e", "d", "3"),
        "{}",
    );
    assert_eq!(format_message(Bitcoin::decode(&raw)), "Couldn't find description");
}

#[test]
fn non_json_input_fails_with_message() {
    let m = format_message(Bitcoin::decode("this is not json"));
    assert!(!m.is_empty());
    let m = format_message(Bitcoin::decode(""));
    assert!(!m.is_empty());
}

#[test]
fn string_rate_is_not_coerced() {
    let raw = document(
        &quote("USD", "$", "d", "\"57532.86\""),
        &quote("GBP", "p", "d", "2"),
        &quote("EUR", "e", "d", "3"),
        "{\"updatedISO\":\"2021-05-05T15:58:00+00:00\"}",
    );
    assert_eq!(format_message(Bitcoin::decode(&raw)), "Couldn't find rate");
}

#[test]
fn wrongly_typed_code_fails() {
    let raw = document(
        &quote("USD", "$", "d", "1"),
        "{\"code\":7,\"symbol\":\"p\",\"description\":\"d\",\"rate_float\":2}",
        &quote("EUR", "e", "d", "3"),
        "{\"updatedISO\":\"2021-05-05T15:58:00+00:00\"}",
    );
    assert_eq!(format_message(Bitcoin::decode(&raw)), "Couldn't find code");
}

#[test]
fn malformed_time_fails() {
    let raw = document(
        &quote("USD", "$", "d", "1"),
        &quote("GBP", "p", "d", "2"),
        &quote("EUR", "e", "d", "3"),
        "{\"updatedISO\":\"May 5, 2021\"}",
    );
    let m = format_message(Bitcoin::decode(&raw));
    assert!(m.starts_with("Couldn't format time: "));
    assert!(m.len() > "Couldn't format time: ".len());
}

#[test]
fn time_of_wrong_type_fails() {
    let raw = document(
        &quote("USD", "$", "d", "1"),
        &quote("GBP", "p", "d", "2"),
        &quote("EUR", "e", "d", "3"),
        "{\"updatedISO\":1620230280}",
    );
    assert_eq!(format_message(Bitcoin::decode(&raw)), "Couldn't find updatedISO");
}

#[test]
fn transport_failure_is_http_error() {
    let r = Bitcoin::get(Err(String::from("failed to lookup address")));
    assert_eq!(r, Err(Error::Http(String::from("failed to lookup address"))));
}

#[test]
fn get_decodes_a_body() {
    let r = Bitcoin::get(Ok(fixture()));
    assert_eq!(r, Bitcoin::decode(&fixture()));
    assert!(r.is_ok());
    let r = Bitcoin::get(Ok(String::from("<html>")));
    assert!(matches!(r, Err(Error::Format(_))));
}

#[test]
fn error_messages() {
    assert_eq!(Error::Http(String::from("timeout")).to_string(), "HTTP Error: timeout");
    assert_eq!(
        Error::Format(String::from("Couldn't find code")).to_string(),
        "Formatting Error Couldn't find code"
    );
}

#[test]
fn currency_from_document() {
    let doc: serde_json::Value = serde_json::from_str(&fixture()).unwrap();
    let c = Currency::get("GBP", &doc).unwrap();
    assert_eq!(c.code, "GBP");
    assert_eq!(c.description, "British Pound Sterling");
    assert!(Currency::get("JPY", &doc).is_err());
}

#[test]
fn currency_label_with_separator() {
    let doc: serde_json::Value =
        serde_json::from_str(&format!("{{\"bpi\":{{\"a/b~c\":{}}}}}", quote("X", "x", "d", "0.5")))
            .unwrap();
    let c = Currency::get("a/b~c", &doc).unwrap();
    assert_eq!(c.code, "X");
    assert_eq!(f64::from_bits(c.rate_bits), 0.5);
}

#[test]
fn pointer_token_escapes() {
    assert_eq!(pointer_token("a/b~c"), "a~1b~0c");
    assert_eq!(pointer_token("USD"), "USD");
    assert_eq!(pointer_token(""), "");
}
