use classroom_backend::outcall::{HttpMethod, RawResponse, TransportError};
use classroom_backend::rate::{check_rate_response, decode_rate_document, rate_request, FetchError, RateCache};
use classroom_backend::service::FinanceCanister;

const DOCUMENT: &str = "{\"Realtime Currency Exchange Rate\": {\"1. From_Currency Code\":\"USD\",\"3. To_Currency Code\":\"EUR\",\"5. Exchange Rate\":\"0.9123\",\"6. Last Refreshed\":\"2024-01-01 00:00:00\"}}";

fn response(status: u64, body: &str) -> Result<RawResponse, TransportError> {
    Ok(RawResponse { status, body: body.as_bytes().to_vec(), headers: Vec::new() })
}

fn rate_number(text: &str) -> f64 {
    text.parse().unwrap_or(0.0)
}

#[test]
fn full_document_yields_rate() {
    let mut service = FinanceCanister::new("demo".to_string());
    let rate = service.get_exchange_rate(response(200, DOCUMENT)).unwrap();
    assert_eq!(rate.from_currency, "USD");
    assert_eq!(rate.to_currency, "EUR");
    assert_eq!(rate.rate_text, "0.9123");
    assert_eq!(rate_number(&rate.rate_text), 0.9123);
    assert_eq!(rate.last_updated, "2024-01-01 00:00:00");
}

#[test]
fn non_numeric_rate_reads_as_zero() {
    let doc = DOCUMENT.replace("0.9123", "n/a");
    let mut service = FinanceCanister::new("demo".to_string());
    let rate = service.get_exchange_rate(response(200, &doc)).unwrap();
    assert_eq!(rate.rate_text, "n/a");
    assert_eq!(rate_number(&rate.rate_text), 0.0);
    assert_eq!(rate.from_currency, "USD");
}

#[test]
fn missing_fields_take_defaults() {
    let rate = decode_rate_document("{\"Realtime Currency Exchange Rate\": {\"1. From_Currency Code\": 5}}").unwrap();
    assert_eq!(rate.from_currency, "");
    assert_eq!(rate.to_currency, "");
    assert_eq!(rate.rate_text, "0");
    assert_eq!(rate_number(&rate.rate_text), 0.0);
    assert_eq!(rate.last_updated, "");
}

#[test]
fn status_404_fails_and_keeps_cache() {
    let mut service = FinanceCanister::new("demo".to_string());
    service.get_exchange_rate(response(200, DOCUMENT)).unwrap();
    let err = service.get_exchange_rate(response(404, DOCUMENT)).unwrap_err();
    assert_eq!(err, "HTTP request failed: 404");
    let cached = service.get_latest_rate().unwrap();
    assert_eq!(cached.rate_text, "0.9123");
    assert_eq!(cached.from_currency, "USD");
}

#[test]
fn status_error_variant() {
    let r = check_rate_response(RawResponse { status: 404, body: Vec::new(), headers: Vec::new() });
    assert!(matches!(r, Err(FetchError::UpstreamStatus(404))));
}

#[test]
fn no_rate_data_key() {
    assert!(matches!(decode_rate_document("{\"foo\": \"bar\"}"), Err(FetchError::NoRateData)));
    let mut service = FinanceCanister::new("demo".to_string());
    let err = service.get_exchange_rate(response(200, "{\"foo\": \"bar\"}")).unwrap_err();
    assert_eq!(err, "No exchange rate data found in response");
    assert!(service.get_latest_rate().is_none());
}

#[test]
fn rate_data_in_non_object_is_missing() {
    assert!(matches!(decode_rate_document("[1, 2]"), Err(FetchError::NoRateData)));
}

#[test]
fn malformed_json() {
    let detail = match decode_rate_document("{not json") {
        Err(FetchError::MalformedJson(m)) => m,
        other => panic!("unexpected {:?}", other),
    };
    assert!(!detail.is_empty());
    let mut service = FinanceCanister::new("demo".to_string());
    let err = service.get_exchange_rate(response(200, "{not json")).unwrap_err();
    assert_eq!(err, format!("Failed to parse JSON: {}", detail));
    assert!(service.get_latest_rate().is_none());
}

#[test]
fn non_utf8_body() {
    let r = check_rate_response(RawResponse { status: 200, body: vec![0xff, 0xfe], headers: Vec::new() });
    let detail = match r {
        Err(FetchError::Encoding(m)) => m,
        other => panic!("unexpected {:?}", other),
    };
    assert_eq!(detail, String::from_utf8(vec![0xff, 0xfe]).unwrap_err().to_string());
    let mut service = FinanceCanister::new("demo".to_string());
    let err = service
        .get_exchange_rate(Ok(RawResponse { status: 200, body: vec![0xff, 0xfe], headers: Vec::new() }))
        .unwrap_err();
    assert_eq!(err, format!("Failed to parse response body: {}", detail));
}

#[test]
fn transport_failure_is_reported() {
    let mut service = FinanceCanister::new("demo".to_string());
    let err = service
        .get_exchange_rate(Err(TransportError { message: "connection reset".to_string() }))
        .unwrap_err();
    assert_eq!(err, "HTTP request failed: connection reset");
    assert!(service.get_latest_rate().is_none());
}

#[test]
fn success_is_what_latest_returns() {
    let mut service = FinanceCanister::new("demo".to_string());
    assert!(service.get_latest_rate().is_none());
    let rate = service.get_exchange_rate(response(200, DOCUMENT)).unwrap();
    let latest = service.get_latest_rate().unwrap();
    assert_eq!(latest.from_currency, rate.from_currency);
    assert_eq!(latest.to_currency, rate.to_currency);
    assert_eq!(latest.rate_text, rate.rate_text);
    assert_eq!(latest.last_updated, rate.last_updated);
    let newer = DOCUMENT.replace("0.9123", "0.95");
    service.get_exchange_rate(response(200, &newer)).unwrap();
    assert_eq!(service.get_latest_rate().unwrap().rate_text, "0.95");
}

#[test]
fn failure_keeps_latest() {
    let mut service = FinanceCanister::new("demo".to_string());
    service.get_exchange_rate(response(200, DOCUMENT)).unwrap();
    assert!(service.get_exchange_rate(response(200, "{\"foo\": \"bar\"}")).is_err());
    assert!(service.get_exchange_rate(response(500, DOCUMENT)).is_err());
    assert!(service.get_exchange_rate(Err(TransportError { message: "x".to_string() })).is_err());
    assert_eq!(service.get_latest_rate().unwrap().rate_text, "0.9123");
}

#[test]
fn status_message_has_decimal_code() {
    assert_eq!(FetchError::UpstreamStatus(503).message(), "HTTP request failed: 503");
    assert_eq!(FetchError::UpstreamStatus(0).message(), "HTTP request failed: 0");
}

#[test]
fn rate_request_url() {
    let req = rate_request("USD", "EUR", "KEY");
    assert_eq!(
        req.url,
        "https://www.alphavantage.co/query?function=CURRENCY_EXCHANGE_RATE&from_currency=USD&to_currency=EUR&apikey=KEY"
    );
    assert_eq!(req.method, HttpMethod::Get);
    assert!(req.body.is_none());
    assert!(req.headers.is_empty());
    assert_eq!(req.max_response_bytes, Some(2048));
    assert!(req.transform.is_none());
    assert_eq!(req.cycles, 30_000_000_000);
}

#[test]
fn service_request_uses_configured_key() {
    let service = FinanceCanister::new("SECRET".to_string());
    let req = service.exchange_rate_request("GBP", "JPY");
    assert!(req.url.ends_with("from_currency=GBP&to_currency=JPY&apikey=SECRET"));
}

#[test]
fn cache_read_and_write() {
    let mut cache = RateCache::new();
    assert!(cache.read().is_none());
    let rate = decode_rate_document(DOCUMENT).unwrap();
    cache.write(rate);
    assert_eq!(cache.read().unwrap().to_currency, "EUR");
}
