//! Exchange rates: the request to the market-data service, the checks and
//! lenient decoding of its answer, and the single-slot cache of the latest
//! successful rate.
use vstd::prelude::*;
use vstd::string::*;
use vstd::utf8::*;
use crate::json::{json_error_text, json_member, json_parse, json_string, member, parse_document, string_value};
use crate::outcall::{utf8_error_text, utf8_text, HttpMethod, OutboundRequest, RawResponse, TransportError};

verus! {

/// Endpoint of the market-data service.
pub const RATE_ENDPOINT: &'static str = "https://www.alphavantage.co/query";

/// Key of the object that carries the rate in the service's answer.
pub const RATE_DATA_KEY: &'static str = "Realtime Currency Exchange Rate";

pub const FROM_CURRENCY_KEY: &'static str = "1. From_Currency Code";

pub const TO_CURRENCY_KEY: &'static str = "3. To_Currency Code";

pub const RATE_KEY: &'static str = "5. Exchange Rate";

pub const LAST_REFRESHED_KEY: &'static str = "6. Last Refreshed";

/// The rate text used when the answer gives none.
pub const DEFAULT_RATE_TEXT: &'static str = "0";

/// Largest answer accepted from the market-data service, in bytes.
pub const RATE_RESPONSE_LIMIT: u64 = 2048;

/// Execution budget of a rate request; market-data services can be slow.
pub const RATE_CYCLES: u128 = 30_000_000_000;

/// The status code of a successful answer.
pub const STATUS_OK: u64 = 200;

/// One exchange rate as the provider reported it. The rate is kept as the
/// provider's decimal text; a host reads it as a number, and text that is
/// not a number reads as zero.
#[derive(Debug)]
pub struct ExchangeRate {
    pub from_currency: String,
    pub to_currency: String,
    pub rate_text: String,
    pub last_updated: String,
}

/// The mathematical value of an `ExchangeRate`.
pub struct RateRecord {
    pub from_currency: Seq<char>,
    pub to_currency: Seq<char>,
    pub rate_text: Seq<char>,
    pub last_updated: Seq<char>,
}

impl View for ExchangeRate {
    type V = RateRecord;

    open spec fn view(&self) -> RateRecord {
        RateRecord {
            from_currency: self.from_currency@,
            to_currency: self.to_currency@,
            rate_text: self.rate_text@,
            last_updated: self.last_updated@,
        }
    }
}

impl Clone for ExchangeRate {
    fn clone(&self) -> (r: Self)
        ensures
            r == *self,
    {
        ExchangeRate {
            from_currency: self.from_currency.clone(),
            to_currency: self.to_currency.clone(),
            rate_text: self.rate_text.clone(),
            last_updated: self.last_updated.clone(),
        }
    }
}

/// Why a rate could not be fetched.
#[derive(Debug)]
pub enum FetchError {
    /// The transport failed, with its diagnostic.
    Transport(String),
    /// The service answered with a status other than 200.
    UpstreamStatus(u64),
    /// The answer's body is not UTF-8, with the decoder's message.
    Encoding(String),
    /// The answer's body is not JSON, with the parser's message.
    MalformedJson(String),
    /// The answer carries no rate object.
    NoRateData,
}

/// The mathematical value of a `FetchError`.
pub enum FetchFault {
    Transport(Seq<char>),
    UpstreamStatus(u64),
    Encoding(Seq<char>),
    MalformedJson(Seq<char>),
    NoRateData,
}

impl View for FetchError {
    type V = FetchFault;

    open spec fn view(&self) -> FetchFault {
        match self {
            FetchError::Transport(m) => FetchFault::Transport(m@),
            FetchError::UpstreamStatus(status) => FetchFault::UpstreamStatus(*status),
            FetchError::Encoding(m) => FetchFault::Encoding(m@),
            FetchError::MalformedJson(m) => FetchFault::MalformedJson(m@),
            FetchError::NoRateData => FetchFault::NoRateData,
        }
    }
}

/// Lenient field extraction: the text of a string member, or the default
/// when the member is missing or not a string.
pub open spec fn text_field(data: serde_json::Value, key: Seq<char>, default: Seq<char>) -> Seq<char> {
    match json_member(data, key) {
        Some(field) => match json_string(field) {
            Some(text) => text,
            None => default,
        },
        None => default,
    }
}

/// The rate read from the provider's rate object.
pub open spec fn record_of(data: serde_json::Value) -> RateRecord {
    RateRecord {
        from_currency: text_field(data, FROM_CURRENCY_KEY@, Seq::empty()),
        to_currency: text_field(data, TO_CURRENCY_KEY@, Seq::empty()),
        rate_text: text_field(data, RATE_KEY@, DEFAULT_RATE_TEXT@),
        last_updated: text_field(data, LAST_REFRESHED_KEY@, Seq::empty()),
    }
}

/// What a rate document decodes to: a hard failure when the text is not JSON
/// or lacks the rate object, else the leniently extracted rate.
pub open spec fn decoded(text: Seq<char>) -> Result<RateRecord, FetchFault> {
    match json_parse(text) {
        None => Err(FetchFault::MalformedJson(json_error_text(text))),
        Some(doc) => match json_member(doc, RATE_DATA_KEY@) {
            None => Err(FetchFault::NoRateData),
            Some(data) => Ok(record_of(data)),
        },
    }
}

/// What a response from the market-data service yields.
pub open spec fn answered(status: u64, body: Seq<u8>) -> Result<RateRecord, FetchFault> {
    if status != STATUS_OK {
        Err(FetchFault::UpstreamStatus(status))
    } else if !valid_utf8(body) {
        Err(FetchFault::Encoding(utf8_error_text(body)))
    } else {
        decoded(decode_utf8(body))
    }
}

/// The decimal digits of a number, without leading zeros.
pub open spec fn decimal(n: nat) -> Seq<char>
    decreases n,
{
    if n < 10 {
        seq![digit(n)]
    } else {
        decimal(n / 10) + seq![digit(n % 10)]
    }
}

/// The character of a decimal digit.
pub open spec fn digit(d: nat) -> char {
    seq!['0', '1', '2', '3', '4', '5', '6', '7', '8', '9'][d as int]
}

/// Relies on `u64`'s `to_string`: the decimal digits of the number, without
/// leading zeros.
#[verifier::external_body]
fn decimal_text(n: u64) -> (r: String)
    ensures
        r@ == decimal(n as nat),
{
    n.to_string()
}

/// The human-readable message of a fetch failure.
pub open spec fn fetch_error_text(e: FetchFault) -> Seq<char> {
    match e {
        FetchFault::Transport(m) => "HTTP request failed: "@ + m,
        FetchFault::UpstreamStatus(status) => "HTTP request failed: "@ + decimal(status as nat),
        FetchFault::Encoding(m) => "Failed to parse response body: "@ + m,
        FetchFault::MalformedJson(m) => "Failed to parse JSON: "@ + m,
        FetchFault::NoRateData => "No exchange rate data found in response"@,
    }
}

impl FetchError {
    /// The message handed to a caller for this failure.
    pub fn message(&self) -> (r: String)
        ensures
            r@ == fetch_error_text(self@),
    {
        match self {
            FetchError::Transport(m) => {
                let mut text = String::from_str("HTTP request failed: ");
                text.append(m.as_str());
                text
            },
            FetchError::UpstreamStatus(status) => {
                let mut text = String::from_str("HTTP request failed: ");
                let digits = decimal_text(*status);
                text.append(digits.as_str());
                text
            },
            FetchError::Encoding(m) => {
                let mut text = String::from_str("Failed to parse response body: ");
                text.append(m.as_str());
                text
            },
            FetchError::MalformedJson(m) => {
                let mut text = String::from_str("Failed to parse JSON: ");
                text.append(m.as_str());
                text
            },
            FetchError::NoRateData => String::from_str("No exchange rate data found in response"),
        }
    }
}

/// What the outcome of a rate request yields.
pub open spec fn fetched(outcome: Result<RawResponse, TransportError>) -> Result<RateRecord, FetchFault> {
    match outcome {
        Ok(response) => answered(response.status, response.body@),
        Err(t) => Err(FetchFault::Transport(t.message@)),
    }
}

/// An executable fetch result agrees with its mathematical value.
pub open spec fn same_outcome(r: Result<ExchangeRate, FetchError>, s: Result<RateRecord, FetchFault>) -> bool {
    match r {
        Ok(rate) => s == Ok::<RateRecord, FetchFault>(rate@),
        Err(e) => s == Err::<RateRecord, FetchFault>(e@),
    }
}

/// The URL of the query for one currency pair.
pub open spec fn rate_url(from: Seq<char>, to: Seq<char>, api_key: Seq<char>) -> Seq<char> {
    RATE_ENDPOINT@ + "?function=CURRENCY_EXCHANGE_RATE&from_currency="@ + from + "&to_currency="@ + to
        + "&apikey="@ + api_key
}

/// Reads one member leniently, as `text_field` says.
fn field_text(data: &serde_json::Value, key: &str, default: &str) -> (r: String)
    ensures
        r@ == text_field(*data, key@, default@),
{
    match member(data, key) {
        Some(field) => match string_value(field) {
            Some(text) => String::from_str(text),
            None => String::from_str(default),
        },
        None => String::from_str(default),
    }
}

/// Decodes the text of a rate document.
pub fn decode_rate_document(text: &str) -> (r: Result<ExchangeRate, FetchError>)
    ensures
        same_outcome(r, decoded(text@)),
{
    let doc = match parse_document(text) {
        Ok(doc) => doc,
        Err(m) => return Err(FetchError::MalformedJson(m)),
    };
    match member(&doc, RATE_DATA_KEY) {
        None => Err(FetchError::NoRateData),
        Some(data) => {
            proof {
                reveal_strlit("");
                assert(""@ =~= Seq::<char>::empty());
            }
            Ok(
            ExchangeRate {
                from_currency: field_text(data, FROM_CURRENCY_KEY, ""),
                to_currency: field_text(data, TO_CURRENCY_KEY, ""),
                rate_text: field_text(data, RATE_KEY, DEFAULT_RATE_TEXT),
                last_updated: field_text(data, LAST_REFRESHED_KEY, ""),
            },
        )
        },
    }
}

/// Checks a response from the market-data service and decodes its body.
pub fn check_rate_response(response: RawResponse) -> (r: Result<ExchangeRate, FetchError>)
    ensures
        same_outcome(r, answered(response.status, response.body@)),
{
    if response.status != STATUS_OK {
        return Err(FetchError::UpstreamStatus(response.status));
    }
    match utf8_text(response.body) {
        Err(m) => Err(FetchError::Encoding(m)),
        Ok(text) => decode_rate_document(text.as_str()),
    }
}

/// What the outcome of a rate request yields: the transport's failure, or
/// what the response says.
pub fn rate_outcome(outcome: Result<RawResponse, TransportError>) -> (r: Result<ExchangeRate, FetchError>)
    ensures
        same_outcome(r, fetched(outcome)),
{
    match outcome {
        Ok(response) => check_rate_response(response),
        Err(t) => Err(FetchError::Transport(t.message)),
    }
}

/// The GET request that asks the market-data service for one currency pair.
pub fn rate_request(from: &str, to: &str, api_key: &str) -> (r: OutboundRequest)
    ensures
        r.url@ == rate_url(from@, to@, api_key@),
        r.method == HttpMethod::Get,
        r.body is None,
        r.headers@.len() == 0,
        r.max_response_bytes == Some(RATE_RESPONSE_LIMIT),
        r.transform is None,
        r.cycles == RATE_CYCLES,
{
    let mut url = String::from_str(RATE_ENDPOINT);
    url.append("?function=CURRENCY_EXCHANGE_RATE&from_currency=");
    url.append(from);
    url.append("&to_currency=");
    url.append(to);
    url.append("&apikey=");
    url.append(api_key);
    OutboundRequest {
        url,
        method: HttpMethod::Get,
        body: None,
        headers: Vec::new(),
        max_response_bytes: Some(RATE_RESPONSE_LIMIT),
        transform: None,
        cycles: RATE_CYCLES,
    }
}

/// The value of an optional rate.
pub open spec fn record_option(o: Option<ExchangeRate>) -> Option<RateRecord> {
    match o {
        Some(rate) => Some(rate@),
        None => None,
    }
}

/// What the cache holds after a fetch with the given result: the new rate
/// on success, the old content on failure.
pub open spec fn after_fetch(before: Option<RateRecord>, result: Result<RateRecord, FetchFault>) -> Option<RateRecord> {
    match result {
        Ok(rate) => Some(rate),
        Err(_) => before,
    }
}

/// After a successful fetch the cache holds exactly the rate just fetched.
pub proof fn lemma_success_is_cached(before: Option<RateRecord>, rate: RateRecord)
    ensures
        after_fetch(before, Ok(rate)) == Some(rate),
{
}

/// A failed fetch leaves the cache as it was.
pub proof fn lemma_failure_keeps_cache(before: Option<RateRecord>, e: FetchFault)
    ensures
        after_fetch(before, Err(e)) == before,
{
}

/// Holds the most recent successfully fetched rate, or none.
#[derive(Debug)]
pub struct RateCache {
    latest: Option<ExchangeRate>,
}

impl View for RateCache {
    type V = Option<RateRecord>;

    closed spec fn view(&self) -> Option<RateRecord> {
        record_option(self.latest)
    }
}

impl RateCache {
    /// An empty cache.
    pub fn new() -> (r: Self)
        ensures
            r@ is None,
    {
        RateCache { latest: None }
    }

    /// A copy of the cached rate, without any I/O.
    pub fn read(&self) -> (r: Option<ExchangeRate>)
        ensures
            record_option(r) == self@,
    {
        match &self.latest {
            Some(rate) => Some(rate.clone()),
            None => None,
        }
    }

    /// Replaces the cached rate wholesale.
    pub fn write(&mut self, rate: ExchangeRate)
        ensures
            final(self)@ == Some(rate@),
    {
        self.latest = Some(rate);
    }
}

} // verus!
