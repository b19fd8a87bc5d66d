//! The operations the backend exposes. The service owns the rate cache and
//! the market-data API key, which comes from configuration. Each networked
//! operation is split around its outbound call: one method builds the
//! request, another takes what the transport returned.
use vstd::prelude::*;
use vstd::string::*;
use crate::goal::{submit_error_text, submit_outcome, submitted};
use crate::outcall::{HttpMethod, OutboundRequest, RawResponse, TransportError};
use crate::rate::{
    after_fetch, fetch_error_text, fetched, rate_outcome, rate_request, rate_url, record_option,
    ExchangeRate, RateCache, RateRecord, RATE_CYCLES, RATE_RESPONSE_LIMIT,
};

verus! {

/// The fixed answer of the health check.
pub const HEALTHY: &'static str = "Canister is healthy";

/// Reports that the service is up, whatever its state.
pub fn health_check() -> (r: String)
    ensures
        r@ == HEALTHY@,
{
    String::from_str(HEALTHY)
}

/// Finishes a goal submission from what the transport returned.
pub fn submit_financial_goal(outcome: Result<RawResponse, TransportError>) -> (r: Result<(), String>)
    ensures
        match submitted(outcome) {
            Ok(()) => r is Ok,
            Err(e) => r matches Err(m) && m@ == submit_error_text(e),
        },
        outcome matches Err(t) ==> r matches Err(m) && m@.len() >= t.message@.len() && m@.subrange(
            m@.len() - t.message@.len(),
            m@.len() as int,
        ) == t.message@,
{
    let ghost diagnostic = match &outcome {
        Ok(_) => Seq::<char>::empty(),
        Err(t) => t.message@,
    };
    let ghost failed = outcome is Err;
    match submit_outcome(outcome) {
        Ok(()) => Ok(()),
        Err(e) => {
            let m = e.message();
            assert(failed ==> m@.subrange(m@.len() - diagnostic.len(), m@.len() as int) =~= diagnostic);
            Err(m)
        },
    }
}

/// The backend's state: the latest rate and the market-data API key.
#[derive(Debug)]
pub struct FinanceCanister {
    cache: RateCache,
    api_key: String,
}

impl FinanceCanister {
    /// The rate the cache holds.
    pub closed spec fn latest(&self) -> Option<RateRecord> {
        self.cache@
    }

    /// The market-data API key.
    pub closed spec fn key(&self) -> Seq<char> {
        self.api_key@
    }

    /// A fresh service with an empty cache.
    pub fn new(api_key: String) -> (r: Self)
        ensures
            r.latest() is None,
            r.key() == api_key@,
    {
        FinanceCanister { cache: RateCache::new(), api_key }
    }

    /// The request that fetches the rate of one currency pair.
    pub fn exchange_rate_request(&self, from_currency: &str, to_currency: &str) -> (r: OutboundRequest)
        ensures
            r.url@ == rate_url(from_currency@, to_currency@, self.key()),
            r.method == HttpMethod::Get,
            r.body is None,
            r.headers@.len() == 0,
            r.max_response_bytes == Some(RATE_RESPONSE_LIMIT),
            r.transform is None,
            r.cycles == RATE_CYCLES,
    {
        rate_request(from_currency, to_currency, self.api_key.as_str())
    }

    /// Finishes a rate fetch from what the transport returned. A success
    /// replaces the cached rate; a failure leaves the cache alone.
    pub fn get_exchange_rate(&mut self, outcome: Result<RawResponse, TransportError>) -> (r: Result<ExchangeRate, String>)
        ensures
            match fetched(outcome) {
                Ok(rate) => r matches Ok(x) && x@ == rate,
                Err(e) => r matches Err(m) && m@ == fetch_error_text(e),
            },
            final(self).latest() == after_fetch(old(self).latest(), fetched(outcome)),
            final(self).key() == old(self).key(),
    {
        match rate_outcome(outcome) {
            Ok(rate) => {
                self.cache.write(rate.clone());
                Ok(rate)
            },
            Err(e) => Err(e.message()),
        }
    }

    /// The latest successfully fetched rate, without any I/O.
    pub fn get_latest_rate(&self) -> (r: Option<ExchangeRate>)
        ensures
            record_option(r) == self.latest(),
    {
        self.cache.read()
    }
}

} // verus!
