//! A Bitcoin price index client: decoding of the CoinDesk current-price
//! document into three currency quotes and the time of the update.
//!
//! The HTTP request itself is left to the caller, who hands the outcome to
//! [`Bitcoin::get`]; everything from the response text on is decided here.

mod json;
mod laws;
mod model;
mod time;

pub use json::{json_number, json_parse, json_pointer, json_str, number_bits};
pub use model::{
    currency_pointer, escape_token, pointer_token, spec_currency, spec_decode, spec_decode_document, spec_get,
    spec_rate_at, spec_str_at, Bitcoin, BitcoinView, Currency, CurrencyView, Error, ErrorView,
};
pub use time::{rfc3339, Timestamp};
pub use laws::{
    lemma_decode_fails_only_on_format, lemma_missing_field_fails, lemma_rate_not_number_fails,
    lemma_transport_failure_is_http, lemma_well_formed_decodes, quote_fields, quote_well_formed,
};
