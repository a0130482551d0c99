//! Facts about decoding that hold for every response text.
use vstd::prelude::*;

use crate::json::{json_number, json_parse, json_pointer};
use crate::model::{
    currency_pointer, spec_currency, spec_decode, spec_get, spec_rate_at,
    spec_str_at, BitcoinView, CurrencyView, ErrorView,
};
use crate::time::{rfc3339, Timestamp};

verus! {

/// The quote for `ctype` has a string code, symbol and description and a
/// rate that reads as a double.
pub open spec fn quote_well_formed(doc: serde_json::Value, ctype: Seq<char>) -> bool {
    &&& spec_str_at(doc, currency_pointer(ctype, "code"@)) is Some
    &&& spec_str_at(doc, currency_pointer(ctype, "symbol"@)) is Some
    &&& spec_str_at(doc, currency_pointer(ctype, "description"@)) is Some
    &&& spec_rate_at(doc, currency_pointer(ctype, "rate_float"@)) is Ok
}

/// The values that a well-formed quote holds, field by field.
pub open spec fn quote_fields(doc: serde_json::Value, ctype: Seq<char>) -> CurrencyView {
    CurrencyView {
        code: spec_str_at(doc, currency_pointer(ctype, "code"@))->Some_0,
        symbol: spec_str_at(doc, currency_pointer(ctype, "symbol"@))->Some_0,
        description: spec_str_at(doc, currency_pointer(ctype, "description"@))->Some_0,
        rate_bits: spec_rate_at(doc, currency_pointer(ctype, "rate_float"@))->Ok_0,
    }
}

/// A document of the expected shape decodes to a snapshot whose quotes hold
/// exactly the document's strings and numbers and whose time is the instant
/// that `updatedISO` names.
pub proof fn lemma_well_formed_decodes(raw: Seq<char>, doc: serde_json::Value)
    requires
        json_parse(raw) == Ok::<serde_json::Value, Seq<char>>(doc),
        quote_well_formed(doc, "USD"@),
        quote_well_formed(doc, "GBP"@),
        quote_well_formed(doc, "EUR"@),
        spec_str_at(doc, "/time/updatedISO"@) is Some,
        rfc3339(spec_str_at(doc, "/time/updatedISO"@)->Some_0) is Ok,
    ensures
        spec_decode(raw) == Ok::<BitcoinView, ErrorView>(
            BitcoinView {
                time: Timestamp {
                    seconds: rfc3339(spec_str_at(doc, "/time/updatedISO"@)->Some_0)->Ok_0.0,
                    nanos: rfc3339(spec_str_at(doc, "/time/updatedISO"@)->Some_0)->Ok_0.1,
                },
                usd: quote_fields(doc, "USD"@),
                gbp: quote_fields(doc, "GBP"@),
                eur: quote_fields(doc, "EUR"@),
            },
        ),
{
}

/// Every failure to decode a text is a format error: decoding never
/// reports a transport failure.
pub proof fn lemma_decode_fails_only_on_format(raw: Seq<char>)
    ensures
        spec_decode(raw) matches Err(e) ==> e is Format,
{
}

/// A document without the USD code, the GBP rate, the EUR symbol or the
/// update time gives a format error and no snapshot.
pub proof fn lemma_missing_field_fails(raw: Seq<char>, doc: serde_json::Value)
    requires
        json_parse(raw) == Ok::<serde_json::Value, Seq<char>>(doc),
        json_pointer(doc, currency_pointer("USD"@, "code"@)) is None || json_pointer(
            doc,
            currency_pointer("GBP"@, "rate_float"@),
        ) is None || json_pointer(doc, currency_pointer("EUR"@, "symbol"@)) is None
            || json_pointer(doc, "/time/updatedISO"@) is None,
    ensures
        spec_decode(raw) matches Err(e) && e is Format,
{
}

/// A rate that is not a JSON number (a string, say) is never read as one:
/// the document gives a format error.
pub proof fn lemma_rate_not_number_fails(
    raw: Seq<char>,
    doc: serde_json::Value,
    ctype: Seq<char>,
    rate: serde_json::Value,
)
    requires
        json_parse(raw) == Ok::<serde_json::Value, Seq<char>>(doc),
        ctype == "USD"@ || ctype == "GBP"@ || ctype == "EUR"@,
        json_pointer(doc, currency_pointer(ctype, "rate_float"@)) == Some(rate),
        json_number(rate) is None,
    ensures
        spec_decode(raw) matches Err(e) && e is Format,
{
    assert(spec_currency(ctype, doc) is Err);
}

/// A transport failure is reported as such, with its description unchanged,
/// and never as a format error.
pub proof fn lemma_transport_failure_is_http(e: Seq<char>)
    ensures
        spec_get(Err::<Seq<char>, Seq<char>>(e)) == Err::<BitcoinView, ErrorView>(
            ErrorView::Http(e),
        ),
{
}

} // verus!
