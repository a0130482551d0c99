//! Quotes, snapshots and errors, and the decoding of a price document into them.
use vstd::prelude::*;
use vstd::string::*;

use crate::json::{
    json_number, json_parse, json_pointer, json_str, number_bits, parse_json, rate_bits,
};
use crate::time::{parse_rfc3339, rfc3339, Timestamp};

verus! {

/// One currency's quote. The rate is kept as the bit pattern of the IEEE 754
/// double that the document gives (`f64::from_bits` reads it back).
#[derive(Clone, PartialEq, Eq, Hash, Debug)]
pub struct Currency {
    pub code: String,
    pub symbol: String,
    pub description: String,
    pub rate_bits: u64,
}

pub struct CurrencyView {
    pub code: Seq<char>,
    pub symbol: Seq<char>,
    pub description: Seq<char>,
    pub rate_bits: u64,
}

impl View for Currency {
    type V = CurrencyView;

    open spec fn view(&self) -> CurrencyView {
        CurrencyView {
            code: self.code@,
            symbol: self.symbol@,
            description: self.description@,
            rate_bits: self.rate_bits,
        }
    }
}

/// The two ways a request for the index can fail.
#[derive(Clone, PartialEq, Eq, Hash, Debug)]
pub enum Error {
    /// The transport failed; carries the client's description.
    Http(String),
    /// The response was not a price document of the expected shape.
    Format(String),
}

pub enum ErrorView {
    Http(Seq<char>),
    Format(Seq<char>),
}

impl View for Error {
    type V = ErrorView;

    open spec fn view(&self) -> ErrorView {
        match self {
            Error::Http(m) => ErrorView::Http(m@),
            Error::Format(m) => ErrorView::Format(m@),
        }
    }
}

impl ErrorView {
    /// The human-readable text of an error.
    pub open spec fn message(self) -> Seq<char> {
        match self {
            ErrorView::Http(m) => "HTTP Error: "@ + m,
            ErrorView::Format(m) => "Formatting Error "@ + m,
        }
    }
}

impl Error {
    /// The human-readable text of the error.
    pub fn to_string(&self) -> (r: String)
        ensures
            r@ == self@.message(),
    {
        match self {
            Error::Http(m) => {
                let mut s = String::from_str("HTTP Error: ");
                s.append(m.as_str());
                s
            },
            Error::Format(m) => {
                let mut s = String::from_str("Formatting Error ");
                s.append(m.as_str());
                s
            },
        }
    }
}

/// A snapshot of the index: the three quotes and the time of the update.
#[derive(Clone, PartialEq, Eq, Hash, Debug)]
pub struct Bitcoin {
    pub time: Timestamp,
    pub usd: Currency,
    pub gbp: Currency,
    pub eur: Currency,
}

pub struct BitcoinView {
    pub time: Timestamp,
    pub usd: CurrencyView,
    pub gbp: CurrencyView,
    pub eur: CurrencyView,
}

impl View for Bitcoin {
    type V = BitcoinView;

    open spec fn view(&self) -> BitcoinView {
        BitcoinView { time: self.time, usd: self.usd@, gbp: self.gbp@, eur: self.eur@ }
    }
}

pub open spec fn currency_result(r: Result<Currency, Error>) -> Result<CurrencyView, ErrorView> {
    match r {
        Ok(c) => Ok(c@),
        Err(e) => Err(e@),
    }
}

pub open spec fn bitcoin_result(r: Result<Bitcoin, Error>) -> Result<BitcoinView, ErrorView> {
    match r {
        Ok(b) => Ok(b@),
        Err(e) => Err(e@),
    }
}

/// A key written as one JSON Pointer reference token: `~` becomes `~0` and
/// `/` becomes `~1`.
pub open spec fn escape_token(s: Seq<char>) -> Seq<char>
    decreases s.len(),
{
    if s.len() == 0 {
        Seq::empty()
    } else {
        let rest = escape_token(s.drop_last());
        let c = s.last();
        if c == '~' {
            rest + "~0"@
        } else if c == '/' {
            rest + "~1"@
        } else {
            rest.push(c)
        }
    }
}

/// The pointer to field `key` of the quote for currency `ctype`.
pub open spec fn currency_pointer(ctype: Seq<char>, key: Seq<char>) -> Seq<char> {
    "/bpi/"@ + escape_token(ctype) + "/"@ + key
}

/// The string found at a pointer, if there is a string there.
pub open spec fn spec_str_at(doc: serde_json::Value, pointer: Seq<char>) -> Option<Seq<char>> {
    match json_pointer(doc, pointer) {
        Some(v) => json_str(v),
        None => None,
    }
}

/// The rate found at a pointer, or the message of the failure.
pub open spec fn spec_rate_at(doc: serde_json::Value, pointer: Seq<char>) -> Result<u64, Seq<char>> {
    match json_pointer(doc, pointer) {
        Some(v) => match json_number(v) {
            Some(n) => match number_bits(n) {
                Some(b) => Ok(b),
                None => Err("Rate is not f64"@),
            },
            None => Err("Couldn't find rate"@),
        },
        None => Err("Couldn't find rate"@),
    }
}

/// The quote for `ctype` in a document: its fields are read in the order
/// code, symbol, description, rate, and the first one that fails decides.
pub open spec fn spec_currency(ctype: Seq<char>, doc: serde_json::Value) -> Result<
    CurrencyView,
    ErrorView,
> {
    match spec_str_at(doc, currency_pointer(ctype, "code"@)) {
        None => Err(ErrorView::Format("Couldn't find code"@)),
        Some(code) => match spec_str_at(doc, currency_pointer(ctype, "symbol"@)) {
            None => Err(ErrorView::Format("Couldn't find symbol"@)),
            Some(symbol) => match spec_str_at(doc, currency_pointer(ctype, "description"@)) {
                None => Err(ErrorView::Format("Couldn't find description"@)),
                Some(description) => match spec_rate_at(
                    doc,
                    currency_pointer(ctype, "rate_float"@),
                ) {
                    Err(m) => Err(ErrorView::Format(m)),
                    Ok(rate_bits) => Ok(CurrencyView { code, symbol, description, rate_bits }),
                },
            },
        },
    }
}

/// The snapshot in a parsed document: USD, GBP, EUR, then the update time;
/// the first failure decides and nothing partial is returned.
pub open spec fn spec_decode_document(doc: serde_json::Value) -> Result<BitcoinView, ErrorView> {
    match spec_currency("USD"@, doc) {
        Err(e) => Err(e),
        Ok(usd) => match spec_currency("GBP"@, doc) {
            Err(e) => Err(e),
            Ok(gbp) => match spec_currency("EUR"@, doc) {
                Err(e) => Err(e),
                Ok(eur) => match spec_str_at(doc, "/time/updatedISO"@) {
                    None => Err(ErrorView::Format("Couldn't find updatedISO"@)),
                    Some(t) => match rfc3339(t) {
                        Err(m) => Err(ErrorView::Format("Couldn't format time: "@ + m)),
                        Ok(instant) => Ok(
                            BitcoinView {
                                time: Timestamp { seconds: instant.0, nanos: instant.1 },
                                usd,
                                gbp,
                                eur,
                            },
                        ),
                    },
                },
            },
        },
    }
}

/// The snapshot in a response text, or why there is none.
pub open spec fn spec_decode(raw: Seq<char>) -> Result<BitcoinView, ErrorView> {
    match json_parse(raw) {
        Err(m) => Err(ErrorView::Format(m)),
        Ok(doc) => spec_decode_document(doc),
    }
}

/// The outcome of a request: a transport failure, or the decoded body.
pub open spec fn spec_get(response: Result<Seq<char>, Seq<char>>) -> Result<BitcoinView, ErrorView> {
    match response {
        Err(e) => Err(ErrorView::Http(e)),
        Ok(body) => spec_decode(body),
    }
}

/// Writes `s` as one JSON Pointer reference token.
pub fn pointer_token(s: &str) -> (r: String)
    ensures
        r@ == escape_token(s@),
{
    let n = s.unicode_len();
    let mut out = String::from_str("");
    let mut i: usize = 0;
    proof {
        reveal_strlit("");
        assert(out@ =~= escape_token(s@.subrange(0, 0)));
    }
    while i < n
        invariant
            n == s@.len(),
            i <= n,
            out@ == escape_token(s@.subrange(0, i as int)),
        decreases n - i,
    {
        let c = s.get_char(i);
        proof {
            let next = s@.subrange(0, i + 1);
            assert(next.drop_last() =~= s@.subrange(0, i as int));
            assert(next.last() == c);
        }
        if c == '~' {
            out.append("~0");
        } else if c == '/' {
            out.append("~1");
        } else {
            out.append(s.substring_char(i, i + 1));
            proof {
                assert(s@.subrange(i as int, i + 1) =~= seq![c]);
            }
        }
        i = i + 1;
    }
    proof {
        assert(s@.subrange(0, n as int) =~= s@);
    }
    out
}

/// Builds the pointer to field `key` of the quote for `ctype`.
fn quote_pointer(ctype: &str, key: &str) -> (r: String)
    ensures
        r@ == currency_pointer(ctype@, key@),
{
    let mut p = String::from_str("/bpi/");
    let token = pointer_token(ctype);
    p.append(token.as_str());
    p.append("/");
    p.append(key);
    p
}

/// The string at a pointer, owned.
fn str_at(doc: &serde_json::Value, pointer: &str) -> (r: Option<String>)
    ensures
        match r {
            Some(s) => spec_str_at(*doc, pointer@) == Some(s@),
            None => spec_str_at(*doc, pointer@) is None,
        },
{
    match doc.pointer(pointer) {
        Some(v) => match v.as_str() {
            Some(s) => Some(s.to_owned()),
            None => None,
        },
        None => None,
    }
}

/// The rate at a pointer, or the message of the failure.
fn rate_at(doc: &serde_json::Value, pointer: &str) -> (r: Result<u64, String>)
    ensures
        match r {
            Ok(b) => spec_rate_at(*doc, pointer@) == Ok::<u64, Seq<char>>(b),
            Err(m) => spec_rate_at(*doc, pointer@) == Err::<u64, Seq<char>>(m@),
        },
{
    match doc.pointer(pointer) {
        Some(v) => match v.as_number() {
            Some(n) => match rate_bits(n) {
                Some(b) => Ok(b),
                None => Err(String::from_str("Rate is not f64")),
            },
            None => Err(String::from_str("Couldn't find rate")),
        },
        None => Err(String::from_str("Couldn't find rate")),
    }
}

impl Currency {
    /// Reads the quote for currency `ctype` out of a parsed document.
    pub fn get(ctype: &str, data: &serde_json::Value) -> (r: Result<Currency, Error>)
        ensures
            currency_result(r) == spec_currency(ctype@, *data),
    {
        let p = quote_pointer(ctype, "code");
        let code = match str_at(data, p.as_str()) {
            Some(s) => s,
            None => return Err(Error::Format(String::from_str("Couldn't find code"))),
        };
        let p = quote_pointer(ctype, "symbol");
        let symbol = match str_at(data, p.as_str()) {
            Some(s) => s,
            None => return Err(Error::Format(String::from_str("Couldn't find symbol"))),
        };
        let p = quote_pointer(ctype, "description");
        let description = match str_at(data, p.as_str()) {
            Some(s) => s,
            None => return Err(Error::Format(String::from_str("Couldn't find description"))),
        };
        let p = quote_pointer(ctype, "rate_float");
        let rate_bits = match rate_at(data, p.as_str()) {
            Ok(b) => b,
            Err(m) => return Err(Error::Format(m)),
        };
        Ok(Currency { code, symbol, description, rate_bits })
    }
}

impl Bitcoin {
    /// Reads the whole snapshot out of a parsed document.
    pub fn from_document(data: &serde_json::Value) -> (r: Result<Bitcoin, Error>)
        ensures
            bitcoin_result(r) == spec_decode_document(*data),
    {
        let usd = match Currency::get("USD", data) {
            Ok(c) => c,
            Err(e) => return Err(e),
        };
        let gbp = match Currency::get("GBP", data) {
            Ok(c) => c,
            Err(e) => return Err(e),
        };
        let eur = match Currency::get("EUR", data) {
            Ok(c) => c,
            Err(e) => return Err(e),
        };
        let updated = match str_at(data, "/time/updatedISO") {
            Some(s) => s,
            None => return Err(Error::Format(String::from_str("Couldn't find updatedISO"))),
        };
        let time = match parse_rfc3339(updated.as_str()) {
            Ok(t) => t,
            Err(m) => {
                let mut s = String::from_str("Couldn't format time: ");
                s.append(m.as_str());
                return Err(Error::Format(s));
            },
        };
        Ok(Bitcoin { time, usd, gbp, eur })
    }

    /// Decodes a response text into a snapshot.
    pub fn decode(raw: &str) -> (r: Result<Bitcoin, Error>)
        ensures
            bitcoin_result(r) == spec_decode(raw@),
            json_parse(raw@) is Err ==> (r matches Err(Error::Format(m)) && m@.len() > 0),
    {
        match parse_json(raw) {
            Ok(doc) => Bitcoin::from_document(&doc),
            Err(m) => Err(Error::Format(m)),
        }
    }

    /// The snapshot for the outcome of a request: a transport failure is
    /// passed on as `Error::Http`, a body is decoded.
    pub fn get(response: Result<String, String>) -> (r: Result<Bitcoin, Error>)
        ensures
            bitcoin_result(r) == spec_get(
                match response {
                    Ok(b) => Ok::<Seq<char>, Seq<char>>(b@),
                    Err(e) => Err::<Seq<char>, Seq<char>>(e@),
                },
            ),
            response is Err ==> (r matches Err(Error::Http(m)) && m@ == response->Err_0@),
    {
        match response {
            Ok(body) => Bitcoin::decode(body.as_str()),
            Err(e) => Err(Error::Http(e)),
        }
    }
}

} // verus!
