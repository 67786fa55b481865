//! The provider's side: where quotes and series are asked for, and how its
//! answers are read. Nothing here goes out to the network; the bytes and
//! texts of an answer are handed in.

use crate::json::{as_array, json_of, json_parsed, jsons_of, member_text, parse_json, text_member, Json};
use crate::models::{BarText, KLineData, StockQuote};
use crate::price::{parse_ticks, ticks_of_text};
use crate::text::{
    decimal_digits,
    decimal_text,
    find_char,
    find_last_char,
    find_text,
    first_index_of,
    first_match_from,
    first_word,
    has_prefix,
    last_index_of,
    leading_word,
    replace_char,
    replaced,
    split,
    split_fields,
    starts_with,
    strip_prefixes,
    strip_suffixes,
    texts,
    to_chars,
    trim,
    trim_of,
    without_prefixes,
    without_suffixes,
};
use vstd::prelude::*;

verus! {

/// Where live quotes are asked for; the code of the security follows.
pub const REALTIME_URL: &'static str = "http://hq.sinajs.cn/list=";

/// Where the series of the mainland markets are asked for.
pub const KLINE_URL_CN: &'static str =
    "http://money.finance.sina.com.cn/quotes_service/api/json_v2.php/CN_MarketData.getKLineData";

/// Where the daily series of the American markets are asked for.
pub const KLINE_URL_US: &'static str =
    "http://stock.finance.sina.com.cn/usstock/api/jsonp.php/IO/US_MinKService.getDailyK";

/// The referer that the provider wants to see with every request.
pub const REFERER: &'static str = "http://finance.sina.com.cn";

/// Longest answer, in bytes, that is decoded.
pub const MAX_RESPONSE_LEN: usize = 0x0fff_ffff;

/// Fields that a mainland quote has at least.
pub const CN_QUOTE_FIELDS: usize = 32;

/// Fields that a Hong Kong quote has at least.
pub const HK_QUOTE_FIELDS: usize = 19;

/// Fields that an American quote has at least.
pub const US_QUOTE_FIELDS: usize = 27;

/// The market that a code belongs to, told by its prefix.
#[derive(Debug, Clone, Copy, PartialEq, Eq, Structural)]
pub enum Market {
    /// Shanghai, Shenzhen, Beijing.
    Mainland,
    HongKong,
    American,
}

/// Why the text of an answer holds no quote.
#[derive(Debug, Clone, Copy, PartialEq, Eq, Structural)]
pub enum QuoteError {
    /// The text holds no quotation mark.
    NoQuotedData,
    /// Nothing stands between the first and the last quotation mark.
    EmptyData,
    /// The data has fewer fields than a quote of its market.
    MissingFields { needed: usize, found: usize },
}

/// Why the text of an answer holds no series.
#[derive(Debug, Clone, Copy, PartialEq, Eq, Structural)]
pub enum KlineError {
    /// The text holds no `IO(`.
    NoPayload,
    /// What follows `IO(` is no JSON.
    BadJson,
}

/// Where the series of a security comes from.
#[derive(Debug, Clone)]
pub enum KlineSource {
    /// The daily series of an American security, wrapped as JSONP.
    American { url: String },
    /// No series is served for this market: the chart stays empty.
    Unserved,
    /// The series of a mainland security, as a JSON array of bars.
    Mainland { url: String },
}

/// The bytes of an answer as text in the encoding GBK.
pub uninterp spec fn gbk_text(bytes: Seq<u8>) -> Seq<char>;

/// `encoding_rs::Encoding::decode` on `GBK`: the text that the bytes stand
/// for in GBK, or in the encoding that a byte order mark at their start
/// names, with every malformed sequence replaced. The text depends on the
/// bytes alone. Longer input is left out because the size of the buffer is
/// computed from its length.
#[verifier::external_body]
fn decode_gbk(bytes: &[u8]) -> (text: String)
    requires
        bytes@.len() <= MAX_RESPONSE_LEN,
    ensures
        text@ == gbk_text(bytes@),
{
    encoding_rs::GBK.decode(bytes).0.into_owned()
}

/// The market of a code: Hong Kong for the prefix `hk`, American for
/// `gb_`, mainland for all others.
pub open spec fn market_of(symbol: Seq<char>) -> Market {
    if starts_with(symbol, "hk"@) {
        Market::HongKong
    } else if starts_with(symbol, "gb_"@) {
        Market::American
    } else {
        Market::Mainland
    }
}

/// Fields that a quote of `market` has at least.
pub open spec fn fields_needed(market: Market) -> usize {
    match market {
        Market::Mainland => CN_QUOTE_FIELDS,
        Market::HongKong => HK_QUOTE_FIELDS,
        Market::American => US_QUOTE_FIELDS,
    }
}

/// What stands between the first and the last quotation mark of `text`.
pub open spec fn quoted_data(text: Seq<char>) -> Result<Seq<char>, QuoteError> {
    let open = first_index_of(text, '"');
    let close = last_index_of(text, '"');
    if open >= text.len() {
        Err(QuoteError::NoQuotedData)
    } else if open + 1 >= close {
        Err(QuoteError::EmptyData)
    } else {
        Ok(text.subrange(open + 1, close))
    }
}

/// Date and time of an American quote: the field is cut at its first
/// blank, and is all date where it has none.
pub open spec fn date_and_time(field: Seq<char>) -> (Seq<char>, Seq<char>) {
    let cut = first_index_of(field, ' ');
    if 0 <= cut < field.len() {
        (field.subrange(0, cut), field.subrange(cut + 1, field.len() as int))
    } else {
        (field, Seq::empty())
    }
}

impl StockQuote {
    /// Whether this is the mainland quote that the fields hold.
    pub open spec fn is_mainland_quote(self, symbol: Seq<char>, f: Seq<Seq<char>>) -> bool {
        &&& self.name@ == f[0]
        &&& self.symbol@ == symbol
        &&& self.open == ticks_of_text(f[1])
        &&& self.pre_close == ticks_of_text(f[2])
        &&& self.current == ticks_of_text(f[3])
        &&& self.high == ticks_of_text(f[4])
        &&& self.low == ticks_of_text(f[5])
        &&& self.volume == ticks_of_text(f[8])
        &&& self.turnover == ticks_of_text(f[9])
        &&& self.date@ == f[30]
        &&& self.time@ == f[31]
    }

    /// Whether this is the Hong Kong quote that the fields hold.
    pub open spec fn is_hong_kong_quote(self, symbol: Seq<char>, f: Seq<Seq<char>>) -> bool {
        &&& self.name@ == f[1]
        &&& self.symbol@ == symbol
        &&& self.open == ticks_of_text(f[2])
        &&& self.pre_close == ticks_of_text(f[3])
        &&& self.high == ticks_of_text(f[4])
        &&& self.low == ticks_of_text(f[5])
        &&& self.current == ticks_of_text(f[6])
        &&& self.volume == ticks_of_text(f[12])
        &&& self.turnover == ticks_of_text(f[11])
        &&& self.date@ == replaced(f[17], '/', '-')
        &&& self.time@ == f[18]
    }

    /// Whether this is the American quote that the fields hold.
    pub open spec fn is_american_quote(self, symbol: Seq<char>, f: Seq<Seq<char>>) -> bool {
        &&& self.name@ == f[0]
        &&& self.symbol@ == symbol
        &&& self.current == ticks_of_text(f[1])
        &&& self.open == ticks_of_text(f[5])
        &&& self.high == ticks_of_text(f[6])
        &&& self.low == ticks_of_text(f[7])
        &&& self.volume == ticks_of_text(f[10])
        &&& self.turnover == 0
        &&& self.pre_close == ticks_of_text(f[26])
        &&& self.date@ == date_and_time(f[3]).0
        &&& self.time@ == date_and_time(f[3]).1
    }

    /// Whether this is the quote of `symbol` that the fields hold.
    pub open spec fn is_quote_of(self, symbol: Seq<char>, f: Seq<Seq<char>>) -> bool {
        match market_of(symbol) {
            Market::Mainland => self.is_mainland_quote(symbol, f),
            Market::HongKong => self.is_hong_kong_quote(symbol, f),
            Market::American => self.is_american_quote(symbol, f),
        }
    }
}

/// Why `text` holds no quote of `symbol`, `None` where it holds one.
pub open spec fn quote_failure(symbol: Seq<char>, text: Seq<char>) -> Option<QuoteError> {
    match quoted_data(text) {
        Err(e) => Some(e),
        Ok(data) => {
            let fields = split_fields(data, ',');
            let needed = fields_needed(market_of(symbol));
            if fields.len() < needed {
                Some(QuoteError::MissingFields { needed, found: fields.len() as usize })
            } else {
                None
            }
        },
    }
}

/// Whether `result` is what `text` reads as, as an answer for `symbol`.
pub open spec fn is_quote_reading(
    result: Result<StockQuote, QuoteError>,
    symbol: Seq<char>,
    text: Seq<char>,
) -> bool {
    match result {
        Ok(quote) => quote_failure(symbol, text) is None && quote.is_quote_of(
            symbol,
            split_fields(quoted_data(text)->Ok_0, ','),
        ),
        Err(e) => quote_failure(symbol, text) == Some(e),
    }
}

/// The address at which the quote of `symbol` is asked for.
pub fn quote_url(symbol: &str) -> (url: String)
    ensures
        url@ == REALTIME_URL@ + symbol@,
{
    String::from_str(REALTIME_URL).concat(symbol)
}

/// The market of a code.
pub fn market(symbol: &str) -> (m: Market)
    ensures
        m == market_of(symbol@),
{
    let chars = to_chars(symbol);
    if has_prefix(&chars, "hk") {
        Market::HongKong
    } else if has_prefix(&chars, "gb_") {
        Market::American
    } else {
        Market::Mainland
    }
}

/// Reads a mainland quote from the fields of an answer.
pub fn parse_cn_quote(symbol: &str, fields: &Vec<String>) -> (result: Result<StockQuote, QuoteError>)
    ensures
        match result {
            Ok(quote) => fields.len() >= CN_QUOTE_FIELDS && quote.is_mainland_quote(
                symbol@,
                texts(fields@),
            ),
            Err(e) => fields.len() < CN_QUOTE_FIELDS && e == (QuoteError::MissingFields {
                needed: CN_QUOTE_FIELDS,
                found: fields.len(),
            }),
        },
{
    if fields.len() < CN_QUOTE_FIELDS {
        return Err(QuoteError::MissingFields { needed: CN_QUOTE_FIELDS, found: fields.len() });
    }
    Ok(
        StockQuote {
            name: fields[0].clone(),
            symbol: String::from_str(symbol),
            open: parse_ticks(fields[1].as_str()),
            pre_close: parse_ticks(fields[2].as_str()),
            current: parse_ticks(fields[3].as_str()),
            high: parse_ticks(fields[4].as_str()),
            low: parse_ticks(fields[5].as_str()),
            volume: parse_ticks(fields[8].as_str()),
            turnover: parse_ticks(fields[9].as_str()),
            date: fields[30].clone(),
            time: fields[31].clone(),
        },
    )
}

/// Reads a Hong Kong quote from the fields of an answer. Its date comes
/// with strokes and is written with hyphens.
pub fn parse_hk_quote(symbol: &str, fields: &Vec<String>) -> (result: Result<StockQuote, QuoteError>)
    ensures
        match result {
            Ok(quote) => fields.len() >= HK_QUOTE_FIELDS && quote.is_hong_kong_quote(
                symbol@,
                texts(fields@),
            ),
            Err(e) => fields.len() < HK_QUOTE_FIELDS && e == (QuoteError::MissingFields {
                needed: HK_QUOTE_FIELDS,
                found: fields.len(),
            }),
        },
{
    if fields.len() < HK_QUOTE_FIELDS {
        return Err(QuoteError::MissingFields { needed: HK_QUOTE_FIELDS, found: fields.len() });
    }
    Ok(
        StockQuote {
            name: fields[1].clone(),
            symbol: String::from_str(symbol),
            open: parse_ticks(fields[2].as_str()),
            pre_close: parse_ticks(fields[3].as_str()),
            high: parse_ticks(fields[4].as_str()),
            low: parse_ticks(fields[5].as_str()),
            current: parse_ticks(fields[6].as_str()),
            volume: parse_ticks(fields[12].as_str()),
            turnover: parse_ticks(fields[11].as_str()),
            date: replace_char(fields[17].as_str(), '/', '-'),
            time: fields[18].clone(),
        },
    )
}

/// Reads an American quote from the fields of an answer. It has no
/// turnover, and date and time share one field.
pub fn parse_us_quote(symbol: &str, fields: &Vec<String>) -> (result: Result<StockQuote, QuoteError>)
    ensures
        match result {
            Ok(quote) => fields.len() >= US_QUOTE_FIELDS && quote.is_american_quote(
                symbol@,
                texts(fields@),
            ),
            Err(e) => fields.len() < US_QUOTE_FIELDS && e == (QuoteError::MissingFields {
                needed: US_QUOTE_FIELDS,
                found: fields.len(),
            }),
        },
{
    if fields.len() < US_QUOTE_FIELDS {
        return Err(QuoteError::MissingFields { needed: US_QUOTE_FIELDS, found: fields.len() });
    }
    let stamp: &str = fields[3].as_str();
    let chars = to_chars(stamp);
    let cut: usize = find_char(&chars, ' ', 0, chars.len());
    assert(chars@.subrange(0, chars.len() as int) =~= stamp@);
    let date: String = if cut < chars.len() {
        String::from_str(stamp.substring_char(0, cut))
    } else {
        fields[3].clone()
    };
    let time: String = if cut < chars.len() {
        String::from_str(stamp.substring_char(cut + 1, chars.len()))
    } else {
        String::new()
    };
    Ok(
        StockQuote {
            name: fields[0].clone(),
            symbol: String::from_str(symbol),
            current: parse_ticks(fields[1].as_str()),
            open: parse_ticks(fields[5].as_str()),
            high: parse_ticks(fields[6].as_str()),
            low: parse_ticks(fields[7].as_str()),
            volume: parse_ticks(fields[10].as_str()),
            turnover: 0,
            pre_close: parse_ticks(fields[26].as_str()),
            date,
            time,
        },
    )
}

/// Takes what stands between the first and the last quotation mark out of
/// the text of an answer.
pub fn take_quoted_data(text: &str) -> (data: Result<String, QuoteError>)
    ensures
        match data {
            Ok(held) => quoted_data(text@) == Ok::<Seq<char>, QuoteError>(held@),
            Err(e) => quoted_data(text@) == Err::<Seq<char>, QuoteError>(e),
        },
{
    let chars = to_chars(text);
    let n: usize = chars.len();
    assert(chars@.subrange(0, n as int) =~= text@);
    let open: usize = find_char(&chars, '"', 0, n);
    if open >= n {
        return Err(QuoteError::NoQuotedData);
    }
    match find_last_char(&chars, '"') {
        Some(close) => {
            if open + 1 >= close {
                Err(QuoteError::EmptyData)
            } else {
                Ok(String::from_str(text.substring_char(open + 1, close)))
            }
        },
        None => Err(QuoteError::EmptyData),
    }
}

/// Reads the quote of `symbol` from the text of an answer, which has the
/// form `var hq_str_CODE="FIELD,FIELD,...";`. The fields are laid out
/// by market.
pub fn parse_realtime_quote(symbol: &str, text: &str) -> (result: Result<StockQuote, QuoteError>)
    ensures
        is_quote_reading(result, symbol@, text@),
{
    let data = match take_quoted_data(text) {
        Ok(data) => data,
        Err(e) => {
            return Err(e);
        },
    };
    let fields = split(data.as_str(), ',');
    match market(symbol) {
        Market::HongKong => parse_hk_quote(symbol, &fields),
        Market::American => parse_us_quote(symbol, &fields),
        Market::Mainland => parse_cn_quote(symbol, &fields),
    }
}

/// Reads the quote of `symbol` from the bytes of an answer, which are
/// text in GBK.
pub fn decode_quote(symbol: &str, bytes: &[u8]) -> (result: Result<StockQuote, QuoteError>)
    requires
        bytes@.len() <= MAX_RESPONSE_LEN,
    ensures
        is_quote_reading(result, symbol@, gbk_text(bytes@)),
{
    let text = decode_gbk(bytes);
    parse_realtime_quote(symbol, text.as_str())
}

/// The address of the mainland series of `symbol`.
pub open spec fn mainland_url(symbol: Seq<char>, scale: u32, datalen: u32) -> Seq<char> {
    KLINE_URL_CN@ + "?symbol="@ + symbol + "&scale="@ + decimal_digits(scale as nat)
        + "&ma=no&datalen="@ + decimal_digits(datalen as nat)
}

/// The address of the American series of `symbol`: the code goes without
/// its market prefix.
pub open spec fn american_url(symbol: Seq<char>) -> Seq<char> {
    KLINE_URL_US@ + "?symbol="@ + without_prefixes(symbol, "gb_"@)
}

/// Where the series of `symbol` is asked for: American codes have a daily
/// series of their own, Hong Kong has none, and the rest is asked for by
/// scale and length.
pub fn kline_source(symbol: &str, scale: u32, datalen: u32) -> (source: KlineSource)
    ensures
        match source {
            KlineSource::American { url } => starts_with(symbol@, "gb_"@) && url@ == american_url(
                symbol@,
            ),
            KlineSource::Unserved => !starts_with(symbol@, "gb_"@) && starts_with(symbol@, "hk"@),
            KlineSource::Mainland { url } => !starts_with(symbol@, "gb_"@) && !starts_with(
                symbol@,
                "hk"@,
            ) && url@ == mainland_url(symbol@, scale, datalen),
        },
{
    let chars = to_chars(symbol);
    if has_prefix(&chars, "gb_") {
        let code = strip_prefixes(symbol, "gb_");
        let mut url = String::from_str(KLINE_URL_US);
        url.append("?symbol=");
        url.append(code.as_str());
        KlineSource::American { url }
    } else if has_prefix(&chars, "hk") {
        KlineSource::Unserved
    } else {
        let mut url = String::from_str(KLINE_URL_CN);
        url.append("?symbol=");
        url.append(symbol);
        url.append("&scale=");
        url.append(decimal_text(scale).as_str());
        url.append("&ma=no&datalen=");
        url.append(decimal_text(datalen).as_str());
        KlineSource::Mainland { url }
    }
}

/// The JSON inside a JSONP answer: what follows the first `IO(`, trimmed,
/// without the `);` and the `)` that close the call. `None` where the text
/// holds no `IO(`.
pub open spec fn jsonp_payload(text: Seq<char>) -> Option<Seq<char>> {
    let at = first_match_from(text, "IO("@, 0);
    if at + 3 > text.len() {
        None
    } else {
        Some(
            without_suffixes(
                without_suffixes(trim_of(text.subrange(at + 3, text.len() as int)), ");"@),
                ")"@,
            ),
        )
    }
}

/// Unwraps a JSONP answer.
pub fn take_jsonp_payload(text: &str) -> (payload: Option<String>)
    ensures
        match payload {
            Some(held) => jsonp_payload(text@) == Some(held@),
            None => jsonp_payload(text@) is None,
        },
{
    let chars = to_chars(text);
    let at: usize = find_text(&chars, "IO(");
    if at >= chars.len() || chars.len() - at < 3 {
        return None;
    }
    let inner = trim(text.substring_char(at + 3, chars.len()));
    let open = strip_suffixes(inner.as_str(), ");");
    Some(strip_suffixes(open.as_str(), ")"))
}

/// The bar that an item of the American series holds: an object whose
/// members `d`, `o`, `h`, `l`, `c` and `v` are all strings. Of the date
/// only the first word is kept, the time of day is dropped.
pub open spec fn bar_of_item(item: Json) -> Option<BarText> {
    if text_member(item, "d"@) is Some && text_member(item, "o"@) is Some && text_member(
        item,
        "h"@,
    ) is Some && text_member(item, "l"@) is Some && text_member(item, "c"@) is Some
        && text_member(item, "v"@) is Some {
        Some(
            BarText {
                day: first_word(text_member(item, "d"@)->0),
                open: text_member(item, "o"@)->0,
                high: text_member(item, "h"@)->0,
                low: text_member(item, "l"@)->0,
                close: text_member(item, "c"@)->0,
                volume: text_member(item, "v"@)->0,
            },
        )
    } else {
        None
    }
}

/// The bars that the first `upto` items hold, in order; items that hold
/// none are passed over.
pub open spec fn bars_of_items(items: Seq<Json>, upto: int) -> Seq<BarText>
    decreases upto,
{
    if upto <= 0 {
        Seq::empty()
    } else {
        match bar_of_item(items[upto - 1]) {
            Some(bar) => bars_of_items(items, upto - 1).push(bar),
            None => bars_of_items(items, upto - 1),
        }
    }
}

/// The series that a document holds: the bars of its items where it is an
/// array, and none where it is anything else.
pub open spec fn bars_of_document(document: Json) -> Seq<BarText> {
    match document {
        Json::Array(items) => bars_of_items(items, items.len() as int),
        _ => Seq::empty(),
    }
}

/// The text of each bar of a series.
pub open spec fn bar_texts(bars: Seq<KLineData>) -> Seq<BarText> {
    bars.map_values(|bar: KLineData| bar@)
}

/// Reads the bar that one item of the American series holds.
pub fn bar_from_item(item: &serde_json::Value) -> (bar: Option<KLineData>)
    ensures
        match bar {
            Some(read) => bar_of_item(json_of(*item)) == Some(read@),
            None => bar_of_item(json_of(*item)) is None,
        },
{
    let day = member_text(item, "d");
    let open = member_text(item, "o");
    let high = member_text(item, "h");
    let low = member_text(item, "l");
    let close = member_text(item, "c");
    let volume = member_text(item, "v");
    match (day, open, high, low, close, volume) {
        (Some(day), Some(open), Some(high), Some(low), Some(close), Some(volume)) => Some(
            KLineData { day: leading_word(day.as_str()), open, high, low, close, volume },
        ),
        _ => None,
    }
}

/// Reads the American series out of a JSON document.
pub fn klines_from_json(document: &serde_json::Value) -> (bars: Vec<KLineData>)
    ensures
        bar_texts(bars@) == bars_of_document(json_of(*document)),
{
    let mut bars: Vec<KLineData> = Vec::new();
    match as_array(document) {
        Some(items) => {
            let mut i: usize = 0;
            while i < items.len()
                invariant
                    i <= items.len(),
                    bar_texts(bars@) == bars_of_items(jsons_of(items@), i as int),
                decreases items.len() - i,
            {
                match bar_from_item(&items[i]) {
                    Some(bar) => {
                        bars.push(bar);
                    },
                    None => {},
                }
                i += 1;
            }
        },
        None => {},
    }
    bars
}

/// Whether `result` is what the text of an answer reads as, as the daily
/// series of an American security.
pub open spec fn is_kline_reading(result: Result<Vec<KLineData>, KlineError>, text: Seq<char>) -> bool {
    match jsonp_payload(text) {
        None => result == Err::<Vec<KLineData>, KlineError>(KlineError::NoPayload),
        Some(payload) => match json_parsed(payload) {
            None => result == Err::<Vec<KLineData>, KlineError>(KlineError::BadJson),
            Some(document) => result is Ok && bar_texts(result->Ok_0@) == bars_of_document(
                document,
            ),
        },
    }
}

/// Reads the daily series of an American security from the text of an
/// answer, which wraps a JSON array in a call `IO(...)`.
pub fn parse_us_kline(text: &str) -> (result: Result<Vec<KLineData>, KlineError>)
    ensures
        is_kline_reading(result, text@),
{
    let payload = match take_jsonp_payload(text) {
        Some(payload) => payload,
        None => {
            return Err(KlineError::NoPayload);
        },
    };
    match parse_json(payload.as_str()) {
        Ok(document) => Ok(klines_from_json(&document)),
        Err(_) => Err(KlineError::BadJson),
    }
}

} // verus!
