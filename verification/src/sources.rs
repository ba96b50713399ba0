//! What the engine knows about where bars come from.

use vstd::prelude::*;
use vstd::string::StringExecFns;
use crate::decimal::{parsed_units, Decimal, SCALE};
use crate::error::TradingEngineError;
use crate::indicators::{clamped, quotient};
use crate::market_data::MarketData;

verus! {

/// Which Binance exchange a stream connects to.
#[derive(Debug, Clone, Copy, PartialEq, Eq, Structural, Hash)]
pub enum BinanceRegion {
    International,
    US,
}

impl BinanceRegion {
    /// The address of the region's stream server.
    pub open spec fn base_url(self) -> Seq<char> {
        match self {
            BinanceRegion::International => "wss://stream.binance.com:9443"@,
            BinanceRegion::US => "wss://stream.binance.us:9443"@,
        }
    }

    /// The address of the region's stream server.
    pub fn ws_base_url(&self) -> (url: &'static str)
        ensures
            url@ == self.base_url(),
    {
        match self {
            BinanceRegion::International => "wss://stream.binance.com:9443",
            BinanceRegion::US => "wss://stream.binance.us:9443",
        }
    }
}

/// The lower-case form of a text, as `str::to_lowercase` gives it.
pub uninterp spec fn lowercased(text: Seq<char>) -> Seq<char>;

/// The lower-case form of `text`, from `str::to_lowercase`. The contract
/// only gives the result its name: it is a function of the text alone.
#[verifier::external_body]
fn lowercase(text: &str) -> (lower: String)
    ensures
        lower@ == lowercased(text@),
{
    text.to_lowercase()
}

/// The two streams of one symbol, given in lower case: its klines of the
/// interval and its book ticker, with a slash between them.
pub open spec fn streams_of(lower: Seq<char>, interval: Seq<char>) -> Seq<char> {
    lower + "@kline_"@ + interval + "/"@ + lower + "@bookTicker"@
}

/// The streams of all symbols, given in lower case, with slashes between
/// them.
pub open spec fn stream_list(lowers: Seq<Seq<char>>, interval: Seq<char>) -> Seq<char>
    decreases lowers.len(),
{
    if lowers.len() == 0 {
        Seq::empty()
    } else if lowers.len() == 1 {
        streams_of(lowers.last(), interval)
    } else {
        stream_list(lowers.drop_last(), interval) + "/"@ + streams_of(lowers.last(), interval)
    }
}

/// The address to connect to for the streams of symbols given in lower
/// case: the plain socket when there are none.
pub open spec fn stream_address(base: Seq<char>, lowers: Seq<Seq<char>>, interval: Seq<char>)
    -> Seq<char> {
    if lowers.len() == 0 {
        base + "/ws"@
    } else {
        base + "/stream?streams="@ + stream_list(lowers, interval)
    }
}

/// The symbols in lower case, in order.
pub open spec fn lowered(symbols: Seq<String>) -> Seq<Seq<char>> {
    symbols.map_values(|symbol: String| lowercased(symbol@))
}

/// The address of the combined stream that carries, for every symbol, its
/// klines of `interval` and its book ticker. Without symbols it is the
/// address of the plain socket.
pub fn stream_url(region: BinanceRegion, symbols: &Vec<String>, interval: &str) -> (url: String)
    ensures
        url@ == stream_address(region.base_url(), lowered(symbols@), interval@),
{
    let mut url = String::from_str(region.ws_base_url());
    let n = symbols.len();
    if n == 0 {
        url.append("/ws");
        return url;
    }
    url.append("/stream?streams=");
    let ghost head = url@;
    let ghost lowers = lowered(symbols@);
    let mut i: usize = 0;
    assert(stream_list(lowers.subrange(0, 0), interval@) =~= Seq::<char>::empty());
    assert(head + Seq::<char>::empty() =~= head);
    while i < n
        invariant
            i <= n,
            n == symbols@.len(),
            lowers == lowered(symbols@),
            url@ == head + stream_list(lowers.subrange(0, i as int), interval@),
        decreases n - i,
    {
        let lower = lowercase(symbols[i].as_str());
        proof {
            let shorter = lowers.subrange(0, i as int);
            let longer = lowers.subrange(0, i + 1);
            assert(longer.drop_last() =~= shorter);
            assert(longer.last() == lower@);
        }
        let ghost before = url@;
        if i > 0 {
            url.append("/");
        }
        url.append(lower.as_str());
        url.append("@kline_");
        url.append(interval);
        url.append("/");
        url.append(lower.as_str());
        url.append("@bookTicker");
        proof {
            let piece = streams_of(lower@, interval@);
            if i > 0 {
                assert(url@ =~= before + "/"@ + piece);
                assert(url@ =~= head + (stream_list(lowers.subrange(0, i as int), interval@)
                    + "/"@ + piece));
            } else {
                assert(url@ =~= before + piece);
                assert(stream_list(lowers.subrange(0, 0), interval@) =~= Seq::<char>::empty());
                assert(url@ =~= head + piece);
            }
        }
        i = i + 1;
    }
    assert(lowers.subrange(0, n as int) =~= lowers);
    url
}

/// The numbers of a completed kline as the exchange sends them: as text.
pub struct KlineFields<'a> {
    pub open: &'a str,
    pub high: &'a str,
    pub low: &'a str,
    pub close: &'a str,
    pub volume: &'a str,
}

/// The message that says which number could not be read.
pub open spec fn unreadable(what: Seq<char>) -> Seq<char> {
    "Invalid "@ + what
}

/// Whether `outcome` is the number that `text` writes, or the parse error
/// that names `what`.
pub open spec fn reads(outcome: Result<Decimal, TradingEngineError>, text: Seq<char>, what: Seq<char>)
    -> bool {
    match parsed_units(text) {
        Some(units) => outcome == Ok::<Decimal, TradingEngineError>(Decimal { units: units as i64 }),
        None => outcome is Err && outcome->Err_0 is ParseError && outcome->Err_0->ParseError_0@
            == unreadable(what),
    }
}

/// Reads one number of a message.
fn read_number(text: &str, what: &str) -> (outcome: Result<Decimal, TradingEngineError>)
    ensures
        reads(outcome, text@, what@),
{
    match Decimal::parse(text) {
        Some(number) => Ok(number),
        None => {
            let mut message = String::from_str("Invalid ");
            message.append(what);
            Err(TradingEngineError::ParseError(message))
        },
    }
}

/// The whole units that a volume counts: nothing for a volume below zero,
/// and the part before the point otherwise.
pub open spec fn whole_volume(units: int) -> int {
    if units <= 0 {
        0
    } else {
        units / (SCALE as int)
    }
}

/// Bid and ask around a close when no quote is known: a tenth of a percent
/// of the close apart, half of that on either side, each rounded towards
/// zero and held within the 64-bit range.
pub open spec fn quote_around(close: int) -> (int, int) {
    let half = quotient(quotient(close, 1000), 2);
    (clamped(close - half), clamped(close + half))
}

/// Bid and ask around `close` when no quote is known.
pub fn derived_quote(close: Decimal) -> (quote: (Decimal, Decimal))
    ensures
        quote.0.units == quote_around(close.units as int).0,
        quote.1.units == quote_around(close.units as int).1,
{
    let c = close.units as i128;
    let spread = if c >= 0 {
        c / 1000
    } else {
        -((-c) / 1000)
    };
    let half = if spread >= 0 {
        spread / 2
    } else {
        -((-spread) / 2)
    };
    let bid = c - half;
    let ask = c + half;
    (
        Decimal {
            units: if bid < i64::MIN as i128 {
                i64::MIN
            } else if bid > i64::MAX as i128 {
                i64::MAX
            } else {
                bid as i64
            },
        },
        Decimal {
            units: if ask < i64::MIN as i128 {
                i64::MIN
            } else if ask > i64::MAX as i128 {
                i64::MAX
            } else {
                ask as i64
            },
        },
    )
}

/// Bid and ask for a kline that closed at `close`: the best bid and ask of
/// the latest book ticker where there is one, and otherwise a quote around
/// the close. A number that cannot be read is reported as a parse error:
/// the bid before the ask.
pub fn kline_quote(close: &str, ticker: Option<(&str, &str)>) -> (quote: Result<
    (Decimal, Decimal),
    TradingEngineError,
>)
    ensures
        match ticker {
            Some((best_bid, best_ask)) => match (parsed_units(best_bid@), parsed_units(best_ask@)) {
                (Some(bid), Some(ask)) => quote == Ok::<(Decimal, Decimal), TradingEngineError>(
                    (Decimal { units: bid as i64 }, Decimal { units: ask as i64 }),
                ),
                (None, _) => quote is Err && quote->Err_0 is ParseError
                    && quote->Err_0->ParseError_0@ == unreadable("bid price"@),
                (Some(_), None) => quote is Err && quote->Err_0 is ParseError
                    && quote->Err_0->ParseError_0@ == unreadable("ask price"@),
            },
            None => match parsed_units(close@) {
                Some(units) => quote is Ok && quote->Ok_0.0.units == quote_around(units).0
                    && quote->Ok_0.1.units == quote_around(units).1,
                None => quote is Err && quote->Err_0 is ParseError
                    && quote->Err_0->ParseError_0@ == unreadable("close price"@),
            },
        },
{
    match ticker {
        Some((best_bid, best_ask)) => {
            let bid = match read_number(best_bid, "bid price") {
                Ok(bid) => bid,
                Err(error) => {
                    return Err(error);
                },
            };
            let ask = match read_number(best_ask, "ask price") {
                Ok(ask) => ask,
                Err(error) => {
                    return Err(error);
                },
            };
            Ok((bid, ask))
        },
        None => match read_number(close, "close price") {
            Ok(close) => Ok(derived_quote(close)),
            Err(error) => Err(error),
        },
    }
}

/// Which number of a kline cannot be read, going through open, high, low,
/// close and volume in that order; none when all can.
pub open spec fn first_unreadable(kline: KlineFields) -> Option<Seq<char>> {
    if parsed_units(kline.open@) is None {
        Some("open price"@)
    } else if parsed_units(kline.high@) is None {
        Some("high price"@)
    } else if parsed_units(kline.low@) is None {
        Some("low price"@)
    } else if parsed_units(kline.close@) is None {
        Some("close price"@)
    } else if parsed_units(kline.volume@) is None {
        Some("volume"@)
    } else {
        None
    }
}

/// The bar that a completed kline stands for: its numbers read from their
/// text, its volume cut to whole units, and the given bid and ask. A number
/// that cannot be read is reported as a parse error that names it.
pub fn kline_to_market_data(
    symbol: String,
    close_time: i64,
    kline: &KlineFields,
    bid: Decimal,
    ask: Decimal,
) -> (bar: Result<MarketData, TradingEngineError>)
    ensures
        match first_unreadable(*kline) {
            Some(what) => bar is Err && bar->Err_0 is ParseError && bar->Err_0->ParseError_0@
                == unreadable(what),
            None => bar is Ok && bar->Ok_0.symbol == symbol && bar->Ok_0.timestamp == close_time
                && bar->Ok_0.open.units == parsed_units(kline.open@).unwrap()
                && bar->Ok_0.high.units == parsed_units(kline.high@).unwrap()
                && bar->Ok_0.low.units == parsed_units(kline.low@).unwrap()
                && bar->Ok_0.close.units == parsed_units(kline.close@).unwrap()
                && bar->Ok_0.volume == whole_volume(parsed_units(kline.volume@).unwrap())
                && bar->Ok_0.bid == bid && bar->Ok_0.ask == ask,
        },
{
    let open = match read_number(kline.open, "open price") {
        Ok(number) => number,
        Err(error) => {
            return Err(error);
        },
    };
    let high = match read_number(kline.high, "high price") {
        Ok(number) => number,
        Err(error) => {
            return Err(error);
        },
    };
    let low = match read_number(kline.low, "low price") {
        Ok(number) => number,
        Err(error) => {
            return Err(error);
        },
    };
    let close = match read_number(kline.close, "close price") {
        Ok(number) => number,
        Err(error) => {
            return Err(error);
        },
    };
    let volume = match read_number(kline.volume, "volume") {
        Ok(number) => number,
        Err(error) => {
            return Err(error);
        },
    };
    let whole: u64 = if volume.units <= 0 {
        0
    } else {
        (volume.units / SCALE) as u64
    };
    Ok(MarketData { symbol, timestamp: close_time, open, high, low, close, volume: whole, bid, ask })
}

} // verus!
