//! The intraday push stream of the quote service: where to connect, and
//! what to do with each event it delivers.

use vstd::prelude::*;
use crate::text::{
    all_digits,
    decimal,
    decimal_string,
    digits_value,
    lemma_decimal_reads_back,
    lemma_digits_before_separator,
};
use crate::error::SysError;

verus! {

/// The push stream of one stock: its symbol, exchange code, stream kind
/// (0 minute trends, 1 trade details) and the address it connects to, if
/// the kind has one.
#[derive(Clone, Debug, PartialEq, Eq)]
pub struct EstSseClient {
    pub symbol: String,
    pub market: u8,
    pub sse_type: u8,
    pub url: Option<String>,
}

/// An event delivered by the push stream.
#[derive(Clone, Debug, PartialEq, Eq)]
pub enum SseEvent {
    /// The connection opened.
    Open,
    /// A message arrived.
    Message,
    /// The stream failed, with the failure's text.
    Failure(String),
}

/// What to do after an event.
#[derive(Clone, Debug, PartialEq, Eq)]
pub enum SseStep {
    /// Wait for the next event.
    Continue,
    /// Decode the message, pass on what it holds, and wait for the next.
    Forward,
    /// Stop listening with this error.
    Stop(SysError),
}

/// The data part of a pushed message.
#[derive(Clone, Debug, PartialEq, Eq)]
pub enum SseData {
    /// Trade details, which are not passed on.
    Details,
    /// Minute trend lines.
    Trends2(Vec<String>),
}

/// The address of the push stream of kind `sse_type` for `symbol` on
/// exchange `market`; kinds other than 0 and 1 have none.
pub open spec fn sse_url(symbol: Seq<char>, market: u8, sse_type: u8) -> Option<Seq<char>> {
    if sse_type == 0 {
        Some(
            "https://28.push2.eastmoney.com/api/qt/stock/trends2/sse?fields1=f1,f2,f3,f4,f5,f6,f7,f8,f9,f10,f11,f12,f13,f14,f17&fields2=f51,f52,f53,f54,f55,f56,f57,f58&mpi=1000&ut=fa5fd1943c7b386f172d6893dbfba10b&secid="@
                + decimal(market as nat) + "."@ + symbol + "&ndays=1&iscr=0&iscca=0"@,
        )
    } else if sse_type == 1 {
        Some(
            "https://89.push2.eastmoney.com/api/qt/stock/details/sse?fields1=f1,f2,f3,f4&fields2=f51,f52,f53,f54,f55&mpi=2000&ut=bd1d9ddb04089700cf9c27f6f7426281&fltt=2&pos=-0&secid="@
                + decimal(market as nat) + "."@ + symbol,
        )
    } else {
        None
    }
}

impl EstSseClient {
    /// The push stream of kind `sse_type` for `symbol` on exchange `market`.
    pub fn new(symbol: String, market: u8, sse_type: u8) -> (c: EstSseClient)
        ensures
            c.symbol == symbol,
            c.market == market,
            c.sse_type == sse_type,
            match (c.url, sse_url(symbol@, market, sse_type)) {
                (Some(u), Some(v)) => u@ == v,
                (None, None) => true,
                _ => false,
            },
    {
        let url = if sse_type == 0 {
            let mut u = "https://28.push2.eastmoney.com/api/qt/stock/trends2/sse?fields1=f1,f2,f3,f4,f5,f6,f7,f8,f9,f10,f11,f12,f13,f14,f17&fields2=f51,f52,f53,f54,f55,f56,f57,f58&mpi=1000&ut=fa5fd1943c7b386f172d6893dbfba10b&secid=".to_owned();
            let m = decimal_string(market as u64);
            u.append(m.as_str());
            u.append(".");
            u.append(symbol.as_str());
            u.append("&ndays=1&iscr=0&iscca=0");
            Some(u)
        } else if sse_type == 1 {
            let mut u = "https://89.push2.eastmoney.com/api/qt/stock/details/sse?fields1=f1,f2,f3,f4&fields2=f51,f52,f53,f54,f55&mpi=2000&ut=bd1d9ddb04089700cf9c27f6f7426281&fltt=2&pos=-0&secid=".to_owned();
            let m = decimal_string(market as u64);
            u.append(m.as_str());
            u.append(".");
            u.append(symbol.as_str());
            Some(u)
        } else {
            None
        };
        EstSseClient { symbol, market, sse_type, url }
    }

    /// Whether the stream can be listened to: not when it has no address.
    pub fn can_start(&self) -> (r: Result<(), SysError>)
        ensures
            match self.url {
                Some(_) => r is Ok,
                None => r matches Err(SysError::Anyhow(m)) && m@
                    == "init failed. no event source"@,
            },
    {
        match &self.url {
            Some(_) => Ok(()),
            None => Err(SysError::Anyhow("init failed. no event source".to_owned())),
        }
    }

    /// What to do after `event`, when the receiving channel is closed or not:
    /// an opening is waited past; a message is passed on unless no one
    /// listens any more, which stops with code 5001; a failure stops with it.
    pub fn on_event(event: &SseEvent, tx_closed: bool) -> (step: SseStep)
        ensures
            match *event {
                SseEvent::Open => step == SseStep::Continue,
                SseEvent::Message => if tx_closed {
                    step matches SseStep::Stop(SysError::EstSseError(code, m)) && code == 5001
                        && m@ == "tx isClosed"@
                } else {
                    step == SseStep::Forward
                },
                SseEvent::Failure(text) => step matches SseStep::Stop(
                    SysError::ReqwestEventSourceError(m),
                ) && m@ == text@,
            },
    {
        match event {
            SseEvent::Open => SseStep::Continue,
            SseEvent::Message => {
                if tx_closed {
                    SseStep::Stop(SysError::EstSseError(5001, "tx isClosed".to_owned()))
                } else {
                    SseStep::Forward
                }
            },
            SseEvent::Failure(text) => SseStep::Stop(
                SysError::ReqwestEventSourceError(text.clone()),
            ),
        }
    }

    /// The trend lines a pushed message carries: those of a minute-trend
    /// message; trade details and empty messages carry none.
    pub fn message_trends(data: Option<SseData>) -> (lines: Option<Vec<String>>)
        ensures
            match data {
                Some(SseData::Trends2(t)) => lines == Some(t),
                _ => lines is None,
            },
    {
        match data {
            Some(SseData::Trends2(t)) => Some(t),
            _ => None,
        }
    }
}

/// Every stream address names its security as `secid=` followed by the
/// digits of the exchange code given, a dot and the symbol: the digits read
/// back as that exchange code.
pub proof fn lemma_sse_url_names_security(symbol: Seq<char>, market: u8, sse_type: u8)
    requires
        sse_type <= 1,
    ensures
        sse_url(symbol, market, sse_type) matches Some(u) && exists|p: Seq<char>, d: Seq<char>, r: Seq<char>|
            u == p + "&secid="@ + d + "."@ + symbol + r && all_digits(d) && digits_value(d) == market,
{
    lemma_decimal_reads_back(market as nat);
    let d = decimal(market as nat);
    if sse_type == 0 {
        let p = "https://28.push2.eastmoney.com/api/qt/stock/trends2/sse?fields1=f1,f2,f3,f4,f5,f6,f7,f8,f9,f10,f11,f12,f13,f14,f17&fields2=f51,f52,f53,f54,f55,f56,f57,f58&mpi=1000&ut=fa5fd1943c7b386f172d6893dbfba10b"@;
        let r = "&ndays=1&iscr=0&iscca=0"@;
        reveal_strlit("https://28.push2.eastmoney.com/api/qt/stock/trends2/sse?fields1=f1,f2,f3,f4,f5,f6,f7,f8,f9,f10,f11,f12,f13,f14,f17&fields2=f51,f52,f53,f54,f55,f56,f57,f58&mpi=1000&ut=fa5fd1943c7b386f172d6893dbfba10b");
        reveal_strlit("https://28.push2.eastmoney.com/api/qt/stock/trends2/sse?fields1=f1,f2,f3,f4,f5,f6,f7,f8,f9,f10,f11,f12,f13,f14,f17&fields2=f51,f52,f53,f54,f55,f56,f57,f58&mpi=1000&ut=fa5fd1943c7b386f172d6893dbfba10b&secid=");
        reveal_strlit("&secid=");
        let u = sse_url(symbol, market, sse_type).unwrap();
        assert(u =~= p + "&secid="@ + d + "."@ + symbol + r);
    } else {
        let p = "https://89.push2.eastmoney.com/api/qt/stock/details/sse?fields1=f1,f2,f3,f4&fields2=f51,f52,f53,f54,f55&mpi=2000&ut=bd1d9ddb04089700cf9c27f6f7426281&fltt=2&pos=-0"@;
        reveal_strlit("https://89.push2.eastmoney.com/api/qt/stock/details/sse?fields1=f1,f2,f3,f4&fields2=f51,f52,f53,f54,f55&mpi=2000&ut=bd1d9ddb04089700cf9c27f6f7426281&fltt=2&pos=-0");
        reveal_strlit("https://89.push2.eastmoney.com/api/qt/stock/details/sse?fields1=f1,f2,f3,f4&fields2=f51,f52,f53,f54,f55&mpi=2000&ut=bd1d9ddb04089700cf9c27f6f7426281&fltt=2&pos=-0&secid=");
        reveal_strlit("&secid=");
        let u = sse_url(symbol, market, sse_type).unwrap();
        assert(u =~= p + "&secid="@ + d + "."@ + symbol + Seq::<char>::empty());
    }
}

/// Two streams of the same kind for the same symbol on different exchanges
/// have different addresses.
pub proof fn lemma_sse_url_distinguishes_markets(symbol: Seq<char>, m1: u8, m2: u8, sse_type: u8)
    requires
        sse_type <= 1,
        m1 != m2,
    ensures
        sse_url(symbol, m1, sse_type) != sse_url(symbol, m2, sse_type),
{
    lemma_decimal_reads_back(m1 as nat);
    lemma_decimal_reads_back(m2 as nat);
    reveal_strlit(".");
    let d1 = decimal(m1 as nat);
    let d2 = decimal(m2 as nat);
    if sse_url(symbol, m1, sse_type) == sse_url(symbol, m2, sse_type) {
        let u1 = sse_url(symbol, m1, sse_type).unwrap();
        let u2 = sse_url(symbol, m2, sse_type).unwrap();
        let head = if sse_type == 0 {
            "https://28.push2.eastmoney.com/api/qt/stock/trends2/sse?fields1=f1,f2,f3,f4,f5,f6,f7,f8,f9,f10,f11,f12,f13,f14,f17&fields2=f51,f52,f53,f54,f55,f56,f57,f58&mpi=1000&ut=fa5fd1943c7b386f172d6893dbfba10b&secid="@
        } else {
            "https://89.push2.eastmoney.com/api/qt/stock/details/sse?fields1=f1,f2,f3,f4&fields2=f51,f52,f53,f54,f55&mpi=2000&ut=bd1d9ddb04089700cf9c27f6f7426281&fltt=2&pos=-0&secid="@
        };
        let tail = if sse_type == 0 {
            "."@ + symbol + "&ndays=1&iscr=0&iscca=0"@
        } else {
            "."@ + symbol
        };
        assert(u1 =~= head + (d1 + tail));
        assert(u2 =~= head + (d2 + tail));
        assert((d1 + tail) =~= u1.skip(head.len() as int));
        assert((d2 + tail) =~= u2.skip(head.len() as int));
        assert(tail[0] == '.');
        lemma_digits_before_separator(d1, d2, tail, tail);
        assert(digits_value(d1) == digits_value(d2));
    }
}

} // verus!
