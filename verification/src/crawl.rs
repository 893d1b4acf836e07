//! What is sent to the quote service and how its answers are read: the
//! listed-stock list, the daily history request, and the intraday push
//! stream.

use vstd::prelude::*;
use crate::text::{
    lemma_decimal_len_at_least,
    pow10,
    signed_decimal,
    signed_decimal_string,
    str_equals,
};
use crate::model::CNStockBasic;
use crate::error::SysError;

verus! {

/// A key and value of a request's query string.
pub type QueryParam = (String, String);

/// The texts of a list of query parameters.
pub open spec fn params_view(v: Seq<QueryParam>) -> Seq<(Seq<char>, Seq<char>)> {
    v.map_values(|p: QueryParam| (p.0@, p.1@))
}

fn param(key: &str, value: &str) -> (p: QueryParam)
    ensures
        p.0@ == key@,
        p.1@ == value@,
{
    (key.to_owned(), value.to_owned())
}

/// A listed stock as the quote service describes it.
#[derive(Clone, Debug, PartialEq, Eq)]
pub struct EstStockBasic {
    pub symbol: String,
    pub name: String,
    pub market: String,
    pub publish_date: Option<String>,
}

/// The market of a listed stock whose description names none.
pub fn default_market() -> (s: String)
    ensures
        s@ == "sh"@,
{
    "sh".to_owned()
}

/// The listing date that the quote service sends as the number `yyyymmdd`,
/// written `yyyy-mm-dd`: the first four, the next two and the next two
/// characters of the number's decimal text, joined by dashes. A field that
/// is not a number gives no date.
pub open spec fn publish_date_text(n: int) -> Seq<char> {
    let s = signed_decimal(n);
    s.subrange(0, 4) + "-"@ + s.subrange(4, 6) + "-"@ + s.subrange(6, 8)
}

/// Reads the listing date field: `None` when the field is not a number,
/// else the number's text cut into `yyyy-mm-dd`. The number's text must
/// have at least eight characters.
pub fn publish_date_from_number(num: Option<i64>) -> (r: Option<String>)
    requires
        num matches Some(n) ==> (n >= 10_000_000 || n <= -1_000_000),
    ensures
        match num {
            Some(n) => r matches Some(s) && s@ == publish_date_text(n as int),
            None => r is None,
        },
{
    match num {
        None => None,
        Some(n) => {
            let s = signed_decimal_string(n);
            proof {
                reveal_strlit("-");
                reveal_with_fuel(pow10, 8);
                assert(pow10(6) == 1_000_000);
                assert(pow10(7) == 10_000_000);
                if n >= 0 {
                    lemma_decimal_len_at_least(n as nat, 7);
                } else {
                    lemma_decimal_len_at_least((-n) as nat, 6);
                }
            }
            let text = s.as_str();
            let mut out = text.substring_char(0, 4).to_owned();
            out.append("-");
            out.append(text.substring_char(4, 6));
            out.append("-");
            out.append(text.substring_char(6, 8));
            Some(out)
        },
    }
}

/// A listing date read from a number of at least eight digits has the shape
/// `dddd-dd-dd`.
pub proof fn lemma_publish_date_shape(n: int)
    requires
        n >= 10_000_000,
    ensures
        publish_date_text(n).len() == 10,
        publish_date_text(n)[4] == '-',
        publish_date_text(n)[7] == '-',
{
    reveal_strlit("-");
    reveal_with_fuel(pow10, 8);
    assert(pow10(7) == 10_000_000);
    lemma_decimal_len_at_least(n as nat, 7);
}

/// Two optional texts are both absent, or both present and equal.
pub open spec fn same_optional_text(a: Option<String>, b: Option<String>) -> bool {
    (a is None && b is None) || (a is Some && b is Some && a.unwrap()@ == b.unwrap()@)
}

/// `b` is the listed stock that `e` describes, placed on market `market`,
/// not deleted.
pub open spec fn describes(b: CNStockBasic, e: EstStockBasic, market: Seq<char>) -> bool {
    &&& b.symbol@ == e.symbol@
    &&& b.name@ == e.name@
    &&& b.market@ == market
    &&& match (b.publish_date, e.publish_date) {
        (Some(x), Some(y)) => x@ == y@,
        (None, None) => true,
        _ => false,
    }
    &&& !b.is_delete
}

fn to_basic(e: &EstStockBasic, market: String) -> (b: CNStockBasic)
    ensures
        describes(b, *e, market@),
{
    let publish_date = match &e.publish_date {
        Some(p) => Some(p.clone()),
        None => None,
    };
    CNStockBasic {
        symbol: e.symbol.clone(),
        name: e.name.clone(),
        market,
        publish_date,
        is_delete: false,
    }
}

/// The full list of listed stocks: those of the Shanghai list as described,
/// followed by those of the Shenzhen list placed on market `sz`; none is
/// deleted.
pub fn est_stock_list(sh: &Vec<EstStockBasic>, sz: &Vec<EstStockBasic>) -> (list: Vec<
    CNStockBasic,
>)
    ensures
        list@.len() == sh@.len() + sz@.len(),
        forall|i: int| 0 <= i < sh@.len() ==> describes(list@[i], sh@[i], sh@[i].market@),
        forall|j: int|
            0 <= j < sz@.len() ==> describes(list@[sh@.len() + j], sz@[j], "sz"@),
        forall|k: int|
            #![trigger list@[k]]
            0 <= k < list@.len() ==> {
                let e = if k < sh@.len() {
                    sh@[k]
                } else {
                    sz@[k - sh@.len()]
                };
                &&& list@[k].symbol@ == e.symbol@
                &&& list@[k].name@ == e.name@
                &&& same_optional_text(list@[k].publish_date, e.publish_date)
                &&& !list@[k].is_delete
                &&& list@[k].market@ == (if k < sh@.len() {
                    e.market@
                } else {
                    "sz"@
                })
            },
{
    let mut list: Vec<CNStockBasic> = Vec::new();
    let mut i: usize = 0;
    while i < sh.len()
        invariant
            i <= sh@.len(),
            list@.len() == i,
            forall|k: int| 0 <= k < i ==> describes(list@[k], sh@[k], sh@[k].market@),
        decreases sh.len() - i,
    {
        let b = to_basic(&sh[i], sh[i].market.clone());
        list.push(b);
        i = i + 1;
    }
    let mut j: usize = 0;
    while j < sz.len()
        invariant
            j <= sz@.len(),
            list@.len() == sh@.len() + j,
            forall|k: int| 0 <= k < sh@.len() ==> describes(list@[k], sh@[k], sh@[k].market@),
            forall|k: int| 0 <= k < j ==> describes(list@[sh@.len() + k], sz@[k], "sz"@),
        decreases sz.len() - j,
    {
        let b = to_basic(&sz[j], "sz".to_owned());
        list.push(b);
        j = j + 1;
    }
    proof {
        assert forall|k: int| #![trigger list@[k]] 0 <= k < list@.len() implies {
            let e = if k < sh@.len() {
                sh@[k]
            } else {
                sz@[k - sh@.len()]
            };
            &&& list@[k].symbol@ == e.symbol@
            &&& list@[k].name@ == e.name@
            &&& same_optional_text(list@[k].publish_date, e.publish_date)
            &&& !list@[k].is_delete
            &&& list@[k].market@ == (if k < sh@.len() {
                e.market@
            } else {
                "sz"@
            })
        } by {
            if k < sh@.len() {
                lemma_describes_keeps_record(list@[k], sh@[k], sh@[k].market@);
            } else {
                lemma_describes_keeps_record(list@[k], sz@[k - sh@.len()], "sz"@);
            }
        }
    }
    list
}

/// A listed stock made from a description keeps the description's symbol,
/// name and listing date whatever market it is placed on, takes that market,
/// and is not deleted.
pub proof fn lemma_describes_keeps_record(b: CNStockBasic, e: EstStockBasic, market: Seq<char>)
    requires
        describes(b, e, market),
    ensures
        b.symbol@ == e.symbol@,
        b.name@ == e.name@,
        same_optional_text(b.publish_date, e.publish_date),
        b.market@ == market,
        !b.is_delete,
{
}

/// The query of the stock-list request for one exchange board selection
/// `fs`, stamped with the request time `t`.
pub open spec fn stock_list_params(fs: Seq<char>, t: Seq<char>) -> Seq<(Seq<char>, Seq<char>)> {
    seq![
        ("pn"@, "1"@),
        ("pz"@, "50000"@),
        ("po"@, "1"@),
        ("np"@, "1"@),
        ("ut"@, "bd1d9ddb04089700cf9c27f6f7426281"@),
        ("fltt"@, "2"@),
        ("invt"@, "2"@),
        ("fid"@, "f3"@),
        ("fs"@, fs),
        ("fields"@, "f12,f14,f26"@),
        ("_"@, t),
    ]
}

fn stock_list_query(fs: &str, t: &str) -> (v: Vec<QueryParam>)
    ensures
        params_view(v@) == stock_list_params(fs@, t@),
{
    let mut v: Vec<QueryParam> = Vec::new();
    v.push(param("pn", "1"));
    v.push(param("pz", "50000"));
    v.push(param("po", "1"));
    v.push(param("np", "1"));
    v.push(param("ut", "bd1d9ddb04089700cf9c27f6f7426281"));
    v.push(param("fltt", "2"));
    v.push(param("invt", "2"));
    v.push(param("fid", "f3"));
    v.push(param("fs", fs));
    v.push(param("fields", "f12,f14,f26"));
    v.push(param("_", t));
    assert(params_view(v@) =~= stock_list_params(fs@, t@));
    v
}

/// The query that asks for the Shanghai main and STAR boards, stamped `t`.
pub fn sh_stock_list_query(t: &str) -> (v: Vec<QueryParam>)
    ensures
        params_view(v@) == stock_list_params("m:1 t:2,m:1 t:23"@, t@),
{
    stock_list_query("m:1 t:2,m:1 t:23", t)
}

/// The query that asks for the Shenzhen main and ChiNext boards, stamped `t`.
pub fn sz_stock_list_query(t: &str) -> (v: Vec<QueryParam>)
    ensures
        params_view(v@) == stock_list_params("m:0 t:6,m:0 t:80"@, t@),
{
    stock_list_query("m:0 t:6,m:0 t:80", t)
}

/// The service's code for a price adjustment: `1` forward, `2` backward,
/// `0` none.
pub open spec fn adjust_code(adjust: Seq<char>) -> Seq<char> {
    if adjust == "qfq"@ {
        "1"@
    } else if adjust == "hfq"@ {
        "2"@
    } else {
        "0"@
    }
}

/// The service's code for a bar period: daily unless weekly or monthly.
pub open spec fn period_code(period: Seq<char>) -> Seq<char> {
    if period == "daily"@ {
        "101"@
    } else if period == "weekly"@ {
        "102"@
    } else if period == "monthly"@ {
        "103"@
    } else {
        "101"@
    }
}

/// The service's code for an exchange: `0` Shenzhen, `1` otherwise.
pub open spec fn market_code(market: Seq<char>) -> Seq<char> {
    if market == "sz"@ {
        "0"@
    } else {
        "1"@
    }
}

/// The security id: exchange code, a dot, the symbol.
pub open spec fn sec_id(market: Seq<char>, symbol: Seq<char>) -> Seq<char> {
    market_code(market) + "."@ + symbol
}

/// The query of the daily-history request.
pub open spec fn hist_params(
    symbol: Seq<char>,
    period: Seq<char>,
    start_date: Seq<char>,
    end_date: Seq<char>,
    market: Seq<char>,
    adjust: Seq<char>,
    t: Seq<char>,
) -> Seq<(Seq<char>, Seq<char>)> {
    seq![
        ("fields1"@, "f1,f2,f3,f4,f5,f6"@),
        ("fields2"@, "f51,f52,f53,f54,f55,f56,f57,f58,f59,f60,f61,f116"@),
        ("ut"@, "7eea3edcaed734bea9cbfc24409ed989"@),
        ("klt"@, period_code(period)),
        ("fqt"@, adjust_code(adjust)),
        ("secid"@, sec_id(market, symbol)),
        ("beg"@, start_date),
        ("end"@, end_date),
        ("_"@, t),
    ]
}

/// The query that asks for the history of `symbol` on `market` with
/// adjustment `adjust`, by `period`, from `start_date` to `end_date`
/// (`yyyymmdd`), stamped with the request time `t`.
pub fn hist_query(
    symbol: &str,
    period: &str,
    start_date: &str,
    end_date: &str,
    market: &str,
    adjust: &str,
    t: &str,
) -> (v: Vec<QueryParam>)
    ensures
        params_view(v@) == hist_params(
            symbol@,
            period@,
            start_date@,
            end_date@,
            market@,
            adjust@,
            t@,
        ),
{
    let adjust_c = if str_equals(adjust, "qfq") {
        "1"
    } else if str_equals(adjust, "hfq") {
        "2"
    } else {
        "0"
    };
    let period_c = if str_equals(period, "daily") {
        "101"
    } else if str_equals(period, "weekly") {
        "102"
    } else if str_equals(period, "monthly") {
        "103"
    } else {
        "101"
    };
    let q_market = if str_equals(market, "sz") {
        "0"
    } else {
        "1"
    };
    let mut sec = q_market.to_owned();
    sec.append(".");
    sec.append(symbol);
    let mut v: Vec<QueryParam> = Vec::new();
    v.push(param("fields1", "f1,f2,f3,f4,f5,f6"));
    v.push(param("fields2", "f51,f52,f53,f54,f55,f56,f57,f58,f59,f60,f61,f116"));
    v.push(param("ut", "7eea3edcaed734bea9cbfc24409ed989"));
    v.push(param("klt", period_c));
    v.push(param("fqt", adjust_c));
    v.push(param("secid", sec.as_str()));
    v.push(param("beg", start_date));
    v.push(param("end", end_date));
    v.push(param("_", t));
    assert(params_view(v@) =~= hist_params(
        symbol@,
        period@,
        start_date@,
        end_date@,
        market@,
        adjust@,
        t@,
    ));
    v
}

/// The text cells of a history table row: symbol, market and name, which
/// must all be present; the first missing one, in that order, is the error.
pub fn hist_row_texts(symbol: Option<String>, market: Option<String>, name: Option<String>) -> (r:
    Result<(String, String, String), SysError>)
    ensures
        match (symbol, market, name) {
            (Some(s), Some(m), Some(n)) => r == Ok::<(String, String, String), SysError>((s, m, n)),
            (None, _, _) => r matches Err(SysError::Anyhow(e)) && e@ == "`symbol` parse failed!"@,
            (Some(_), None, _) => r matches Err(SysError::Anyhow(e)) && e@
                == "`market` parse failed!"@,
            (Some(_), Some(_), None) => r matches Err(SysError::Anyhow(e)) && e@
                == "`name` parse failed!"@,
        },
{
    let s = match symbol {
        Some(s) => s,
        None => {
            return Err(SysError::Anyhow("`symbol` parse failed!".to_owned()));
        },
    };
    let m = match market {
        Some(m) => m,
        None => {
            return Err(SysError::Anyhow("`market` parse failed!".to_owned()));
        },
    };
    let n = match name {
        Some(n) => n,
        None => {
            return Err(SysError::Anyhow("`name` parse failed!".to_owned()));
        },
    };
    Ok((s, m, n))
}

} // verus!
