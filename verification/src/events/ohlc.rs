//! The OHLC (candle) endpoint of token prices: reading and checking its
//! request.
use vstd::prelude::*;
use crate::text::{parse_i64, parse_i64_spec, parse_usize, parse_usize_spec};
use super::{keyed_lookup, lemma_keyed_lookup_at};

verus! {

/// A character that a NEAR account identifier may hold.
pub open spec fn is_account_char(c: char) -> bool {
    ('a' <= c && c <= 'z') || ('0' <= c && c <= '9') || c == '-' || c == '_' || c == '.'
}

/// A separator of the parts of a NEAR account identifier.
pub open spec fn is_account_separator(c: char) -> bool {
    c == '-' || c == '_' || c == '.'
}

/// The texts that `near_account_id::AccountId::validate` accepts: 2 to 64
/// characters among lowercase letters, digits and the separators `-`, `_`,
/// `.`, neither starting nor ending with a separator, and with no two
/// separators in a row.
pub open spec fn near_account_id_valid(s: Seq<char>) -> bool {
    &&& 2 <= s.len() <= 64
    &&& forall|i: int| 0 <= i < s.len() ==> is_account_char(#[trigger] s[i])
    &&& !is_account_separator(s[0])
    &&& !is_account_separator(s.last())
    &&& forall|i: int|
        0 <= i < s.len() - 1 ==> !(is_account_separator(#[trigger] s[i]) && is_account_separator(
            s[i + 1],
        ))
}

/// `near_account_id::AccountId::validate`: accepts exactly the NEAR account
/// identifiers.
#[verifier::external_body]
fn account_id_is_valid(text: &str) -> (r: bool)
    ensures
        r == near_account_id_valid(text@),
{
    near_account_id::AccountId::validate(text).is_ok()
}

/// Whether `chrono::DateTime::from_timestamp_millis` accepts a count of
/// milliseconds: the moment is within the range that chrono represents,
/// January 1 of the year -262143 to the end of December 31 of the year 262142.
pub open spec fn chrono_millis_valid(millis: i64) -> bool {
    -8_334_601_228_800_000 <= millis <= 8_210_266_876_799_999
}

/// `chrono::DateTime::<Utc>::from_timestamp_millis(millis).is_some()`.
#[verifier::external_body]
fn utc_millis_exist(millis: i64) -> (r: bool)
    ensures
        r == chrono_millis_valid(millis),
{
    chrono::DateTime::from_timestamp_millis(millis).is_some()
}

/// The width of a candle.
#[derive(Debug, Clone, Copy, PartialEq, Eq, Structural)]
pub enum OhlcResolution {
    OneMinute,
    OneHour,
}

impl OhlcResolution {
    /// Reads a resolution: `1` is one minute, `60` is one hour.
    pub fn from_str(s: &str) -> (r: Result<OhlcResolution, ()>)
        ensures
            r == (if s@ == "1"@ {
                Ok(OhlcResolution::OneMinute)
            } else if s@ == "60"@ {
                Ok(OhlcResolution::OneHour)
            } else {
                Err(())
            }),
    {
        proof {
            reveal_strlit("1");
            reveal_strlit("60");
        }
        let sc = crate::text::chars_of(s);
        if sc.len() == 1 && sc[0] == '1' {
            assert(s@ =~= "1"@);
            Ok(OhlcResolution::OneMinute)
        } else if sc.len() == 2 && sc[0] == '6' && sc[1] == '0' {
            assert(s@ =~= "60"@);
            Ok(OhlcResolution::OneHour)
        } else {
            proof {
                if s@ == "1"@ {
                    assert(sc@[0] == '1');
                }
                if s@ == "60"@ {
                    assert(sc@[0] == '6' && sc@[1] == '0');
                }
            }
            Err(())
        }
    }
}

/// The most candles one request may ask for.
pub const MAX_COUNT_BACK: usize = 1000;

/// A checked candle request: the token, the candle width, how many candles,
/// and the moment (milliseconds since the Unix epoch) before which they end.
#[derive(Debug)]
pub struct OhlcRequest {
    pub token: String,
    pub resolution: OhlcResolution,
    pub count_back: usize,
    pub to_millis: i64,
}

impl OhlcRequest {
    /// How many rows the request reads: one more than the candles, for the
    /// close that opens the first candle.
    pub fn row_limit(&self) -> (r: i64)
        requires
            self.count_back <= MAX_COUNT_BACK,
        ensures
            r == self.count_back + 1,
    {
        self.count_back as i64 + 1
    }
}

/// Marks the OHLC endpoint of token prices.
pub struct OhlcEndpoint;

impl OhlcEndpoint {
    /// The name of the endpoint.
    pub fn name(&self) -> (r: &'static str)
        ensures
            r@ == "ohlc"@,
    {
        "ohlc"
    }
}

/// The outcome of reading a candle request from the query parameters
/// (`query`, a list of distinct names with their values): the request, or
/// the message of the first missing or invalid parameter.
pub open spec fn ohlc_request_spec(query: Seq<(String, String)>) -> Result<(Seq<char>, OhlcResolution, usize, i64), Seq<char>> {
    match keyed_lookup(query, "token"@) {
        None => Err("token is required"@),
        Some(token) => if !near_account_id_valid(token@) {
            Err("invalid token"@)
        } else {
            match keyed_lookup(query, "resolution"@) {
                None => Err("resolution is required"@),
                Some(res) => if res@ != "1"@ && res@ != "60"@ {
                    Err("invalid resolution"@)
                } else {
                    let resolution = if res@ == "1"@ {
                        OhlcResolution::OneMinute
                    } else {
                        OhlcResolution::OneHour
                    };
                    match keyed_lookup(query, "count_back"@) {
                        None => Err("count_back is required"@),
                        Some(cb) => match parse_usize_spec(cb@) {
                            None => Err("invalid count_back"@),
                            Some(count_back) => if count_back > 1000 {
                                Err("count_back must be less than or equal to 1000"@)
                            } else {
                                match keyed_lookup(query, "to"@) {
                                    None => Err("to is required"@),
                                    Some(to) => match parse_i64_spec(to@) {
                                        None => Err("invalid to"@),
                                        Some(millis) => if !chrono_millis_valid(millis) {
                                            Err("invalid to"@)
                                        } else {
                                            Ok((token@, resolution, count_back, millis))
                                        },
                                    },
                                }
                            },
                        },
                    }
                },
            }
        },
    }
}

fn query_get<'a>(query: &'a Vec<(String, String)>, name: &str) -> (r: Option<&'a String>)
    ensures
        match r {
            Some(v) => keyed_lookup(query@, name@) == Some(*v),
            None => keyed_lookup(query@, name@) is None,
        },
{
    let key = String::from_str(name);
    let mut i: usize = 0;
    while i < query.len()
        invariant
            0 <= i <= query.len(),
            key@ == name@,
            forall|k: int| 0 <= k < i ==> (#[trigger] query@[k]).0@ != name@,
        decreases query.len() - i,
    {
        if query[i].0 == key {
            proof {
                lemma_keyed_lookup_at(query@, name@, i as int);
            }
            return Some(&query[i].1);
        }
        i = i + 1;
    }
    proof {
        lemma_keyed_lookup_at(query@, name@, i as int);
    }
    None
}

/// Reads and checks a candle request from the query parameters; a refused
/// request is answered with status 400 and the returned message.
pub fn parse_ohlc_request(query: &Vec<(String, String)>) -> (r: Result<OhlcRequest, String>)
    ensures
        match (r, ohlc_request_spec(query@)) {
            (Ok(req), Ok((token, resolution, count_back, to))) => req.token@ == token
                && req.resolution == resolution && req.count_back == count_back && req.to_millis
                == to,
            (Err(m), Err(e)) => m@ == e,
            _ => false,
        },
{
    let token = match query_get(query, "token") {
        None => return Err(String::from_str("token is required")),
        Some(t) => t,
    };
    if !account_id_is_valid(token.as_str()) {
        return Err(String::from_str("invalid token"));
    }
    let res_text = match query_get(query, "resolution") {
        None => return Err(String::from_str("resolution is required")),
        Some(t) => t,
    };
    let resolution = match OhlcResolution::from_str(res_text.as_str()) {
        Ok(r) => r,
        Err(_) => return Err(String::from_str("invalid resolution")),
    };
    let cb_text = match query_get(query, "count_back") {
        None => return Err(String::from_str("count_back is required")),
        Some(t) => t,
    };
    let count_back = match parse_usize(cb_text.as_str()) {
        None => return Err(String::from_str("invalid count_back")),
        Some(n) => n,
    };
    if count_back > MAX_COUNT_BACK {
        return Err(String::from_str("count_back must be less than or equal to 1000"));
    }
    let to_text = match query_get(query, "to") {
        None => return Err(String::from_str("to is required")),
        Some(t) => t,
    };
    let to = match parse_i64(to_text.as_str()) {
        None => return Err(String::from_str("invalid to")),
        Some(v) => v,
    };
    if !utc_millis_exist(to) {
        return Err(String::from_str("invalid to"));
    }
    Ok(OhlcRequest { token: token.clone(), resolution, count_back, to_millis: to })
}

/// A price of the candle table: its text with 42 significant digits, and its
/// rank, an integer that orders prices as their values do (equal prices have
/// equal ranks and equal texts).
#[derive(Debug)]
pub struct RankedPrice {
    pub rank: u64,
    pub text: String,
}

/// A row of the candle table, newest first: the start of its bucket
/// (milliseconds since the Unix epoch) and its high, low and close prices,
/// any of which may be missing.
#[derive(Debug)]
pub struct OhlcRow {
    pub bucket_millis: Option<i64>,
    pub high: Option<RankedPrice>,
    pub low: Option<RankedPrice>,
    pub close: Option<RankedPrice>,
}

/// A candle of the answer: its time and the texts of its prices.
#[derive(Debug)]
pub struct OhlcBar {
    pub time_millis: i64,
    pub open: String,
    pub high: String,
    pub low: String,
    pub close: String,
}

/// A price of a row, or the zero price where it is missing.
pub open spec fn price_or(p: Option<RankedPrice>, zero: RankedPrice) -> RankedPrice {
    match p {
        Some(x) => x,
        None => zero,
    }
}

/// The larger of two prices; the second when they are equal.
pub open spec fn price_max(a: RankedPrice, b: RankedPrice) -> RankedPrice {
    if a.rank > b.rank {
        a
    } else {
        b
    }
}

/// The smaller of two prices; the first when they are equal.
pub open spec fn price_min(a: RankedPrice, b: RankedPrice) -> RankedPrice {
    if a.rank <= b.rank {
        a
    } else {
        b
    }
}

/// The candle of `row`, opened at the close of the row before it: its high
/// and low also take that close into account.
pub open spec fn candle_of(prev: OhlcRow, row: OhlcRow, zero: RankedPrice) -> (i64, Seq<char>, Seq<char>, Seq<char>, Seq<char>) {
    let open = price_or(prev.close, zero);
    (
        match row.bucket_millis {
            Some(t) => t,
            None => 0,
        },
        open.text@,
        price_max(price_or(row.high, zero), open).text@,
        price_min(price_or(row.low, zero), open).text@,
        price_or(row.close, zero).text@,
    )
}

/// The content of a candle.
pub open spec fn bar_view(b: OhlcBar) -> (i64, Seq<char>, Seq<char>, Seq<char>, Seq<char>) {
    (b.time_millis, b.open@, b.high@, b.low@, b.close@)
}

fn price_of<'a>(p: &'a Option<RankedPrice>, zero: &'a RankedPrice) -> (r: &'a RankedPrice)
    ensures
        *r == price_or(*p, *zero),
{
    match p {
        Some(x) => x,
        None => zero,
    }
}

/// The candles of the rows (read newest first, one more than the candles):
/// the first row only gives the open of the second one's candle; each later
/// row gives one candle opened at the close of the row before it. Missing
/// prices count as `zero`, a missing bucket as the epoch.
pub fn ohlc_bars(rows: &Vec<OhlcRow>, zero: &RankedPrice) -> (r: Vec<OhlcBar>)
    ensures
        rows.len() == 0 ==> r.len() == 0,
        rows.len() > 0 ==> r.len() == rows.len() - 1,
        forall|i: int|
            0 <= i < r.len() ==> bar_view(#[trigger] r@[i]) == candle_of(rows@[i], rows@[i + 1], *zero),
{
    let mut bars: Vec<OhlcBar> = Vec::new();
    if rows.len() == 0 {
        return bars;
    }
    let mut i: usize = 1;
    while i < rows.len()
        invariant
            1 <= i <= rows.len(),
            bars.len() == i - 1,
            forall|k: int|
                0 <= k < bars.len() ==> bar_view(#[trigger] bars@[k]) == candle_of(
                    rows@[k],
                    rows@[k + 1],
                    *zero,
                ),
        decreases rows.len() - i,
    {
        let open = price_of(&rows[i - 1].close, zero);
        let row = &rows[i];
        let high_in = price_of(&row.high, zero);
        let low_in = price_of(&row.low, zero);
        let high = if high_in.rank > open.rank {
            high_in
        } else {
            open
        };
        let low = if low_in.rank <= open.rank {
            low_in
        } else {
            open
        };
        let time_millis = match row.bucket_millis {
            Some(t) => t,
            None => 0,
        };
        let bar = OhlcBar {
            time_millis,
            open: open.text.clone(),
            high: high.text.clone(),
            low: low.text.clone(),
            close: price_of(&row.close, zero).text.clone(),
        };
        bars.push(bar);
        i = i + 1;
    }
    bars
}

/// Consecutive candles meet: each candle opens at the close of the candle
/// before it, and its high is no lower, and its low no higher, than that
/// open.
pub proof fn law_candles_open_at_previous_close(rows: Seq<OhlcRow>, zero: RankedPrice, i: int)
    requires
        1 <= i,
        i + 1 < rows.len(),
    ensures
        candle_of(rows[i], rows[i + 1], zero).1 == candle_of(rows[i - 1], rows[i], zero).4,
        price_max(price_or(rows[i + 1].high, zero), price_or(rows[i].close, zero)).rank
            >= price_or(rows[i].close, zero).rank,
        price_min(price_or(rows[i + 1].low, zero), price_or(rows[i].close, zero)).rank
            <= price_or(rows[i].close, zero).rank,
{
}

/// The candles of `ohlc_bars`: each candle after the first row opens at the
/// close of the row before it and closes at its row's close; its high is the
/// higher, and its low the lower, of its row's price and its open (each
/// taken from one of the two). Missing prices count as `zero`.
pub proof fn law_candles_hold_their_open(rows: Seq<OhlcRow>, zero: RankedPrice, bars: Seq<OhlcBar>)
    requires
        rows.len() > 0 ==> bars.len() == rows.len() - 1,
        rows.len() == 0 ==> bars.len() == 0,
        forall|i: int|
            0 <= i < bars.len() ==> bar_view(#[trigger] bars[i]) == candle_of(rows[i], rows[i + 1], zero),
    ensures
        forall|i: int|
            0 <= i < bars.len() ==> {
                let open = price_or(#[trigger] rows[i].close, zero);
                let high = price_or(rows[i + 1].high, zero);
                let low = price_or(rows[i + 1].low, zero);
                &&& bars[i].open@ == open.text@
                &&& bars[i].close@ == price_or(rows[i + 1].close, zero).text@
                &&& bars[i].time_millis == match rows[i + 1].bucket_millis {
                    Some(t) => t,
                    None => 0,
                }
                &&& exists|p: RankedPrice|
                    (p == high || p == open) && bars[i].high@ == p.text@ && p.rank >= high.rank
                        && p.rank >= open.rank
                &&& exists|p: RankedPrice|
                    (p == low || p == open) && bars[i].low@ == p.text@ && p.rank <= low.rank
                        && p.rank <= open.rank
            },
{
    assert forall|i: int| 0 <= i < bars.len() implies {
        let open = price_or(#[trigger] rows[i].close, zero);
        let high = price_or(rows[i + 1].high, zero);
        let low = price_or(rows[i + 1].low, zero);
        &&& bars[i].open@ == open.text@
        &&& bars[i].close@ == price_or(rows[i + 1].close, zero).text@
        &&& bars[i].time_millis == match rows[i + 1].bucket_millis {
            Some(t) => t,
            None => 0,
        }
        &&& exists|p: RankedPrice|
            (p == high || p == open) && bars[i].high@ == p.text@ && p.rank >= high.rank
                && p.rank >= open.rank
        &&& exists|p: RankedPrice|
            (p == low || p == open) && bars[i].low@ == p.text@ && p.rank <= low.rank
                && p.rank <= open.rank
    } by {
        assert(bar_view(bars[i]) == candle_of(rows[i], rows[i + 1], zero));
        let open = price_or(rows[i].close, zero);
        let hp = price_max(price_or(rows[i + 1].high, zero), open);
        let lp = price_min(price_or(rows[i + 1].low, zero), open);
        assert(bars[i].high@ == hp.text@);
        assert(bars[i].low@ == lp.text@);
    }
}

/// An accepted candle request holds what its parameters say: the token is
/// the `token` parameter, the resolution is one minute for `resolution=1`
/// and one hour for `resolution=60`, the number of candles is the
/// `count_back` parameter (at most 1000), and the end is the `to` parameter.
pub proof fn law_accepted_request_reads_its_parameters(
    query: Seq<(String, String)>,
    token: Seq<char>,
    resolution: OhlcResolution,
    count_back: usize,
    to: i64,
)
    requires
        ohlc_request_spec(query) == Ok::<(Seq<char>, OhlcResolution, usize, i64), Seq<char>>(
            (token, resolution, count_back, to),
        ),
    ensures
        keyed_lookup(query, "token"@) matches Some(t) && t@ == token,
        keyed_lookup(query, "resolution"@) matches Some(r) && ((r@ == "1"@ && resolution
            == OhlcResolution::OneMinute) || (r@ == "60"@ && resolution == OhlcResolution::OneHour)),
        keyed_lookup(query, "count_back"@) matches Some(c) && parse_usize_spec(c@) == Some(
            count_back,
        ) && count_back <= MAX_COUNT_BACK,
        keyed_lookup(query, "to"@) matches Some(x) && parse_i64_spec(x@) == Some(to),
{
}

} // verus!
