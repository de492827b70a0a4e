//! Candle timeframes (one to one with the exchange interval codes).

use vstd::prelude::*;
use crate::text::str_eq;

verus! {

/// Timeframe of a candle series.
#[derive(Debug, Clone, Copy, PartialEq, Eq, Hash, Structural)]
pub enum Timeframe {
    M1,
    M5,
    M15,
    M30,
    H1,
    H4,
    D1,
    W1,
    Mo1,
}

/// Interval code of each timeframe.
pub open spec fn timeframe_code(t: Timeframe) -> Seq<char> {
    match t {
        Timeframe::M1 => "1m"@,
        Timeframe::M5 => "5m"@,
        Timeframe::M15 => "15m"@,
        Timeframe::M30 => "30m"@,
        Timeframe::H1 => "1h"@,
        Timeframe::H4 => "4h"@,
        Timeframe::D1 => "1d"@,
        Timeframe::W1 => "1w"@,
        Timeframe::Mo1 => "1M"@,
    }
}

impl Timeframe {
    pub fn as_str(&self) -> (r: &'static str)
        ensures
            r@ == timeframe_code(*self),
    {
        match self {
            Timeframe::M1 => "1m",
            Timeframe::M5 => "5m",
            Timeframe::M15 => "15m",
            Timeframe::M30 => "30m",
            Timeframe::H1 => "1h",
            Timeframe::H4 => "4h",
            Timeframe::D1 => "1d",
            Timeframe::W1 => "1w",
            Timeframe::Mo1 => "1M",
        }
    }

    /// The timeframe whose interval code is `s`, if any.
    pub fn parse(s: &str) -> (r: Option<Timeframe>)
        ensures
            r matches Some(t) ==> timeframe_code(t) == s@,
            r is None <==> (forall|t: Timeframe| timeframe_code(t) != s@),
    {
        let r = Timeframe::parse_code(s);
        proof {
            if let Some(t) = r {
                assert(timeframe_code(t) == s@);
            }
        }
        r
    }

    fn parse_code(s: &str) -> (r: Option<Timeframe>)
        ensures
            r matches Some(t) ==> timeframe_code(t) == s@,
            r is None ==> (forall|t: Timeframe| timeframe_code(t) != s@),
    {
        if str_eq(s, "1m") {
            Some(Timeframe::M1)
        } else if str_eq(s, "5m") {
            Some(Timeframe::M5)
        } else if str_eq(s, "15m") {
            Some(Timeframe::M15)
        } else if str_eq(s, "30m") {
            Some(Timeframe::M30)
        } else if str_eq(s, "1h") {
            Some(Timeframe::H1)
        } else if str_eq(s, "4h") {
            Some(Timeframe::H4)
        } else if str_eq(s, "1d") {
            Some(Timeframe::D1)
        } else if str_eq(s, "1w") {
            Some(Timeframe::W1)
        } else if str_eq(s, "1M") {
            Some(Timeframe::Mo1)
        } else {
            assert forall|t: Timeframe| timeframe_code(t) != s@ by {
                match t {
                    Timeframe::M1 => {},
                    Timeframe::M5 => {},
                    Timeframe::M15 => {},
                    Timeframe::M30 => {},
                    Timeframe::H1 => {},
                    Timeframe::H4 => {},
                    Timeframe::D1 => {},
                    Timeframe::W1 => {},
                    Timeframe::Mo1 => {},
                }
            }
            None
        }
    }

    /// Length of one candle in milliseconds (a month is taken as 30 days).
    pub fn interval_ms(&self) -> (r: i64)
        ensures
            r == timeframe_minutes(*self) * 60_000,
    {
        match self {
            Timeframe::M1 => 60_000,
            Timeframe::M5 => 5 * 60_000,
            Timeframe::M15 => 15 * 60_000,
            Timeframe::M30 => 30 * 60_000,
            Timeframe::H1 => 60 * 60_000,
            Timeframe::H4 => 4 * 60 * 60_000,
            Timeframe::D1 => 24 * 60 * 60_000,
            Timeframe::W1 => 7 * 24 * 60 * 60_000,
            Timeframe::Mo1 => 30 * 24 * 60 * 60_000,
        }
    }
}

/// Length of each timeframe in minutes (a month counts 30 days).
pub open spec fn timeframe_minutes(t: Timeframe) -> int {
    match t {
        Timeframe::M1 => 1,
        Timeframe::M5 => 5,
        Timeframe::M15 => 15,
        Timeframe::M30 => 30,
        Timeframe::H1 => 60,
        Timeframe::H4 => 240,
        Timeframe::D1 => 1440,
        Timeframe::W1 => 10080,
        Timeframe::Mo1 => 43200,
    }
}

/// Rank of a timeframe from the finest (0) to the coarsest (8).
pub open spec fn timeframe_rank(t: Timeframe) -> int {
    match t {
        Timeframe::M1 => 0,
        Timeframe::M5 => 1,
        Timeframe::M15 => 2,
        Timeframe::M30 => 3,
        Timeframe::H1 => 4,
        Timeframe::H4 => 5,
        Timeframe::D1 => 6,
        Timeframe::W1 => 7,
        Timeframe::Mo1 => 8,
    }
}

/// Distinct timeframes have distinct interval codes, so the code names the timeframe.
pub proof fn lemma_timeframe_code_injective(a: Timeframe, b: Timeframe)
    ensures
        timeframe_code(a) == timeframe_code(b) ==> a == b,
{
    reveal_strlit("1m");
    reveal_strlit("5m");
    reveal_strlit("15m");
    reveal_strlit("30m");
    reveal_strlit("1h");
    reveal_strlit("4h");
    reveal_strlit("1d");
    reveal_strlit("1w");
    reveal_strlit("1M");
    if timeframe_code(a) == timeframe_code(b) {
        assert(timeframe_code(a).len() == timeframe_code(b).len());
        assert(timeframe_code(a)[0] == timeframe_code(b)[0]);
        assert(timeframe_code(a)[1] == timeframe_code(b)[1]);
    }
}

/// Parsing the code of a timeframe gives that timeframe back.
pub proof fn lemma_timeframe_code_round_trip(t: Timeframe, s: Seq<char>, r: Option<Timeframe>)
    requires
        s == timeframe_code(t),
        r matches Some(u) ==> timeframe_code(u) == s,
        r is None <==> (forall|u: Timeframe| timeframe_code(u) != s),
    ensures
        r == Some(t),
{
    match r {
        Some(u) => lemma_timeframe_code_injective(u, t),
        None => {
            assert(timeframe_code(t) == s);
        },
    }
}

/// A coarser timeframe has a strictly longer interval.
pub proof fn lemma_interval_monotone(a: Timeframe, b: Timeframe)
    ensures
        timeframe_rank(a) < timeframe_rank(b) ==> timeframe_minutes(a) < timeframe_minutes(b),
        timeframe_minutes(a) > 0,
{
}

} // verus!
