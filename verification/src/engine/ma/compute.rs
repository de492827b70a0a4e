//! Moving-average kinds.

use vstd::prelude::*;
use crate::text::{eq_ascii_lowercase, ascii_lowercase};

verus! {

/// Moving-average algorithms.
#[derive(Debug, Clone, Copy, PartialEq, Eq, Structural)]
pub enum MaKind {
    Sma,
    Ema,
    Wma,
}

/// Name of each algorithm, in small letters.
pub open spec fn ma_kind_name(k: MaKind) -> Seq<char> {
    match k {
        MaKind::Sma => "sma"@,
        MaKind::Ema => "ema"@,
        MaKind::Wma => "wma"@,
    }
}

impl MaKind {
    /// The algorithm named `s`, with ASCII letters compared without regard to case.
    pub fn parse(s: &str) -> (r: Option<MaKind>)
        ensures
            r matches Some(k) ==> ma_kind_name(k) == ascii_lowercase(s@),
            r is None <==> (forall|k: MaKind| ma_kind_name(k) != ascii_lowercase(s@)),
    {
        proof {
            reveal_strlit("sma");
            reveal_strlit("ema");
            reveal_strlit("wma");
        }
        let r = if eq_ascii_lowercase(s, "sma") {
            Some(MaKind::Sma)
        } else if eq_ascii_lowercase(s, "ema") {
            Some(MaKind::Ema)
        } else if eq_ascii_lowercase(s, "wma") {
            Some(MaKind::Wma)
        } else {
            assert forall|k: MaKind| ma_kind_name(k) != ascii_lowercase(s@) by {
                match k {
                    MaKind::Sma => {},
                    MaKind::Ema => {},
                    MaKind::Wma => {},
                }
            }
            None
        };
        proof {
            if let Some(k) = r {
                assert(ma_kind_name(k) == ascii_lowercase(s@));
            }
        }
        r
    }
}

/// Distinct algorithms have distinct names.
pub proof fn lemma_ma_kind_name_injective(a: MaKind, b: MaKind)
    ensures
        ma_kind_name(a) == ma_kind_name(b) ==> a == b,
{
    reveal_strlit("sma");
    reveal_strlit("ema");
    reveal_strlit("wma");
    if ma_kind_name(a) == ma_kind_name(b) {
        assert(ma_kind_name(a)[0] == ma_kind_name(b)[0]);
    }
}

/// Any casing of an algorithm's name parses to that algorithm: a result that
/// meets the contract of `MaKind::parse` on such an input is `Some(k)`.
pub proof fn lemma_ma_kind_parse_any_case(k: MaKind, s: Seq<char>, r: Option<MaKind>)
    requires
        ascii_lowercase(s) == ma_kind_name(k),
        r matches Some(j) ==> ma_kind_name(j) == ascii_lowercase(s),
        r is None <==> (forall|j: MaKind| ma_kind_name(j) != ascii_lowercase(s)),
    ensures
        r == Some(k),
{
    match r {
        Some(j) => lemma_ma_kind_name_injective(j, k),
        None => {
            assert(ma_kind_name(k) == ascii_lowercase(s));
        },
    }
}

} // verus!
