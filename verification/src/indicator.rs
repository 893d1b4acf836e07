//! The candlestick patterns the application looks for, their names, and the
//! bookkeeping around a pattern check.

use vstd::prelude::*;
use crate::text::str_equals;
use crate::error::SysError;

verus! {

/// The bit pattern of the IEEE-754 double 0.5, the penetration used when a
/// pattern does not give its own.
pub const DEFAULT_PENETRATION_BITS: u64 = 0x3FE0000000000000u64;

/// A candlestick pattern. The variants that end in `SP` carry their own
/// penetration, held as the bit pattern of an IEEE-754 double.
#[derive(Clone, Copy, Debug, PartialEq, Eq, Structural)]
pub enum KLinePattern {
    /// Dark cloud cover.
    CDLDarkCloudCover,
    /// Dark cloud cover with its own penetration.
    CDLDarkCloudCoverSP(u64),
    /// Two crows.
    CDL2Crows,
    /// Three black crows.
    CDL3BlackCrows,
    /// Upside gap two crows.
    CDLUpSideGap2Crows,
    /// Doji star.
    CDLDojiStar,
    /// Evening doji star.
    CDLEveningDojiStar,
    /// Evening doji star with its own penetration.
    CDLEveningDojiStarSP(u64),
    /// Identical three crows.
    CDLIdentical3Crows,
    /// A name that matches no pattern.
    Unknown,
}

/// The technical-analysis routine that checks a pattern, with the
/// penetration it is given where it takes one (as the bit pattern of an
/// IEEE-754 double).
#[derive(Clone, Copy, Debug, PartialEq, Eq, Structural)]
pub enum PatternRoutine {
    DarkCloudCover(u64),
    TwoCrows,
    ThreeBlackCrows,
    UpsideGapTwoCrows,
    DojiStar,
    EveningDojiStar(u64),
    IdenticalThreeCrows,
}

impl KLinePattern {
    /// Whether the pattern carries its own penetration.
    pub open spec fn is_sp(self) -> bool {
        self is CDLDarkCloudCoverSP || self is CDLEveningDojiStarSP
    }
}

/// The name under which a pattern is shown and stored; the variants with
/// their own penetration, like `Unknown`, show as `unknown`.
pub open spec fn pattern_name(kp: KLinePattern) -> Seq<char> {
    match kp {
        KLinePattern::CDLDarkCloudCover => "cDLDarkCloudCover"@,
        KLinePattern::CDL2Crows => "cDL2Crows"@,
        KLinePattern::CDL3BlackCrows => "cDL3BlackCrows"@,
        KLinePattern::CDLUpSideGap2Crows => "cDLUpSideGap2Crows"@,
        KLinePattern::CDLDojiStar => "cDLDojiStar"@,
        KLinePattern::CDLEveningDojiStar => "cDLEveningDojiStar"@,
        KLinePattern::CDLIdentical3Crows => "cDLIdentical3Crows"@,
        _ => "unknown"@,
    }
}

/// The pattern a name stands for; a name of no pattern gives `Unknown`.
pub open spec fn pattern_from_name(s: Seq<char>) -> KLinePattern {
    if s == "cDLDarkCloudCover"@ {
        KLinePattern::CDLDarkCloudCover
    } else if s == "cDL2Crows"@ {
        KLinePattern::CDL2Crows
    } else if s == "cDL3BlackCrows"@ {
        KLinePattern::CDL3BlackCrows
    } else if s == "cDLUpSideGap2Crows"@ {
        KLinePattern::CDLUpSideGap2Crows
    } else if s == "cDLDojiStar"@ {
        KLinePattern::CDLDojiStar
    } else if s == "cDLEveningDojiStar"@ {
        KLinePattern::CDLEveningDojiStar
    } else if s == "cDLIdentical3Crows"@ {
        KLinePattern::CDLIdentical3Crows
    } else {
        KLinePattern::Unknown
    }
}

/// The routine that checks a pattern; `Unknown` has none.
pub open spec fn pattern_routine(kp: KLinePattern) -> Option<PatternRoutine> {
    match kp {
        KLinePattern::CDLDarkCloudCover => Some(
            PatternRoutine::DarkCloudCover(DEFAULT_PENETRATION_BITS),
        ),
        KLinePattern::CDLDarkCloudCoverSP(t) => Some(PatternRoutine::DarkCloudCover(t)),
        KLinePattern::CDL2Crows => Some(PatternRoutine::TwoCrows),
        KLinePattern::CDL3BlackCrows => Some(PatternRoutine::ThreeBlackCrows),
        KLinePattern::CDLUpSideGap2Crows => Some(PatternRoutine::UpsideGapTwoCrows),
        KLinePattern::CDLDojiStar => Some(PatternRoutine::DojiStar),
        KLinePattern::CDLEveningDojiStar => Some(
            PatternRoutine::EveningDojiStar(DEFAULT_PENETRATION_BITS),
        ),
        KLinePattern::CDLEveningDojiStarSP(t) => Some(PatternRoutine::EveningDojiStar(t)),
        KLinePattern::CDLIdentical3Crows => Some(PatternRoutine::IdenticalThreeCrows),
        KLinePattern::Unknown => None,
    }
}

/// The patterns checked for every day, in the order they are checked.
pub open spec fn checked_patterns() -> Seq<KLinePattern> {
    seq![
        KLinePattern::CDLDarkCloudCover,
        KLinePattern::CDL2Crows,
        KLinePattern::CDL3BlackCrows,
        KLinePattern::CDLUpSideGap2Crows,
        KLinePattern::CDLDojiStar,
        KLinePattern::CDLEveningDojiStar,
        KLinePattern::CDLIdentical3Crows,
    ]
}

impl KLinePattern {
    /// The name under which the pattern is shown and stored.
    pub fn to_string(&self) -> (s: String)
        ensures
            s@ == pattern_name(*self),
    {
        match self {
            KLinePattern::CDLDarkCloudCover => "cDLDarkCloudCover".to_owned(),
            KLinePattern::CDL2Crows => "cDL2Crows".to_owned(),
            KLinePattern::CDL3BlackCrows => "cDL3BlackCrows".to_owned(),
            KLinePattern::CDLUpSideGap2Crows => "cDLUpSideGap2Crows".to_owned(),
            KLinePattern::CDLDojiStar => "cDLDojiStar".to_owned(),
            KLinePattern::CDLEveningDojiStar => "cDLEveningDojiStar".to_owned(),
            KLinePattern::CDLIdentical3Crows => "cDLIdentical3Crows".to_owned(),
            KLinePattern::Unknown => "unknown".to_owned(),
            _ => "unknown".to_owned(),
        }
    }

    /// The pattern a name stands for.
    pub fn from_name(kp: &str) -> (r: KLinePattern)
        ensures
            r == pattern_from_name(kp@),
    {
        if str_equals(kp, "cDLDarkCloudCover") {
            KLinePattern::CDLDarkCloudCover
        } else if str_equals(kp, "cDL2Crows") {
            KLinePattern::CDL2Crows
        } else if str_equals(kp, "cDL3BlackCrows") {
            KLinePattern::CDL3BlackCrows
        } else if str_equals(kp, "cDLUpSideGap2Crows") {
            KLinePattern::CDLUpSideGap2Crows
        } else if str_equals(kp, "cDLDojiStar") {
            KLinePattern::CDLDojiStar
        } else if str_equals(kp, "cDLEveningDojiStar") {
            KLinePattern::CDLEveningDojiStar
        } else if str_equals(kp, "cDLIdentical3Crows") {
            KLinePattern::CDLIdentical3Crows
        } else {
            KLinePattern::Unknown
        }
    }

    /// The routine that checks the pattern, with its penetration; a pattern
    /// without a routine is an error.
    pub fn routine(&self) -> (r: Result<PatternRoutine, SysError>)
        ensures
            match pattern_routine(*self) {
                Some(p) => r == Ok::<PatternRoutine, SysError>(p),
                None => r matches Err(SysError::Anyhow(m)) && m@
                    == "kline pattern not implemented"@,
            },
    {
        match self {
            KLinePattern::CDLDarkCloudCover => Ok(
                PatternRoutine::DarkCloudCover(DEFAULT_PENETRATION_BITS),
            ),
            KLinePattern::CDLDarkCloudCoverSP(t) => Ok(PatternRoutine::DarkCloudCover(*t)),
            KLinePattern::CDL2Crows => Ok(PatternRoutine::TwoCrows),
            KLinePattern::CDL3BlackCrows => Ok(PatternRoutine::ThreeBlackCrows),
            KLinePattern::CDLUpSideGap2Crows => Ok(PatternRoutine::UpsideGapTwoCrows),
            KLinePattern::CDLDojiStar => Ok(PatternRoutine::DojiStar),
            KLinePattern::CDLEveningDojiStar => Ok(
                PatternRoutine::EveningDojiStar(DEFAULT_PENETRATION_BITS),
            ),
            KLinePattern::CDLEveningDojiStarSP(t) => Ok(PatternRoutine::EveningDojiStar(*t)),
            KLinePattern::CDLIdentical3Crows => Ok(PatternRoutine::IdenticalThreeCrows),
            KLinePattern::Unknown => Err(
                SysError::Anyhow("kline pattern not implemented".to_owned()),
            ),
        }
    }
}

impl From<String> for KLinePattern {
    fn from(kp: String) -> (r: Self) {
        KLinePattern::from_name(kp.as_str())
    }
}

impl vstd::std_specs::convert::FromSpecImpl<String> for KLinePattern {
    open spec fn obeys_from_spec() -> bool {
        true
    }

    open spec fn from_spec(v: String) -> Self {
        pattern_from_name(v@)
    }
}

/// The patterns checked for every day, in the order they are checked.
pub fn all_kline_patterns() -> (v: Vec<KLinePattern>)
    ensures
        v@ == checked_patterns(),
{
    let v = vec![
        KLinePattern::CDLDarkCloudCover,
        KLinePattern::CDL2Crows,
        KLinePattern::CDL3BlackCrows,
        KLinePattern::CDLUpSideGap2Crows,
        KLinePattern::CDLDojiStar,
        KLinePattern::CDLEveningDojiStar,
        KLinePattern::CDLIdentical3Crows,
    ];
    assert(v@ =~= checked_patterns());
    v
}

/// The signal a routine gives for the last day of its input: the last
/// output value, or 0 when there is none.
pub fn last_signal(out: &Vec<i32>) -> (r: i32)
    ensures
        r == (if out@.len() == 0 {
            0
        } else {
            out@.last()
        }),
{
    if out.len() == 0 {
        0
    } else {
        out[out.len() - 1]
    }
}

/// Whether any pattern showed on a day: some signal is not zero.
pub fn is_kline_special(signals: &Vec<i64>) -> (r: bool)
    ensures
        r == exists|i: int| 0 <= i < signals@.len() && signals@[i] != 0,
{
    let mut count: usize = 0;
    let mut i: usize = 0;
    while i < signals.len()
        invariant
            i <= signals.len(),
            count <= i,
            (count > 0) == exists|j: int| 0 <= j < i && signals@[j] != 0,
        decreases signals.len() - i,
    {
        if signals[i] != 0 {
            count = count + 1;
        }
        i = i + 1;
    }
    count > 0
}

/// Every pattern other than those with their own penetration reads back
/// from its name; no name reads as a pattern with its own penetration; and
/// a name of no pattern reads as `Unknown`.
pub proof fn lemma_pattern_name_round_trip(kp: KLinePattern, s: Seq<char>)
    ensures
        !kp.is_sp() ==> pattern_from_name(pattern_name(kp)) == kp,
        !pattern_from_name(s).is_sp(),
        kp.is_sp() ==> pattern_name(kp) == pattern_name(KLinePattern::Unknown),
{
    reveal_strlit("cDLDarkCloudCover");
    reveal_strlit("cDL2Crows");
    reveal_strlit("cDL3BlackCrows");
    reveal_strlit("cDLUpSideGap2Crows");
    reveal_strlit("cDLDojiStar");
    reveal_strlit("cDLEveningDojiStar");
    reveal_strlit("cDLIdentical3Crows");
    reveal_strlit("unknown");
    let n1 = "cDLDarkCloudCover"@;
    let n2 = "cDL2Crows"@;
    let n3 = "cDL3BlackCrows"@;
    let n4 = "cDLUpSideGap2Crows"@;
    let n5 = "cDLDojiStar"@;
    let n6 = "cDLEveningDojiStar"@;
    let n7 = "cDLIdentical3Crows"@;
    let u = "unknown"@;
    assert(n1.len() == 17 && n2.len() == 9 && n3.len() == 14 && n4.len() == 18);
    assert(n5.len() == 11 && n6.len() == 18 && n7.len() == 18 && u.len() == 7);
    assert(n4[3] == 'U' && n6[3] == 'E' && n7[3] == 'I');
    assert(n4 != n6 && n4 != n7 && n6 != n7);
}

/// Two patterns without their own penetration that show the same name are
/// the same pattern.
pub proof fn lemma_pattern_name_injective(a: KLinePattern, b: KLinePattern)
    requires
        !a.is_sp(),
        !b.is_sp(),
        pattern_name(a) == pattern_name(b),
    ensures
        a == b,
{
    lemma_pattern_name_round_trip(a, Seq::empty());
    lemma_pattern_name_round_trip(b, Seq::empty());
}

/// Each pattern is checked by its own routine: the table below is the one
/// the checks run (dark cloud cover and evening doji star with penetration
/// 0.5 unless the pattern carries its own), `Unknown` has no routine, and
/// two different patterns without their own penetration never share a
/// routine.
pub proof fn lemma_pattern_routines(a: KLinePattern, b: KLinePattern, t: u64)
    ensures
        pattern_routine(KLinePattern::CDLDarkCloudCover) == Some(
            PatternRoutine::DarkCloudCover(0x3FE0000000000000u64),
        ),
        pattern_routine(KLinePattern::CDLDarkCloudCoverSP(t)) == Some(
            PatternRoutine::DarkCloudCover(t),
        ),
        pattern_routine(KLinePattern::CDL2Crows) == Some(PatternRoutine::TwoCrows),
        pattern_routine(KLinePattern::CDL3BlackCrows) == Some(PatternRoutine::ThreeBlackCrows),
        pattern_routine(KLinePattern::CDLUpSideGap2Crows) == Some(
            PatternRoutine::UpsideGapTwoCrows,
        ),
        pattern_routine(KLinePattern::CDLDojiStar) == Some(PatternRoutine::DojiStar),
        pattern_routine(KLinePattern::CDLEveningDojiStar) == Some(
            PatternRoutine::EveningDojiStar(0x3FE0000000000000u64),
        ),
        pattern_routine(KLinePattern::CDLEveningDojiStarSP(t)) == Some(
            PatternRoutine::EveningDojiStar(t),
        ),
        pattern_routine(KLinePattern::CDLIdentical3Crows) == Some(
            PatternRoutine::IdenticalThreeCrows,
        ),
        pattern_routine(KLinePattern::Unknown) is None,
        !a.is_sp() && !b.is_sp() && a != b && pattern_routine(a) is Some ==> pattern_routine(a)
            != pattern_routine(b),
{
}

} // verus!
