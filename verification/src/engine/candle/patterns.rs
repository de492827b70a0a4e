//! Single, double, triple and multi-bar candlestick pattern kinds, with their
//! display names, star ratings and directions.

use vstd::prelude::*;

verus! {

/// Candlestick pattern kinds (one to five bars).
#[derive(Debug, Clone, Copy, PartialEq, Eq, Hash, Structural)]
pub enum PatternKind {
    BigBullCandle,
    BigBearCandle,
    DojiStar,
    LongDoji,
    SpinningTop,
    FlatLine,
    TShape,
    InvTShape,
    Hammer,
    HangingMan,
    InvertedHammer,
    ShootingStar,
    MarubozuBull,
    MarubozuBear,
    BullishEngulfing,
    BearishEngulfing,
    BullishHarami,
    BearishHarami,
    PiercingLine,
    DarkCloudCover,
    TweezersTop,
    TweezersBottom,
    GravestoneDoji,
    DragonflyDoji,
    OpenMarubozuBull,
    OpenMarubozuBear,
    CloseMarubozuBull,
    CloseMarubozuBear,
    InsideBar,
    OutsideBar,
    BullishHaramiCross,
    BearishHaramiCross,
    BullishCounterAttack,
    BearishCounterAttack,
    UpsideGapTwoCrows,
    MatchingLow,
    MatchingHigh,
    ThreeInsideUp,
    ThreeInsideDown,
    ThreeOutsideUp,
    ThreeOutsideDown,
    BullishAbandonedBaby,
    BearishAbandonedBaby,
    MorningDojiStar,
    EveningDojiStar,
    BullishStrike,
    BearishStrike,
    StickSandwichBull,
    StickSandwichBear,
    RisingThreeMethods,
    FallingThreeMethods,
    TowerTop,
    TowerBottom,
    IslandReversalTop,
    IslandReversalBottom,
    MorningStar,
    EveningStar,
    ThreeWhiteSoldiers,
    ThreeBlackCrows,
}

/// Display name of each pattern kind.
pub open spec fn pattern_label(k: PatternKind) -> Seq<char> {
    match k {
        PatternKind::BigBullCandle => "大阳线"@,
        PatternKind::BigBearCandle => "大阴线"@,
        PatternKind::DojiStar => "十字星"@,
        PatternKind::LongDoji => "长十字线"@,
        PatternKind::SpinningTop => "螺旋桨"@,
        PatternKind::FlatLine => "一字线"@,
        PatternKind::TShape => "T 字线"@,
        PatternKind::InvTShape => "倒 T 字线"@,
        PatternKind::Hammer => "锤头线"@,
        PatternKind::HangingMan => "吊颈线"@,
        PatternKind::InvertedHammer => "倒锤头线"@,
        PatternKind::ShootingStar => "射击之星"@,
        PatternKind::MarubozuBull => "光头光脚大阳线"@,
        PatternKind::MarubozuBear => "光头光脚大阴线"@,
        PatternKind::BullishEngulfing => "看涨吞没（穿头破脚）"@,
        PatternKind::BearishEngulfing => "看跌吞没（穿头破脚）"@,
        PatternKind::BullishHarami => "看涨身怀六甲"@,
        PatternKind::BearishHarami => "看跌身怀六甲"@,
        PatternKind::PiercingLine => "曙光初现"@,
        PatternKind::DarkCloudCover => "乌云盖顶"@,
        PatternKind::TweezersTop => "镊子顶（平顶）"@,
        PatternKind::TweezersBottom => "镊子底（平底）"@,
        PatternKind::MorningStar => "早晨之星"@,
        PatternKind::EveningStar => "黄昏之星"@,
        PatternKind::ThreeWhiteSoldiers => "红三兵"@,
        PatternKind::ThreeBlackCrows => "黑三兵（三只乌鸦）"@,
        PatternKind::GravestoneDoji => "墓碑十字线"@,
        PatternKind::DragonflyDoji => "蜻蜓十字线"@,
        PatternKind::OpenMarubozuBull => "光头阳线"@,
        PatternKind::OpenMarubozuBear => "光头阴线"@,
        PatternKind::CloseMarubozuBull => "光脚阳线"@,
        PatternKind::CloseMarubozuBear => "光脚阴线"@,
        PatternKind::InsideBar => "内含线"@,
        PatternKind::OutsideBar => "外包线"@,
        PatternKind::BullishHaramiCross => "看涨十字孕线"@,
        PatternKind::BearishHaramiCross => "看跌十字孕线"@,
        PatternKind::BullishCounterAttack => "看涨反击线"@,
        PatternKind::BearishCounterAttack => "看跌反击线"@,
        PatternKind::UpsideGapTwoCrows => "向上跳空两只乌鸦"@,
        PatternKind::MatchingLow => "对应底"@,
        PatternKind::MatchingHigh => "对应顶"@,
        PatternKind::ThreeInsideUp => "三内部上涨"@,
        PatternKind::ThreeInsideDown => "三内部下跌"@,
        PatternKind::ThreeOutsideUp => "三外部上涨"@,
        PatternKind::ThreeOutsideDown => "三外部下跌"@,
        PatternKind::BullishAbandonedBaby => "看涨弃婴"@,
        PatternKind::BearishAbandonedBaby => "看跌弃婴"@,
        PatternKind::MorningDojiStar => "早晨十字星"@,
        PatternKind::EveningDojiStar => "黄昏十字星"@,
        PatternKind::BullishStrike => "多方炮"@,
        PatternKind::BearishStrike => "空方炮"@,
        PatternKind::StickSandwichBull => "看涨夹心饼"@,
        PatternKind::StickSandwichBear => "看跌夹心饼"@,
        PatternKind::RisingThreeMethods => "上升三部曲"@,
        PatternKind::FallingThreeMethods => "下降三部曲"@,
        PatternKind::TowerTop => "塔形顶"@,
        PatternKind::TowerBottom => "塔形底"@,
        PatternKind::IslandReversalTop => "顶部岛型反转"@,
        PatternKind::IslandReversalBottom => "底部岛型反转"@,
    }
}

/// Star rating of each pattern kind.
pub open spec fn pattern_strength(k: PatternKind) -> int {
    match k {
        PatternKind::BullishCounterAttack | PatternKind::BearishCounterAttack
        | PatternKind::CloseMarubozuBull | PatternKind::CloseMarubozuBear
        | PatternKind::MarubozuBull | PatternKind::MarubozuBear
        | PatternKind::TowerTop => 6,
        PatternKind::DarkCloudCover | PatternKind::PiercingLine
        | PatternKind::ThreeInsideUp | PatternKind::ThreeInsideDown
        | PatternKind::MorningDojiStar | PatternKind::EveningStar | PatternKind::EveningDojiStar
        | PatternKind::GravestoneDoji
        | PatternKind::TowerBottom
        | PatternKind::FlatLine
        | PatternKind::BullishAbandonedBaby | PatternKind::BearishAbandonedBaby
        | PatternKind::IslandReversalTop | PatternKind::IslandReversalBottom => 5,
        PatternKind::ShootingStar | PatternKind::InvertedHammer
        | PatternKind::OpenMarubozuBull | PatternKind::OpenMarubozuBear
        | PatternKind::ThreeWhiteSoldiers | PatternKind::ThreeBlackCrows
        | PatternKind::ThreeOutsideUp | PatternKind::ThreeOutsideDown
        | PatternKind::RisingThreeMethods | PatternKind::FallingThreeMethods
        | PatternKind::BullishStrike | PatternKind::BearishStrike => 4,
        PatternKind::TweezersTop | PatternKind::TweezersBottom
        | PatternKind::BullishHarami | PatternKind::BearishHarami
        | PatternKind::BullishHaramiCross | PatternKind::BearishHaramiCross
        | PatternKind::UpsideGapTwoCrows
        | PatternKind::MatchingHigh | PatternKind::MatchingLow => 3,
        PatternKind::DojiStar | PatternKind::LongDoji | PatternKind::SpinningTop
        | PatternKind::TShape | PatternKind::InvTShape
        | PatternKind::InsideBar | PatternKind::OutsideBar
        | PatternKind::DragonflyDoji => 2,
        PatternKind::BigBullCandle | PatternKind::BigBearCandle
        | PatternKind::Hammer | PatternKind::HangingMan
        | PatternKind::BullishEngulfing | PatternKind::BearishEngulfing
        | PatternKind::MorningStar
        | PatternKind::StickSandwichBull | PatternKind::StickSandwichBear => 1,
    }
}

/// Direction of each pattern kind.
pub open spec fn pattern_direction(k: PatternKind) -> int {
    match k {
        PatternKind::BigBullCandle
        | PatternKind::MarubozuBull
        | PatternKind::Hammer
        | PatternKind::InvertedHammer
        | PatternKind::BullishEngulfing
        | PatternKind::BullishHarami
        | PatternKind::PiercingLine
        | PatternKind::TweezersBottom
        | PatternKind::MorningStar
        | PatternKind::ThreeWhiteSoldiers
        | PatternKind::OpenMarubozuBull
        | PatternKind::CloseMarubozuBull
        | PatternKind::BullishHaramiCross
        | PatternKind::BullishCounterAttack
        | PatternKind::MatchingLow
        | PatternKind::ThreeInsideUp
        | PatternKind::ThreeOutsideUp
        | PatternKind::BullishAbandonedBaby
        | PatternKind::MorningDojiStar
        | PatternKind::BullishStrike
        | PatternKind::StickSandwichBull
        | PatternKind::RisingThreeMethods
        | PatternKind::TowerBottom
        | PatternKind::IslandReversalBottom => 1,
        PatternKind::BigBearCandle
        | PatternKind::MarubozuBear
        | PatternKind::HangingMan
        | PatternKind::ShootingStar
        | PatternKind::BearishEngulfing
        | PatternKind::BearishHarami
        | PatternKind::DarkCloudCover
        | PatternKind::TweezersTop
        | PatternKind::EveningStar
        | PatternKind::ThreeBlackCrows
        | PatternKind::GravestoneDoji
        | PatternKind::OpenMarubozuBear
        | PatternKind::CloseMarubozuBear
        | PatternKind::BearishHaramiCross
        | PatternKind::BearishCounterAttack
        | PatternKind::UpsideGapTwoCrows
        | PatternKind::MatchingHigh
        | PatternKind::ThreeInsideDown
        | PatternKind::ThreeOutsideDown
        | PatternKind::BearishAbandonedBaby
        | PatternKind::EveningDojiStar
        | PatternKind::BearishStrike
        | PatternKind::StickSandwichBear
        | PatternKind::FallingThreeMethods
        | PatternKind::TowerTop
        | PatternKind::IslandReversalTop => -1,
        PatternKind::DojiStar
        | PatternKind::LongDoji
        | PatternKind::SpinningTop
        | PatternKind::FlatLine
        | PatternKind::InsideBar
        | PatternKind::OutsideBar
        | PatternKind::TShape
        | PatternKind::InvTShape
        | PatternKind::DragonflyDoji => 0,
    }
}

/// Code point of the `i`-th character of `s`, or 0 past its end.
pub open spec fn char_code_at(s: Seq<char>, i: int) -> int {
    if 0 <= i < s.len() {
        s[i] as int
    } else {
        0
    }
}

/// A number built from the length of a display name and five of its
/// characters; the names of the pattern kinds all get different numbers.
pub open spec fn label_fingerprint(s: Seq<char>) -> int {
    s.len() + 16 * (char_code_at(s, 0) + 0x200000 * (char_code_at(s, 1) + 0x200000 * (char_code_at(s, 2)
        + 0x200000 * (char_code_at(s, 3) + 0x200000 * char_code_at(s, 5)))))
}

/// The pattern kind whose display name has fingerprint `n`, if any.
pub open spec fn kind_of_fingerprint(n: int) -> Option<PatternKind> {
    if n == 2283255932534493811 {
        Some(PatternKind::BigBullCandle)
    } else if n == 2283255932568048243 {
        Some(PatternKind::BigBearCandle)
    } else if n == 1839650863640294419 {
        Some(PatternKind::DojiStar)
    } else if n == 4788333685110290822813684 {
        Some(PatternKind::LongDoji)
    } else if n == 1880816668776102819 {
        Some(PatternKind::SpinningTop)
    } else if n == 2283255426936266755 {
        Some(PatternKind::FlatLine)
    } else if n == 4788333685109576750335300 {
        Some(PatternKind::TShape)
    } else if n == 10041860118395555838758201131302 {
        Some(PatternKind::InvTShape)
    } else if n == 2283255408582283843 {
        Some(PatternKind::Hammer)
    } else if n == 2283255952566468771 {
        Some(PatternKind::HangingMan)
    } else if n == 4788333646619153719951652 {
        Some(PatternKind::InvertedHammer)
    } else if n == 3858027252953354223337540 {
        Some(PatternKind::ShootingStar)
    } else if n == 11900012989961136630305846006935 {
        Some(PatternKind::MarubozuBull)
    } else if n == 11900322474970957975374570787991 {
        Some(PatternKind::MarubozuBear)
    } else if n == 9705144526873122897930838569146 {
        Some(PatternKind::BullishEngulfing)
    } else if n == 9705144526873122898206924435642 {
        Some(PatternKind::BearishEngulfing)
    } else if n == 9285172891440023674353946685622 {
        Some(PatternKind::BullishHarami)
    } else if n == 9285172891440023674630032552118 {
        Some(PatternKind::BearishHarami)
    } else if n == 4370551659117926238547348 {
        Some(PatternKind::PiercingLine)
    } else if n == 5759813510333680650085572 {
        Some(PatternKind::DarkCloudCover)
    } else if n == 12079209568138061199991475098791 {
        Some(PatternKind::TweezersTop)
    } else if n == 7493570177614148663013913744551 {
        Some(PatternKind::TweezersBottom)
    } else if n == 3858027252953529679502996 {
        Some(PatternKind::MorningStar)
    } else if n == 3858027252953526693391428 {
        Some(PatternKind::EveningStar)
    } else if n == 1467400092654234147 {
        Some(PatternKind::ThreeWhiteSoldiers)
    } else if n == 6648366615791818841232048254233 {
        Some(PatternKind::ThreeBlackCrows)
    } else if n == 3450723233174483879954741 {
        Some(PatternKind::GravestoneDoji)
    } else if n == 3450723233174608501306293 {
        Some(PatternKind::DragonflyDoji)
    } else if n == 4788334745426579194975380 {
        Some(PatternKind::OpenMarubozuBull)
    } else if n == 4788334745496947939153044 {
        Some(PatternKind::OpenMarubozuBear)
    } else if n == 4788334745426921919943828 {
        Some(PatternKind::CloseMarubozuBull)
    } else if n == 4788334745497290664121492 {
        Some(PatternKind::CloseMarubozuBear)
    } else if n == 2283255365330344019 {
        Some(PatternKind::InsideBar)
    } else if n == 2283255355465372003 {
        Some(PatternKind::OutsideBar)
    } else if n == 10041863564396416619303133474998 {
        Some(PatternKind::BullishHaramiCross)
    } else if n == 10041863564396416619579219341494 {
        Some(PatternKind::BearishHaramiCross)
    } else if n == 3097136052621149662048437 {
        Some(PatternKind::BullishCounterAttack)
    } else if n == 3097136052621425747914933 {
        Some(PatternKind::BearishCounterAttack)
    } else if n == 6648361608018401393525020508440 {
        Some(PatternKind::UpsideGapTwoCrows)
    } else if n == 1703839215194062739 {
        Some(PatternKind::MatchingLow)
    } else if n == 2746492897674510227 {
        Some(PatternKind::MatchingHigh)
    } else if n == 2948235035236189639860373 {
        Some(PatternKind::ThreeInsideUp)
    } else if n == 2948382609188779316273301 {
        Some(PatternKind::ThreeInsideDown)
    } else if n == 2948235035236254634795157 {
        Some(PatternKind::ThreeOutsideUp)
    } else if n == 2948382609188844311208085 {
        Some(PatternKind::ThreeOutsideDown)
    } else if n == 3417224157746453591584948 {
        Some(PatternKind::BullishAbandonedBaby)
    } else if n == 3417224157746729677451444 {
        Some(PatternKind::BearishAbandonedBaby)
    } else if n == 3450723233174327885454997 {
        Some(PatternKind::MorningDojiStar)
    } else if n == 3450723233174324899343429 {
        Some(PatternKind::EveningDojiStar)
    } else if n == 2029857668340224419 {
        Some(PatternKind::BullishStrike)
    } else if n == 2029857668340361123 {
        Some(PatternKind::BearishStrike)
    } else if n == 3617777055029344965456053 {
        Some(PatternKind::StickSandwichBull)
    } else if n == 3617777055029621051322549 {
        Some(PatternKind::StickSandwichBear)
    } else if n == 5474404751023753998426277 {
        Some(PatternKind::RisingThreeMethods)
    } else if n == 5474404751024329725370549 {
        Some(PatternKind::FallingThreeMethods)
    } else if n == 2746492904586708291 {
        Some(PatternKind::TowerTop)
    } else if n == 1703839222106260803 {
        Some(PatternKind::TowerBottom)
    } else if n == 11363054927882025263600107095910 {
        Some(PatternKind::IslandReversalTop)
    } else if n == 11363054927882025263600106858838 {
        Some(PatternKind::IslandReversalBottom)
    } else {
        None
    }
}

/// Each display name leads back to its pattern kind through its fingerprint,
/// so display names are non-empty and tell the kinds apart.
pub proof fn lemma_pattern_label_decodes(k: PatternKind)
    ensures
        kind_of_fingerprint(label_fingerprint(pattern_label(k))) == Some(k),
        pattern_label(k).len() > 0,
{
    match k {
        PatternKind::BigBullCandle => {
            reveal_strlit("大阳线");
            assert(label_fingerprint(pattern_label(k)) == 2283255932534493811);
        },
        PatternKind::BigBearCandle => {
            reveal_strlit("大阴线");
            assert(label_fingerprint(pattern_label(k)) == 2283255932568048243);
        },
        PatternKind::DojiStar => {
            reveal_strlit("十字星");
            assert(label_fingerprint(pattern_label(k)) == 1839650863640294419);
        },
        PatternKind::LongDoji => {
            reveal_strlit("长十字线");
            assert(label_fingerprint(pattern_label(k)) == 4788333685110290822813684);
        },
        PatternKind::SpinningTop => {
            reveal_strlit("螺旋桨");
            assert(label_fingerprint(pattern_label(k)) == 1880816668776102819);
        },
        PatternKind::FlatLine => {
            reveal_strlit("一字线");
            assert(label_fingerprint(pattern_label(k)) == 2283255426936266755);
        },
        PatternKind::TShape => {
            reveal_strlit("T 字线");
            assert(label_fingerprint(pattern_label(k)) == 4788333685109576750335300);
        },
        PatternKind::InvTShape => {
            reveal_strlit("倒 T 字线");
            assert(label_fingerprint(pattern_label(k)) == 10041860118395555838758201131302);
        },
        PatternKind::Hammer => {
            reveal_strlit("锤头线");
            assert(label_fingerprint(pattern_label(k)) == 2283255408582283843);
        },
        PatternKind::HangingMan => {
            reveal_strlit("吊颈线");
            assert(label_fingerprint(pattern_label(k)) == 2283255952566468771);
        },
        PatternKind::InvertedHammer => {
            reveal_strlit("倒锤头线");
            assert(label_fingerprint(pattern_label(k)) == 4788333646619153719951652);
        },
        PatternKind::ShootingStar => {
            reveal_strlit("射击之星");
            assert(label_fingerprint(pattern_label(k)) == 3858027252953354223337540);
        },
        PatternKind::MarubozuBull => {
            reveal_strlit("光头光脚大阳线");
            assert(label_fingerprint(pattern_label(k)) == 11900012989961136630305846006935);
        },
        PatternKind::MarubozuBear => {
            reveal_strlit("光头光脚大阴线");
            assert(label_fingerprint(pattern_label(k)) == 11900322474970957975374570787991);
        },
        PatternKind::BullishEngulfing => {
            reveal_strlit("看涨吞没（穿头破脚）");
            assert(label_fingerprint(pattern_label(k)) == 9705144526873122897930838569146);
        },
        PatternKind::BearishEngulfing => {
            reveal_strlit("看跌吞没（穿头破脚）");
            assert(label_fingerprint(pattern_label(k)) == 9705144526873122898206924435642);
        },
        PatternKind::BullishHarami => {
            reveal_strlit("看涨身怀六甲");
            assert(label_fingerprint(pattern_label(k)) == 9285172891440023674353946685622);
        },
        PatternKind::BearishHarami => {
            reveal_strlit("看跌身怀六甲");
            assert(label_fingerprint(pattern_label(k)) == 9285172891440023674630032552118);
        },
        PatternKind::PiercingLine => {
            reveal_strlit("曙光初现");
            assert(label_fingerprint(pattern_label(k)) == 4370551659117926238547348);
        },
        PatternKind::DarkCloudCover => {
            reveal_strlit("乌云盖顶");
            assert(label_fingerprint(pattern_label(k)) == 5759813510333680650085572);
        },
        PatternKind::TweezersTop => {
            reveal_strlit("镊子顶（平顶）");
            assert(label_fingerprint(pattern_label(k)) == 12079209568138061199991475098791);
        },
        PatternKind::TweezersBottom => {
            reveal_strlit("镊子底（平底）");
            assert(label_fingerprint(pattern_label(k)) == 7493570177614148663013913744551);
        },
        PatternKind::MorningStar => {
            reveal_strlit("早晨之星");
            assert(label_fingerprint(pattern_label(k)) == 3858027252953529679502996);
        },
        PatternKind::EveningStar => {
            reveal_strlit("黄昏之星");
            assert(label_fingerprint(pattern_label(k)) == 3858027252953526693391428);
        },
        PatternKind::ThreeWhiteSoldiers => {
            reveal_strlit("红三兵");
            assert(label_fingerprint(pattern_label(k)) == 1467400092654234147);
        },
        PatternKind::ThreeBlackCrows => {
            reveal_strlit("黑三兵（三只乌鸦）");
            assert(label_fingerprint(pattern_label(k)) == 6648366615791818841232048254233);
        },
        PatternKind::GravestoneDoji => {
            reveal_strlit("墓碑十字线");
            assert(label_fingerprint(pattern_label(k)) == 3450723233174483879954741);
        },
        PatternKind::DragonflyDoji => {
            reveal_strlit("蜻蜓十字线");
            assert(label_fingerprint(pattern_label(k)) == 3450723233174608501306293);
        },
        PatternKind::OpenMarubozuBull => {
            reveal_strlit("光头阳线");
            assert(label_fingerprint(pattern_label(k)) == 4788334745426579194975380);
        },
        PatternKind::OpenMarubozuBear => {
            reveal_strlit("光头阴线");
            assert(label_fingerprint(pattern_label(k)) == 4788334745496947939153044);
        },
        PatternKind::CloseMarubozuBull => {
            reveal_strlit("光脚阳线");
            assert(label_fingerprint(pattern_label(k)) == 4788334745426921919943828);
        },
        PatternKind::CloseMarubozuBear => {
            reveal_strlit("光脚阴线");
            assert(label_fingerprint(pattern_label(k)) == 4788334745497290664121492);
        },
        PatternKind::InsideBar => {
            reveal_strlit("内含线");
            assert(label_fingerprint(pattern_label(k)) == 2283255365330344019);
        },
        PatternKind::OutsideBar => {
            reveal_strlit("外包线");
            assert(label_fingerprint(pattern_label(k)) == 2283255355465372003);
        },
        PatternKind::BullishHaramiCross => {
            reveal_strlit("看涨十字孕线");
            assert(label_fingerprint(pattern_label(k)) == 10041863564396416619303133474998);
        },
        PatternKind::BearishHaramiCross => {
            reveal_strlit("看跌十字孕线");
            assert(label_fingerprint(pattern_label(k)) == 10041863564396416619579219341494);
        },
        PatternKind::BullishCounterAttack => {
            reveal_strlit("看涨反击线");
            assert(label_fingerprint(pattern_label(k)) == 3097136052621149662048437);
        },
        PatternKind::BearishCounterAttack => {
            reveal_strlit("看跌反击线");
            assert(label_fingerprint(pattern_label(k)) == 3097136052621425747914933);
        },
        PatternKind::UpsideGapTwoCrows => {
            reveal_strlit("向上跳空两只乌鸦");
            assert(label_fingerprint(pattern_label(k)) == 6648361608018401393525020508440);
        },
        PatternKind::MatchingLow => {
            reveal_strlit("对应底");
            assert(label_fingerprint(pattern_label(k)) == 1703839215194062739);
        },
        PatternKind::MatchingHigh => {
            reveal_strlit("对应顶");
            assert(label_fingerprint(pattern_label(k)) == 2746492897674510227);
        },
        PatternKind::ThreeInsideUp => {
            reveal_strlit("三内部上涨");
            assert(label_fingerprint(pattern_label(k)) == 2948235035236189639860373);
        },
        PatternKind::ThreeInsideDown => {
            reveal_strlit("三内部下跌");
            assert(label_fingerprint(pattern_label(k)) == 2948382609188779316273301);
        },
        PatternKind::ThreeOutsideUp => {
            reveal_strlit("三外部上涨");
            assert(label_fingerprint(pattern_label(k)) == 2948235035236254634795157);
        },
        PatternKind::ThreeOutsideDown => {
            reveal_strlit("三外部下跌");
            assert(label_fingerprint(pattern_label(k)) == 2948382609188844311208085);
        },
        PatternKind::BullishAbandonedBaby => {
            reveal_strlit("看涨弃婴");
            assert(label_fingerprint(pattern_label(k)) == 3417224157746453591584948);
        },
        PatternKind::BearishAbandonedBaby => {
            reveal_strlit("看跌弃婴");
            assert(label_fingerprint(pattern_label(k)) == 3417224157746729677451444);
        },
        PatternKind::MorningDojiStar => {
            reveal_strlit("早晨十字星");
            assert(label_fingerprint(pattern_label(k)) == 3450723233174327885454997);
        },
        PatternKind::EveningDojiStar => {
            reveal_strlit("黄昏十字星");
            assert(label_fingerprint(pattern_label(k)) == 3450723233174324899343429);
        },
        PatternKind::BullishStrike => {
            reveal_strlit("多方炮");
            assert(label_fingerprint(pattern_label(k)) == 2029857668340224419);
        },
        PatternKind::BearishStrike => {
            reveal_strlit("空方炮");
            assert(label_fingerprint(pattern_label(k)) == 2029857668340361123);
        },
        PatternKind::StickSandwichBull => {
            reveal_strlit("看涨夹心饼");
            assert(label_fingerprint(pattern_label(k)) == 3617777055029344965456053);
        },
        PatternKind::StickSandwichBear => {
            reveal_strlit("看跌夹心饼");
            assert(label_fingerprint(pattern_label(k)) == 3617777055029621051322549);
        },
        PatternKind::RisingThreeMethods => {
            reveal_strlit("上升三部曲");
            assert(label_fingerprint(pattern_label(k)) == 5474404751023753998426277);
        },
        PatternKind::FallingThreeMethods => {
            reveal_strlit("下降三部曲");
            assert(label_fingerprint(pattern_label(k)) == 5474404751024329725370549);
        },
        PatternKind::TowerTop => {
            reveal_strlit("塔形顶");
            assert(label_fingerprint(pattern_label(k)) == 2746492904586708291);
        },
        PatternKind::TowerBottom => {
            reveal_strlit("塔形底");
            assert(label_fingerprint(pattern_label(k)) == 1703839222106260803);
        },
        PatternKind::IslandReversalTop => {
            reveal_strlit("顶部岛型反转");
            assert(label_fingerprint(pattern_label(k)) == 11363054927882025263600107095910);
        },
        PatternKind::IslandReversalBottom => {
            reveal_strlit("底部岛型反转");
            assert(label_fingerprint(pattern_label(k)) == 11363054927882025263600106858838);
        },
    }
}

/// Distinct pattern kinds have distinct, non-empty display names.
pub proof fn lemma_pattern_labels_distinct(a: PatternKind, b: PatternKind)
    ensures
        a != b ==> pattern_label(a) != pattern_label(b),
        pattern_label(a).len() > 0,
{
    lemma_pattern_label_decodes(a);
    lemma_pattern_label_decodes(b);
}

/// Two-star patterns are neutral: they carry no direction.
pub proof fn lemma_two_star_patterns_are_neutral(k: PatternKind)
    ensures
        pattern_strength(k) == 2 ==> pattern_direction(k) == 0,
{
}

impl PatternKind {
    /// Display name of the pattern.
    pub fn label(&self) -> (r: &'static str)
        ensures
            r@ == pattern_label(*self),
    {
        match self {
            PatternKind::BigBullCandle => "大阳线",
            PatternKind::BigBearCandle => "大阴线",
            PatternKind::DojiStar => "十字星",
            PatternKind::LongDoji => "长十字线",
            PatternKind::SpinningTop => "螺旋桨",
            PatternKind::FlatLine => "一字线",
            PatternKind::TShape => "T 字线",
            PatternKind::InvTShape => "倒 T 字线",
            PatternKind::Hammer => "锤头线",
            PatternKind::HangingMan => "吊颈线",
            PatternKind::InvertedHammer => "倒锤头线",
            PatternKind::ShootingStar => "射击之星",
            PatternKind::MarubozuBull => "光头光脚大阳线",
            PatternKind::MarubozuBear => "光头光脚大阴线",
            PatternKind::BullishEngulfing => "看涨吞没（穿头破脚）",
            PatternKind::BearishEngulfing => "看跌吞没（穿头破脚）",
            PatternKind::BullishHarami => "看涨身怀六甲",
            PatternKind::BearishHarami => "看跌身怀六甲",
            PatternKind::PiercingLine => "曙光初现",
            PatternKind::DarkCloudCover => "乌云盖顶",
            PatternKind::TweezersTop => "镊子顶（平顶）",
            PatternKind::TweezersBottom => "镊子底（平底）",
            PatternKind::MorningStar => "早晨之星",
            PatternKind::EveningStar => "黄昏之星",
            PatternKind::ThreeWhiteSoldiers => "红三兵",
            PatternKind::ThreeBlackCrows => "黑三兵（三只乌鸦）",
            PatternKind::GravestoneDoji => "墓碑十字线",
            PatternKind::DragonflyDoji => "蜻蜓十字线",
            PatternKind::OpenMarubozuBull => "光头阳线",
            PatternKind::OpenMarubozuBear => "光头阴线",
            PatternKind::CloseMarubozuBull => "光脚阳线",
            PatternKind::CloseMarubozuBear => "光脚阴线",
            PatternKind::InsideBar => "内含线",
            PatternKind::OutsideBar => "外包线",
            PatternKind::BullishHaramiCross => "看涨十字孕线",
            PatternKind::BearishHaramiCross => "看跌十字孕线",
            PatternKind::BullishCounterAttack => "看涨反击线",
            PatternKind::BearishCounterAttack => "看跌反击线",
            PatternKind::UpsideGapTwoCrows => "向上跳空两只乌鸦",
            PatternKind::MatchingLow => "对应底",
            PatternKind::MatchingHigh => "对应顶",
            PatternKind::ThreeInsideUp => "三内部上涨",
            PatternKind::ThreeInsideDown => "三内部下跌",
            PatternKind::ThreeOutsideUp => "三外部上涨",
            PatternKind::ThreeOutsideDown => "三外部下跌",
            PatternKind::BullishAbandonedBaby => "看涨弃婴",
            PatternKind::BearishAbandonedBaby => "看跌弃婴",
            PatternKind::MorningDojiStar => "早晨十字星",
            PatternKind::EveningDojiStar => "黄昏十字星",
            PatternKind::BullishStrike => "多方炮",
            PatternKind::BearishStrike => "空方炮",
            PatternKind::StickSandwichBull => "看涨夹心饼",
            PatternKind::StickSandwichBear => "看跌夹心饼",
            PatternKind::RisingThreeMethods => "上升三部曲",
            PatternKind::FallingThreeMethods => "下降三部曲",
            PatternKind::TowerTop => "塔形顶",
            PatternKind::TowerBottom => "塔形底",
            PatternKind::IslandReversalTop => "顶部岛型反转",
            PatternKind::IslandReversalBottom => "底部岛型反转",
        }
    }

    /// Star rating from 1 (unreliable) to 6 (strongest); two stars mark a
    /// neutral pattern, a volatility label that carries no direction.
    pub fn strength(&self) -> (r: u8)
        ensures
            r == pattern_strength(*self),
            1 <= r <= 6,
            r == 2 ==> pattern_direction(*self) == 0,
    {
        match self {
            PatternKind::BullishCounterAttack | PatternKind::BearishCounterAttack
            | PatternKind::CloseMarubozuBull | PatternKind::CloseMarubozuBear
            | PatternKind::MarubozuBull | PatternKind::MarubozuBear
            | PatternKind::TowerTop => 6,
            PatternKind::DarkCloudCover | PatternKind::PiercingLine
            | PatternKind::ThreeInsideUp | PatternKind::ThreeInsideDown
            | PatternKind::MorningDojiStar | PatternKind::EveningStar | PatternKind::EveningDojiStar
            | PatternKind::GravestoneDoji
            | PatternKind::TowerBottom
            | PatternKind::FlatLine
            | PatternKind::BullishAbandonedBaby | PatternKind::BearishAbandonedBaby
            | PatternKind::IslandReversalTop | PatternKind::IslandReversalBottom => 5,
            PatternKind::ShootingStar | PatternKind::InvertedHammer
            | PatternKind::OpenMarubozuBull | PatternKind::OpenMarubozuBear
            | PatternKind::ThreeWhiteSoldiers | PatternKind::ThreeBlackCrows
            | PatternKind::ThreeOutsideUp | PatternKind::ThreeOutsideDown
            | PatternKind::RisingThreeMethods | PatternKind::FallingThreeMethods
            | PatternKind::BullishStrike | PatternKind::BearishStrike => 4,
            PatternKind::TweezersTop | PatternKind::TweezersBottom
            | PatternKind::BullishHarami | PatternKind::BearishHarami
            | PatternKind::BullishHaramiCross | PatternKind::BearishHaramiCross
            | PatternKind::UpsideGapTwoCrows
            | PatternKind::MatchingHigh | PatternKind::MatchingLow => 3,
            PatternKind::DojiStar | PatternKind::LongDoji | PatternKind::SpinningTop
            | PatternKind::TShape | PatternKind::InvTShape
            | PatternKind::InsideBar | PatternKind::OutsideBar
            | PatternKind::DragonflyDoji => 2,
            PatternKind::BigBullCandle | PatternKind::BigBearCandle
            | PatternKind::Hammer | PatternKind::HangingMan
            | PatternKind::BullishEngulfing | PatternKind::BearishEngulfing
            | PatternKind::MorningStar
            | PatternKind::StickSandwichBull | PatternKind::StickSandwichBear => 1,
        }
    }

    /// +1 bullish, -1 bearish, 0 neutral.
    pub fn direction(&self) -> (r: i8)
        ensures
            r == pattern_direction(*self),
            -1 <= r <= 1,
    {
        match self {
            PatternKind::BigBullCandle
            | PatternKind::MarubozuBull
            | PatternKind::Hammer
            | PatternKind::InvertedHammer
            | PatternKind::BullishEngulfing
            | PatternKind::BullishHarami
            | PatternKind::PiercingLine
            | PatternKind::TweezersBottom
            | PatternKind::MorningStar
            | PatternKind::ThreeWhiteSoldiers
            | PatternKind::OpenMarubozuBull
            | PatternKind::CloseMarubozuBull
            | PatternKind::BullishHaramiCross
            | PatternKind::BullishCounterAttack
            | PatternKind::MatchingLow
            | PatternKind::ThreeInsideUp
            | PatternKind::ThreeOutsideUp
            | PatternKind::BullishAbandonedBaby
            | PatternKind::MorningDojiStar
            | PatternKind::BullishStrike
            | PatternKind::StickSandwichBull
            | PatternKind::RisingThreeMethods
            | PatternKind::TowerBottom
            | PatternKind::IslandReversalBottom => 1,
            PatternKind::BigBearCandle
            | PatternKind::MarubozuBear
            | PatternKind::HangingMan
            | PatternKind::ShootingStar
            | PatternKind::BearishEngulfing
            | PatternKind::BearishHarami
            | PatternKind::DarkCloudCover
            | PatternKind::TweezersTop
            | PatternKind::EveningStar
            | PatternKind::ThreeBlackCrows
            | PatternKind::GravestoneDoji
            | PatternKind::OpenMarubozuBear
            | PatternKind::CloseMarubozuBear
            | PatternKind::BearishHaramiCross
            | PatternKind::BearishCounterAttack
            | PatternKind::UpsideGapTwoCrows
            | PatternKind::MatchingHigh
            | PatternKind::ThreeInsideDown
            | PatternKind::ThreeOutsideDown
            | PatternKind::BearishAbandonedBaby
            | PatternKind::EveningDojiStar
            | PatternKind::BearishStrike
            | PatternKind::StickSandwichBear
            | PatternKind::FallingThreeMethods
            | PatternKind::TowerTop
            | PatternKind::IslandReversalTop => -1,
            PatternKind::DojiStar
            | PatternKind::LongDoji
            | PatternKind::SpinningTop
            | PatternKind::FlatLine
            | PatternKind::InsideBar
            | PatternKind::OutsideBar
            | PatternKind::TShape
            | PatternKind::InvTShape
            | PatternKind::DragonflyDoji => 0,
        }
    }
}

/// One pattern occurrence: the bar it completes on, its kind and its rating.
#[derive(Debug, Clone, Copy, PartialEq, Eq, Structural)]
pub struct PatternHit {
    pub index: usize,
    pub kind: PatternKind,
    pub direction: i8,
    pub strength: u8,
}

} // verus!
