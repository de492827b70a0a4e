use aura_trade::engine::candle::advanced::{
    analyze_complex_left_shoulder, are_siblings, island_trend_level, parent_patterns_of,
    IslandTrendLevel, LongDojiContext, RoundingBottomPhase,
};
use aura_trade::engine::candle::combinations::{classify_pair, detect_combinations, CandleCombination};
use aura_trade::engine::candle::multi_timeframe::{AlignmentKind, MaRelationState, Timeframe};
use aura_trade::engine::candle::patterns::{PatternHit, PatternKind};
use aura_trade::engine::trend::{SwingKind, SwingPoint};
use aura_trade::engine::candle::multi_timeframe::alignment_events;
use aura_trade::engine::candle::multi_timeframe::relation_events;
use aura_trade::engine::candle::advanced::ThreeSoldiersScore;
use aura_trade::engine::candle::advanced::rounding_phases;

fn hit(index: usize, kind: PatternKind) -> PatternHit {
    PatternHit {
        index,
        kind,
        direction: kind.direction(),
        strength: 3,
    }
}

#[test]
fn t_long_doji_direction_correct() {
    assert_eq!(LongDojiContext::BullishContinuation.direction(), 1);
    assert_eq!(LongDojiContext::ReversalToBull.direction(), 1);
    assert_eq!(LongDojiContext::BearishContinuation.direction(), -1);
    assert_eq!(LongDojiContext::HighMountainFlood.direction(), -1);
}

#[test]
fn t_island_trend_level_mapping() {
    assert_eq!(island_trend_level(1), IslandTrendLevel::ShortTerm);
    assert_eq!(island_trend_level(5), IslandTrendLevel::ShortTerm);
    assert_eq!(island_trend_level(6), IslandTrendLevel::MidTerm);
    assert_eq!(island_trend_level(20), IslandTrendLevel::MidTerm);
    assert_eq!(island_trend_level(21), IslandTrendLevel::LongTerm);
    assert_eq!(island_trend_level(60), IslandTrendLevel::LongTerm);
}

#[test]
fn t_parent_patterns_doji_maps_to_stars() {
    let parents = parent_patterns_of(PatternKind::DojiStar);
    assert!(parents.contains(&PatternKind::MorningStar));
    assert!(parents.contains(&PatternKind::EveningStar));
}

#[test]
fn t_parent_patterns_hammer_maps_to_morning_star() {
    let parents = parent_patterns_of(PatternKind::Hammer);
    assert!(parents.contains(&PatternKind::MorningStar));
}

#[test]
fn t_are_siblings_doji_hammer_share_parent() {
    assert!(are_siblings(PatternKind::DojiStar, PatternKind::Hammer));
}

#[test]
fn t_are_not_siblings_unrelated() {
    assert!(!are_siblings(PatternKind::MarubozuBull, PatternKind::MarubozuBear));
}

#[test]
fn t_parent_patterns_empty_for_leaf() {
    let parents = parent_patterns_of(PatternKind::MorningStar);
    assert!(parents.is_empty());
}

fn swing(index: usize, price: i64, kind: SwingKind) -> SwingPoint {
    SwingPoint {
        index,
        time: index as i64 * 86_400_000,
        price,
        kind,
    }
}

#[test]
fn t_complex_left_shoulder_detected() {
    let swings = vec![
        SwingPoint { index: 0, time: 0, price: 110, kind: SwingKind::High },
        SwingPoint { index: 5, time: 5 * 86_400_000, price: 100, kind: SwingKind::Low },
        SwingPoint { index: 10, time: 10 * 86_400_000, price: 105, kind: SwingKind::High },
        SwingPoint { index: 15, time: 15 * 86_400_000, price: 98, kind: SwingKind::Low },
        SwingPoint { index: 20, time: 20 * 86_400_000, price: 120, kind: SwingKind::High },
    ];
    let analysis = analyze_complex_left_shoulder(&swings, 20);
    assert!(analysis.is_complex);
    assert_eq!(analysis.main_peak_index, 0);
    assert_eq!(analysis.sub_peak_index, Some(10));
}

#[test]
fn t_complex_left_shoulder_single_peak_not_complex() {
    let swings = vec![
        SwingPoint { index: 0, time: 0, price: 110, kind: SwingKind::High },
        SwingPoint { index: 5, time: 5 * 86_400_000, price: 100, kind: SwingKind::Low },
        SwingPoint { index: 10, time: 10 * 86_400_000, price: 120, kind: SwingKind::High },
    ];
    let analysis = analyze_complex_left_shoulder(&swings, 10);
    assert!(!analysis.is_complex);
}

#[test]
fn left_shoulder_peaks_too_far_apart_are_not_complex() {
    // 120 vs 100: the gap is a sixth of the main peak, over the tenth allowed.
    let swings = vec![swing(0, 100, SwingKind::High), swing(4, 90, SwingKind::Low), swing(8, 120, SwingKind::High)];
    let analysis = analyze_complex_left_shoulder(&swings, 30);
    assert!(!analysis.is_complex);
    assert_eq!(analysis.main_peak_index, 8);
    assert_eq!(analysis.sub_peak_index, None);
}

#[test]
fn left_shoulder_without_highs_points_at_head() {
    let swings = vec![swing(3, 90, SwingKind::Low)];
    let analysis = analyze_complex_left_shoulder(&swings, 12);
    assert!(!analysis.is_complex);
    assert_eq!(analysis.main_peak_index, 12);
}

#[test]
fn left_shoulder_equal_peaks_are_complex() {
    let swings = vec![swing(1, 100, SwingKind::High), swing(6, 100, SwingKind::High)];
    let analysis = analyze_complex_left_shoulder(&swings, 9);
    assert!(analysis.is_complex);
    assert_eq!(analysis.main_peak_index, 6);
    assert_eq!(analysis.sub_peak_index, Some(1));
}

#[test]
fn siblings_are_symmetric_on_examples() {
    assert_eq!(
        are_siblings(PatternKind::Hammer, PatternKind::PiercingLine),
        are_siblings(PatternKind::PiercingLine, PatternKind::Hammer)
    );
    assert!(are_siblings(PatternKind::BullishHarami, PatternKind::BullishEngulfing));
    assert!(!are_siblings(PatternKind::Hammer, PatternKind::ShootingStar));
}

#[test]
fn labels_of_phases_and_levels() {
    assert_eq!(RoundingBottomPhase::SpringCold.label(), "倒春寒（被套抛盘）");
    assert_eq!(IslandTrendLevel::LongTerm.label(), "长期反转（最可靠）");
    assert_eq!(Timeframe::Weekly.label(), "周线");
    assert_eq!(AlignmentKind::Bearish.direction(), -1);
    assert_eq!(AlignmentKind::Unaligned.label(), "无明确排列");
    assert_eq!(MaRelationState::Bonded.label(), "粘合");
}

#[test]
fn pattern_kind_tables() {
    assert_eq!(PatternKind::TowerTop.strength(), 6);
    assert_eq!(PatternKind::Hammer.strength(), 1);
    assert_eq!(PatternKind::DojiStar.direction(), 0);
    assert_eq!(PatternKind::TowerTop.direction(), -1);
    assert_eq!(PatternKind::BullishEngulfing.label(), "看涨吞没（穿头破脚）");
}

#[test]
fn t_hammer_then_bullish_engulfing_detected() {
    let hits = vec![hit(5, PatternKind::Hammer), hit(6, PatternKind::BullishEngulfing)];
    let combos = detect_combinations(&hits);
    assert_eq!(combos.len(), 1);
    assert_eq!(combos[0].kind, CandleCombination::HammerThenBullishEngulfing);
    assert_eq!(combos[0].kind.direction(), 1);
}

#[test]
fn t_shooting_star_then_bearish_engulfing() {
    let hits = vec![hit(5, PatternKind::ShootingStar), hit(6, PatternKind::BearishEngulfing)];
    let combos = detect_combinations(&hits);
    assert_eq!(combos.len(), 1);
    assert_eq!(combos[0].kind, CandleCombination::ShootingStarThenBearishEngulfing);
    assert_eq!(combos[0].kind.direction(), -1);
}

#[test]
fn t_long_doji_then_big_bull() {
    let hits = vec![hit(10, PatternKind::LongDoji), hit(11, PatternKind::BigBullCandle)];
    let combos = detect_combinations(&hits);
    assert_eq!(combos.len(), 1);
    assert_eq!(combos[0].kind, CandleCombination::LongDojiThenBigBull);
}

#[test]
fn t_long_doji_then_big_bear() {
    let hits = vec![hit(10, PatternKind::LongDoji), hit(11, PatternKind::BigBearCandle)];
    let combos = detect_combinations(&hits);
    assert_eq!(combos.len(), 1);
    assert_eq!(combos[0].kind, CandleCombination::LongDojiThenBigBear);
}

#[test]
fn t_morning_star_confirmed() {
    let hits = vec![hit(20, PatternKind::MorningStar), hit(21, PatternKind::MarubozuBull)];
    let combos = detect_combinations(&hits);
    assert_eq!(combos.len(), 1);
    assert_eq!(combos[0].kind, CandleCombination::MorningStarConfirmed);
}

#[test]
fn t_bullish_engulfing_confirmed_with_big_bull() {
    let hits = vec![hit(30, PatternKind::BullishEngulfing), hit(31, PatternKind::BigBullCandle)];
    let combos = detect_combinations(&hits);
    assert_eq!(combos.len(), 1);
    assert_eq!(combos[0].kind, CandleCombination::BullishEngulfingConfirmed);
    assert_eq!(combos[0].kind.direction(), 1);
}

#[test]
fn t_bullish_engulfing_confirmed_with_marubozu() {
    let hits = vec![hit(30, PatternKind::BullishEngulfing), hit(31, PatternKind::MarubozuBull)];
    let combos = detect_combinations(&hits);
    assert_eq!(combos.len(), 1);
    assert_eq!(combos[0].kind, CandleCombination::BullishEngulfingConfirmed);
}

#[test]
fn t_bearish_engulfing_confirmed_with_big_bear() {
    let hits = vec![hit(40, PatternKind::BearishEngulfing), hit(41, PatternKind::BigBearCandle)];
    let combos = detect_combinations(&hits);
    assert_eq!(combos.len(), 1);
    assert_eq!(combos[0].kind, CandleCombination::BearishEngulfingConfirmed);
    assert_eq!(combos[0].kind.direction(), -1);
}

#[test]
fn t_evening_star_confirmed() {
    let hits = vec![hit(50, PatternKind::EveningStar), hit(51, PatternKind::BigBearCandle)];
    let combos = detect_combinations(&hits);
    assert_eq!(combos.len(), 1);
    assert_eq!(combos[0].kind, CandleCombination::EveningStarConfirmed);
    assert_eq!(combos[0].kind.direction(), -1);
}

#[test]
fn t_distant_hits_not_combined() {
    let hits = vec![hit(5, PatternKind::Hammer), hit(10, PatternKind::BullishEngulfing)];
    let combos = detect_combinations(&hits);
    assert_eq!(combos.len(), 0);
}

#[test]
fn t_non_matching_pair_no_combo() {
    let hits = vec![hit(5, PatternKind::Hammer), hit(6, PatternKind::BigBearCandle)];
    let combos = detect_combinations(&hits);
    assert_eq!(combos.len(), 0);
}

#[test]
fn t_empty_hits_empty() {
    let combos = detect_combinations(&[]);
    assert!(combos.is_empty());
}

#[test]
fn t_unsorted_input_handled() {
    let hits = vec![hit(6, PatternKind::BullishEngulfing), hit(5, PatternKind::Hammer)];
    let combos = detect_combinations(&hits);
    assert_eq!(combos.len(), 1);
    assert_eq!(combos[0].first_index, 5);
    assert_eq!(combos[0].confirm_index, 6);
}

#[test]
fn combination_two_bars_apart_counts_but_same_bar_does_not() {
    let hits = vec![hit(7, PatternKind::LongDoji), hit(9, PatternKind::BigBullCandle)];
    assert_eq!(detect_combinations(&hits).len(), 1);
    let same_bar = vec![hit(7, PatternKind::LongDoji), hit(7, PatternKind::BigBullCandle)];
    assert!(detect_combinations(&same_bar).is_empty());
}

#[test]
fn combinations_of_a_longer_sequence_in_bar_order() {
    let hits = vec![
        hit(31, PatternKind::BigBullCandle),
        hit(5, PatternKind::Hammer),
        hit(30, PatternKind::BullishEngulfing),
        hit(6, PatternKind::BullishEngulfing),
        hit(3, PatternKind::DojiStar),
    ];
    let combos = detect_combinations(&hits);
    assert_eq!(combos.len(), 2);
    assert_eq!((combos[0].first_index, combos[0].confirm_index), (5, 6));
    assert_eq!(combos[1].kind, CandleCombination::BullishEngulfingConfirmed);
    assert_eq!((combos[1].first_index, combos[1].confirm_index), (30, 31));
}

#[test]
fn classify_pair_and_labels() {
    assert_eq!(classify_pair(PatternKind::EveningStar, PatternKind::MarubozuBear), Some(CandleCombination::EveningStarConfirmed));
    assert_eq!(classify_pair(PatternKind::BigBullCandle, PatternKind::LongDoji), None);
    assert_eq!(CandleCombination::MorningStarConfirmed.label(), "早晨之星+续涨");
}

#[test]
fn island_levels_reliability_and_exit_share() {
    assert_eq!(IslandTrendLevel::ShortTerm.reliability_percent(), 40);
    assert_eq!(IslandTrendLevel::MidTerm.reliability_percent(), 70);
    assert_eq!(IslandTrendLevel::LongTerm.reliability_percent(), 95);
    assert_eq!(IslandTrendLevel::ShortTerm.recommended_exit_percent(), 50);
    assert_eq!(IslandTrendLevel::MidTerm.recommended_exit_percent(), 75);
    assert_eq!(IslandTrendLevel::LongTerm.recommended_exit_percent(), 100);
}

#[test]
fn alignment_events_report_entries_once() {
    let k = [
        AlignmentKind::Unaligned,
        AlignmentKind::Bullish,
        AlignmentKind::Bullish,
        AlignmentKind::Unaligned,
        AlignmentKind::Bullish,
        AlignmentKind::Bearish,
    ];
    assert_eq!(
        alignment_events(&k, 20),
        vec![(21, AlignmentKind::Bullish), (24, AlignmentKind::Bullish), (25, AlignmentKind::Bearish)]
    );
    assert_eq!(alignment_events(&[AlignmentKind::Bearish], 3), vec![(3, AlignmentKind::Bearish)]);
    assert!(alignment_events(&[], 3).is_empty());
}

#[test]
fn relation_events_skip_stable_spells() {
    let s = [
        MaRelationState::Converging,
        MaRelationState::Converging,
        MaRelationState::Bonded,
        MaRelationState::Stable,
        MaRelationState::Stable,
        MaRelationState::Diverging,
    ];
    assert_eq!(
        relation_events(&s, 5),
        vec![(5, MaRelationState::Converging), (7, MaRelationState::Bonded), (10, MaRelationState::Diverging)]
    );
}

#[test]
fn three_soldiers_score_counts_factors() {
    let s = ThreeSoldiersScore::from_factors(true, true, true, true);
    assert_eq!(s.score, 3);
    assert!(s.is_white_soldiers);
    let s = ThreeSoldiersScore::from_factors(true, true, true, false);
    assert_eq!(s.score, 3);
    assert!(!s.is_white_soldiers);
    let s = ThreeSoldiersScore::from_factors(false, true, false, true);
    assert_eq!(s.score, 1);
    assert!(!s.is_white_soldiers);
    assert!(s.factor2_rising_volume && !s.factor1_breakout_from_consolidation && !s.factor3_close_at_high);
}

#[test]
fn rounding_bottom_phases_around_the_low() {
    let p = rounding_phases(100, 8, 2, Some(5));
    let phases: Vec<RoundingBottomPhase> = p.iter().map(|x| x.1).collect();
    assert_eq!(p[0].0, 100);
    assert_eq!(p[7].0, 107);
    assert_eq!(
        phases,
        vec![
            RoundingBottomPhase::DownLeft,
            RoundingBottomPhase::DownLeft,
            RoundingBottomPhase::RightRising,
            RoundingBottomPhase::SpringCold,
            RoundingBottomPhase::SpringCold,
            RoundingBottomPhase::SpringCold,
            RoundingBottomPhase::RightRising,
            RoundingBottomPhase::RightRising,
        ]
    );
    let q = rounding_phases(0, 3, 0, None);
    assert!(q.iter().all(|x| x.1 == RoundingBottomPhase::RightRising));
}

#[test]
fn t_island_reliability_ordering() {
    assert!(IslandTrendLevel::LongTerm.reliability_percent() > IslandTrendLevel::MidTerm.reliability_percent());
    assert!(IslandTrendLevel::MidTerm.reliability_percent() > IslandTrendLevel::ShortTerm.reliability_percent());
}

#[test]
fn t_island_exit_fraction_correct() {
    assert_eq!(IslandTrendLevel::LongTerm.recommended_exit_percent() as f64 / 100.0, 1.00);
    assert_eq!(IslandTrendLevel::MidTerm.recommended_exit_percent() as f64 / 100.0, 0.75);
    assert_eq!(IslandTrendLevel::ShortTerm.recommended_exit_percent() as f64 / 100.0, 0.50);
}

#[test]
fn t_strength_multiplier_1_5() {
    assert_eq!(CandleCombination::HammerThenBullishEngulfing.strength_multiplier_percent() as f64 / 100.0, 1.5);
    assert_eq!(CandleCombination::EveningStarConfirmed.strength_multiplier_percent() as f64 / 100.0, 1.5);
}

fn every_pattern_kind() -> Vec<PatternKind> {
    vec![
        PatternKind::BigBullCandle,
        PatternKind::BigBearCandle,
        PatternKind::DojiStar,
        PatternKind::LongDoji,
        PatternKind::SpinningTop,
        PatternKind::FlatLine,
        PatternKind::TShape,
        PatternKind::InvTShape,
        PatternKind::Hammer,
        PatternKind::HangingMan,
        PatternKind::InvertedHammer,
        PatternKind::ShootingStar,
        PatternKind::MarubozuBull,
        PatternKind::MarubozuBear,
        PatternKind::BullishEngulfing,
        PatternKind::BearishEngulfing,
        PatternKind::BullishHarami,
        PatternKind::BearishHarami,
        PatternKind::PiercingLine,
        PatternKind::DarkCloudCover,
        PatternKind::TweezersTop,
        PatternKind::TweezersBottom,
        PatternKind::GravestoneDoji,
        PatternKind::DragonflyDoji,
        PatternKind::OpenMarubozuBull,
        PatternKind::OpenMarubozuBear,
        PatternKind::CloseMarubozuBull,
        PatternKind::CloseMarubozuBear,
        PatternKind::InsideBar,
        PatternKind::OutsideBar,
        PatternKind::BullishHaramiCross,
        PatternKind::BearishHaramiCross,
        PatternKind::BullishCounterAttack,
        PatternKind::BearishCounterAttack,
        PatternKind::UpsideGapTwoCrows,
        PatternKind::MatchingLow,
        PatternKind::MatchingHigh,
        PatternKind::ThreeInsideUp,
        PatternKind::ThreeInsideDown,
        PatternKind::ThreeOutsideUp,
        PatternKind::ThreeOutsideDown,
        PatternKind::BullishAbandonedBaby,
        PatternKind::BearishAbandonedBaby,
        PatternKind::MorningDojiStar,
        PatternKind::EveningDojiStar,
        PatternKind::BullishStrike,
        PatternKind::BearishStrike,
        PatternKind::StickSandwichBull,
        PatternKind::StickSandwichBear,
        PatternKind::RisingThreeMethods,
        PatternKind::FallingThreeMethods,
        PatternKind::TowerTop,
        PatternKind::TowerBottom,
        PatternKind::IslandReversalTop,
        PatternKind::IslandReversalBottom,
        PatternKind::MorningStar,
        PatternKind::EveningStar,
        PatternKind::ThreeWhiteSoldiers,
        PatternKind::ThreeBlackCrows,
    ]
}

#[test]
fn pattern_labels_are_distinct_and_named() {
    assert_eq!(PatternKind::Hammer.label(), "锤头线");
    assert_eq!(PatternKind::ShootingStar.label(), "射击之星");
    assert_eq!(PatternKind::BigBullCandle.label(), "大阳线");
    let all = every_pattern_kind();
    assert_eq!(all.len(), 59);
    for (i, a) in all.iter().enumerate() {
        assert!(!a.label().is_empty());
        for b in all.iter().skip(i + 1) {
            assert_ne!(a.label(), b.label(), "{:?} and {:?} share a label", a, b);
        }
    }
}

#[test]
fn two_star_patterns_carry_no_direction() {
    for k in [PatternKind::TShape, PatternKind::InvTShape, PatternKind::DragonflyDoji] {
        assert_eq!(k.strength(), 2);
        assert_eq!(k.direction(), 0);
    }
    for k in every_pattern_kind() {
        assert!(k.strength() >= 1 && k.strength() <= 6);
        if k.strength() == 2 {
            assert_eq!(k.direction(), 0, "{:?}", k);
        }
    }
}

#[test]
fn combinations_do_not_depend_on_hit_order() {
    let a = vec![
        hit(10, PatternKind::Hammer),
        hit(11, PatternKind::BullishEngulfing),
        hit(20, PatternKind::LongDoji),
        hit(22, PatternKind::BigBullCandle),
        hit(30, PatternKind::ShootingStar),
    ];
    let b = vec![a[3], a[0], a[4], a[2], a[1]];
    let c = vec![a[4], a[3], a[2], a[1], a[0]];
    let from_a = detect_combinations(&a);
    assert_eq!(from_a.len(), 2);
    assert_eq!(from_a[0].kind, CandleCombination::HammerThenBullishEngulfing);
    assert_eq!(from_a[1].kind, CandleCombination::LongDojiThenBigBull);
    assert_eq!(detect_combinations(&b), from_a);
    assert_eq!(detect_combinations(&c), from_a);
}
