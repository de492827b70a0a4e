use aura_trade::engine::ma::advanced::MaAdvancedKind;
use aura_trade::engine::ma::alignment::{classify_cross, Alignment, CrossKind};
use aura_trade::engine::ma::compute::MaKind;
use aura_trade::engine::ma::dual_line::{recommended_position_percent, DualLineRule};
use aura_trade::engine::ma::granville::GranvilleRule;
use aura_trade::engine::ma::long_term_levels::LongTermLevelEvent;
use aura_trade::engine::ma::repair::{classify_repair, AirFlagCriteria, RepairKind};
use aura_trade::engine::ma::special::{make, MaSpecialKind};
use aura_trade::engine::ma::advanced::{record_bond_episode, BondEpisodes};
use aura_trade::engine::ma::special::{count_recent_crosses, latest_cross_within};

#[test]
fn t_kind_direction_and_weight() {
    assert_eq!(MaAdvancedKind::HangingScallions.direction(), 1);
    assert_eq!(MaAdvancedKind::BondUpwardDiverge.direction(), 1);
    assert_eq!(MaAdvancedKind::PoissonSpider.direction(), -1);
    assert_eq!(MaAdvancedKind::Guillotine.direction(), -1);
    assert_eq!(MaAdvancedKind::Guillotine.weight(), 6);
    assert_eq!(MaAdvancedKind::BondUpwardDiverge.weight(), 6);
    assert_eq!(MaAdvancedKind::HangingScallions.book_source(), "ma p.340");
    assert_eq!(MaAdvancedKind::Guillotine.book_source(), "ma p.380");
}

#[test]
fn t_alignment_aliases_contains_chinese_labels() {
    assert!(Alignment::Bullish.aliases().contains(&"多头排列"));
    assert!(Alignment::Bullish.aliases().contains(&"上山爬坡"));
    assert!(Alignment::Bearish.aliases().contains(&"空头排列"));
    assert!(Alignment::Stuck.aliases().contains(&"均线粘合"));
    assert!(Alignment::Converging.aliases().contains(&"均线收敛"));
    assert!(Alignment::Diverging.aliases().contains(&"均线发散"));
}

#[test]
fn t_crosskind_is_signal_flag() {
    assert!(CrossKind::Golden.is_signal());
    assert!(CrossKind::Death.is_signal());
    assert!(!CrossKind::PlainUp.is_signal());
    assert!(!CrossKind::PlainDown.is_signal());
}

#[test]
fn crossing_kinds_from_observations() {
    assert_eq!(classify_cross(true, false, true, true, false, false), Some(CrossKind::Golden));
    assert_eq!(classify_cross(true, false, true, false, false, false), Some(CrossKind::PlainUp));
    assert_eq!(classify_cross(false, true, false, false, true, true), Some(CrossKind::Death));
    assert_eq!(classify_cross(false, true, false, false, true, false), Some(CrossKind::PlainDown));
    assert_eq!(classify_cross(false, false, true, true, true, true), None);
}

#[test]
fn makind_parse_all_variants_case_insensitive() {
    assert_eq!(MaKind::parse("sma"), Some(MaKind::Sma));
    assert_eq!(MaKind::parse("SMA"), Some(MaKind::Sma));
    assert_eq!(MaKind::parse("Ema"), Some(MaKind::Ema));
    assert_eq!(MaKind::parse("WMA"), Some(MaKind::Wma));
    assert_eq!(MaKind::parse("unknown"), None);
    assert_eq!(MaKind::parse(""), None);
}

#[test]
fn makind_parse_rejects_near_misses() {
    assert_eq!(MaKind::parse("smaa"), None);
    assert_eq!(MaKind::parse(" sma"), None);
    assert_eq!(MaKind::parse("wMa"), Some(MaKind::Wma));
}

#[test]
fn t_is_buy_correct() {
    assert!(DualLineRule::Rule1_BreakQualityLineUp.is_buy());
    assert!(DualLineRule::Rule2_QuantityGoldenCross.is_buy());
    assert!(DualLineRule::Rule3_QualityLineSupportRebound.is_buy());
    assert!(DualLineRule::Rule4_BreakQuantityAbove.is_buy());
    assert!(DualLineRule::Rule5_QuantityDownQualitySupport.is_buy());
    assert!(!DualLineRule::Rule6_BullArrangement.is_buy());
}

#[test]
fn dual_line_positions_in_percent() {
    assert_eq!(recommended_position_percent(DualLineRule::Rule1_BreakQualityLineUp), 70);
    assert_eq!(recommended_position_percent(DualLineRule::Rule2_QuantityGoldenCross), 70);
    assert_eq!(recommended_position_percent(DualLineRule::Rule3_QualityLineSupportRebound), 30);
    assert_eq!(recommended_position_percent(DualLineRule::Rule4_BreakQuantityAbove), 30);
    assert_eq!(recommended_position_percent(DualLineRule::Rule5_QuantityDownQualitySupport), 30);
    assert_eq!(recommended_position_percent(DualLineRule::Rule6_BullArrangement), 100);
    assert_eq!(DualLineRule::Rule4_BreakQuantityAbove.book_source(), "ma p.200 双线中期组合 6 条买入持仓原则");
    assert_eq!(DualLineRule::Rule6_BullArrangement.label(), "规则6 多头排列持股");
}

#[test]
fn t_rule_code_and_is_buy_metadata() {
    assert_eq!(GranvilleRule::B1BreakoutBuy.code(), "B1");
    assert_eq!(GranvilleRule::B2PullbackBuy.code(), "B2");
    assert_eq!(GranvilleRule::B3FalseBreakBuy.code(), "B3");
    assert_eq!(GranvilleRule::B4DivergenceBuy.code(), "B4");
    assert_eq!(GranvilleRule::S1BreakdownSell.code(), "S1");
    assert_eq!(GranvilleRule::S2ReboundSell.code(), "S2");
    assert_eq!(GranvilleRule::S3FalseBreakSell.code(), "S3");
    assert_eq!(GranvilleRule::S4DivergenceSell.code(), "S4");
    for r in [
        GranvilleRule::B1BreakoutBuy,
        GranvilleRule::B2PullbackBuy,
        GranvilleRule::B3FalseBreakBuy,
        GranvilleRule::B4DivergenceBuy,
    ] {
        assert!(r.is_buy(), "{:?} 应为买入", r);
    }
    for r in [
        GranvilleRule::S1BreakdownSell,
        GranvilleRule::S2ReboundSell,
        GranvilleRule::S3FalseBreakSell,
        GranvilleRule::S4DivergenceSell,
    ] {
        assert!(!r.is_buy(), "{:?} 不应为买入", r);
    }
}

#[test]
fn t_event_metadata_correct() {
    assert_eq!(LongTermLevelEvent::BreakAbove240.direction(), 1);
    assert_eq!(LongTermLevelEvent::BreakBelow240.direction(), -1);
    assert!(LongTermLevelEvent::BreakAbove240.is_long_term());
    assert!(!LongTermLevelEvent::BreakAbove120.is_long_term());
}

#[test]
fn t_repair_kind_direction() {
    assert_eq!(RepairKind::Active.direction(), -1);
    assert_eq!(RepairKind::Passive.direction(), 0);
}

#[test]
fn air_flag_needs_all_three_criteria() {
    let all = AirFlagCriteria { volume_stall: true, top_pattern: true, break_5_day: true };
    assert!(all.all_met());
    let two = AirFlagCriteria { volume_stall: true, top_pattern: false, break_5_day: true };
    assert!(!two.all_met());
}

#[test]
fn special_kind_tables_and_hits() {
    assert!(MaSpecialKind::GoldenValley.severe_signal());
    assert!(!MaSpecialKind::Mire.severe_signal());
    assert!(MaSpecialKind::WaveUp.is_book_direct());
    assert!(!MaSpecialKind::CycleSwap.is_book_direct());
    assert_eq!(MaSpecialKind::BullArrangement.book_source(), Some("ma p.196 Ch3·3·1 / p.204 形态原文"));
    assert_eq!(MaSpecialKind::Mire.weight(), 1);
    let h = make(MaSpecialKind::DeathValley, 42, "首次死叉".to_string());
    assert_eq!(h.kind, MaSpecialKind::DeathValley);
    assert_eq!(h.label, "死亡谷");
    assert_eq!(h.direction, -1);
    assert_eq!(h.weight, 5);
    assert_eq!(h.bar_index, 42);
    assert_eq!(h.description, "首次死叉");
}

#[test]
fn bond_episodes_name_formations() {
    let mut c = BondEpisodes { down: 0, up: 0 };
    assert_eq!(record_bond_episode(&mut c, true, true), Some(MaAdvancedKind::PoissonSpider));
    assert_eq!(record_bond_episode(&mut c, true, true), Some(MaAdvancedKind::Guillotine));
    assert_eq!(record_bond_episode(&mut c, true, false), Some(MaAdvancedKind::PoissonSpider));
    assert_eq!(record_bond_episode(&mut c, false, true), None);
    assert_eq!(record_bond_episode(&mut c, false, false), Some(MaAdvancedKind::BondUpwardDiverge));
    assert_eq!(c, BondEpisodes { down: 3, up: 2 });
}

#[test]
fn recent_crosses_counted_and_found() {
    let crosses = [3usize, 40, 55, 58, 61, 70];
    // at bar 60 with a window of 20: 40 is 20 bars back (not recent); 55, 58 are; 61 and 70 lie ahead and count
    assert_eq!(count_recent_crosses(&crosses, 60, 20), 4);
    assert_eq!(count_recent_crosses(&crosses, 60, 0), 0);
    assert_eq!(count_recent_crosses(&[], 60, 20), 0);
    // the latest cross at or before bar 60 within 5 bars is 58
    assert_eq!(latest_cross_within(&crosses, 60, 5), Some(58));
    assert_eq!(latest_cross_within(&crosses, 60, 2), None);
    assert_eq!(latest_cross_within(&crosses, 61, 1), Some(61));
}

#[test]
fn repairs_are_active_only_when_quick_and_price_led() {
    assert_eq!(classify_repair(3, 10, true), RepairKind::Active);
    assert_eq!(classify_repair(10, 10, true), RepairKind::Active);
    assert_eq!(classify_repair(11, 10, true), RepairKind::Passive);
    assert_eq!(classify_repair(3, 10, false), RepairKind::Passive);
}

#[test]
fn t_position_fractions_correct() {
    let fraction = |r: DualLineRule| recommended_position_percent(r) as f64 / 100.0;
    assert_eq!(fraction(DualLineRule::Rule3_QualityLineSupportRebound), 0.3);
    assert_eq!(fraction(DualLineRule::Rule4_BreakQuantityAbove), 0.3);
    assert_eq!(fraction(DualLineRule::Rule5_QuantityDownQualitySupport), 0.3);
    assert!(fraction(DualLineRule::Rule1_BreakQualityLineUp) > 0.5);
    assert!(fraction(DualLineRule::Rule2_QuantityGoldenCross) > 0.5);
    assert_eq!(fraction(DualLineRule::Rule6_BullArrangement), 1.0);
}
