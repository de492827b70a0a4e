use aura_trade::engine::chartpattern::flag_validator::FlagValidation;
use aura_trade::engine::chartpattern::types::{
    default_book_reliable, meets_book_time_requirement, rectangle_role, ChartPatternKind,
    MarketMakerBehavior, RectangleRole,
};

#[test]
fn t_market_maker_washout_for_broadening_top() {
    assert_eq!(ChartPatternKind::BroadeningTop.market_maker_behavior(), Some(MarketMakerBehavior::Washout));
}

#[test]
fn t_market_maker_accumulation_for_rectangle_rounding_bottom() {
    assert_eq!(ChartPatternKind::Rectangle.market_maker_behavior(), Some(MarketMakerBehavior::Accumulation));
    assert_eq!(ChartPatternKind::RoundingBottom.market_maker_behavior(), Some(MarketMakerBehavior::Accumulation));
    assert_eq!(ChartPatternKind::CupWithHandle.market_maker_behavior(), Some(MarketMakerBehavior::Accumulation));
}

#[test]
fn t_market_maker_distribution_for_tops() {
    assert_eq!(ChartPatternKind::RoundingTop.market_maker_behavior(), Some(MarketMakerBehavior::Distribution));
    assert_eq!(ChartPatternKind::BroadeningBottom.market_maker_behavior(), Some(MarketMakerBehavior::Distribution));
}

#[test]
fn t_market_maker_none_for_neutral_patterns() {
    assert_eq!(ChartPatternKind::VTop.market_maker_behavior(), None);
    assert_eq!(ChartPatternKind::AscendingTriangle.market_maker_behavior(), None);
}

#[test]
fn t_market_maker_behavior_expected_direction() {
    assert_eq!(MarketMakerBehavior::Accumulation.expected_direction(), 1);
    assert_eq!(MarketMakerBehavior::Stealth.expected_direction(), 1);
    assert_eq!(MarketMakerBehavior::Distribution.expected_direction(), -1);
    assert_eq!(MarketMakerBehavior::Panic.expected_direction(), -1);
    assert_eq!(MarketMakerBehavior::Washout.expected_direction(), 0);
}

#[test]
fn t_rectangle_equivalent_to_rounding_and_double() {
    let eq = ChartPatternKind::Rectangle.equivalent_patterns();
    assert!(eq.contains(&ChartPatternKind::RoundingTop));
    assert!(eq.contains(&ChartPatternKind::RoundingBottom));
    assert!(eq.contains(&ChartPatternKind::DoubleTop));
    assert!(eq.contains(&ChartPatternKind::DoubleBottom));
}

#[test]
fn t_triple_top_equivalent_to_head_shoulders() {
    let eq = ChartPatternKind::TripleTop.equivalent_patterns();
    assert!(eq.contains(&ChartPatternKind::HeadAndShoulders));
}

#[test]
fn t_v_bottom_equivalent_to_inverse_head_shoulders() {
    let eq = ChartPatternKind::VBottom.equivalent_patterns();
    assert!(eq.contains(&ChartPatternKind::InverseHeadAndShoulders));
    assert!(eq.contains(&ChartPatternKind::RoundingBottom));
}

#[test]
fn t_patterns_without_equivalent_return_empty() {
    let eq = ChartPatternKind::SymmetricalTriangle.equivalent_patterns();
    assert!(eq.is_empty());
}

#[test]
fn rectangle_roles_after_breakouts() {
    assert_eq!(rectangle_role(ChartPatternKind::Rectangle, -1, 1, false), Some(RectangleRole::Reversal));
    assert!(rectangle_role(ChartPatternKind::Rectangle, -1, 1, false).unwrap().is_reversal());
    assert_eq!(rectangle_role(ChartPatternKind::Rectangle, 1, 1, false), Some(RectangleRole::Continuation));
    assert_eq!(rectangle_role(ChartPatternKind::Rectangle, 0, -1, false), Some(RectangleRole::Continuation));
    assert_eq!(rectangle_role(ChartPatternKind::Rectangle, 1, 0, true), Some(RectangleRole::OverlongConsolidation));
    assert_eq!(rectangle_role(ChartPatternKind::Rectangle, 1, 0, false), Some(RectangleRole::Consolidation));
    assert_eq!(rectangle_role(ChartPatternKind::VTop, 1, 1, false), None);
    assert_eq!(RectangleRole::OverlongConsolidation.label(), "过长整理");
}

#[test]
fn double_patterns_need_thirty_bars() {
    assert!(!meets_book_time_requirement(ChartPatternKind::DoubleTop, 15));
    assert!(meets_book_time_requirement(ChartPatternKind::DoubleTop, 35));
    assert!(meets_book_time_requirement(ChartPatternKind::DoubleBottom, 30));
    assert!(meets_book_time_requirement(ChartPatternKind::VTop, 5));
    assert!(default_book_reliable());
}

#[test]
fn chart_kind_tables() {
    assert_eq!(ChartPatternKind::DiamondTop.strength(), 6);
    assert_eq!(ChartPatternKind::BullFlag.strength(), 1);
    assert_eq!(ChartPatternKind::Rectangle.direction(), 0);
    assert_eq!(ChartPatternKind::HeadAndShoulders.label(), "头肩顶");
    assert_eq!(MarketMakerBehavior::Stealth.label(), "潜伏突破");
}

#[test]
fn flag_rules_are_totalled() {
    let v = FlagValidation::from_rules(true, false, true, true, false, true, true, vec!["规则 2".to_string()]);
    assert_eq!(v.passed_count, 5);
    assert!(!v.fully_valid);
    assert!(v.is_acceptable());
    assert_eq!(v.warnings.len(), 1);
    let all = FlagValidation::from_rules(true, true, true, true, true, true, true, vec![]);
    assert_eq!(all.passed_count, 7);
    assert!(all.fully_valid);
    let few = FlagValidation::from_rules(true, false, false, true, false, false, true, vec![]);
    assert_eq!(few.passed_count, 3);
    assert!(!few.is_acceptable());
}

fn span(indices: &[usize]) -> usize {
    indices.last().unwrap() - indices.first().unwrap()
}

#[test]
fn t_e32_double_top_short_span_unreliable() {
    let s = span(&[0, 5, 10, 15]);
    assert_eq!(s, 15);
    assert!(!meets_book_time_requirement(ChartPatternKind::DoubleTop, s));
}

#[test]
fn t_e32_double_top_long_span_reliable() {
    let s = span(&[0, 10, 20, 35]);
    assert_eq!(s, 35);
    assert!(meets_book_time_requirement(ChartPatternKind::DoubleTop, s));
}

#[test]
fn t_e32_other_patterns_not_affected() {
    let s = span(&[0, 3, 5]);
    assert_eq!(s, 5);
    assert!(default_book_reliable());
    assert!(meets_book_time_requirement(ChartPatternKind::VTop, s));
}

#[test]
fn t_rectangle_role_reversal_when_break_against_prior_trend() {
    let role = rectangle_role(ChartPatternKind::Rectangle, -1, 1, false);
    assert_eq!(role, Some(RectangleRole::Reversal));
    assert!(role.unwrap().is_reversal());
}

#[test]
fn t_rectangle_role_continuation_when_break_aligns() {
    assert_eq!(rectangle_role(ChartPatternKind::Rectangle, 1, 1, false), Some(RectangleRole::Continuation));
}

#[test]
fn t_rectangle_role_overlong_no_breakout() {
    assert_eq!(rectangle_role(ChartPatternKind::Rectangle, 1, 0, true), Some(RectangleRole::OverlongConsolidation));
}

#[test]
fn t_rectangle_role_none_for_non_rectangle() {
    assert!(rectangle_role(ChartPatternKind::VTop, 1, 1, false).is_none());
}
