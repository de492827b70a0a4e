use aura_trade::engine::backtest::playbook_runner::{apply_decision, PositionStep, TradeAction};
use aura_trade::engine::backtest::runner::{bar_exit, entry_signal, first_of_side, strongest_confirmation, EntrySignal};
use aura_trade::engine::backtest::types::{ExitReason, Side};
use aura_trade::engine::candle::patterns::{PatternHit, PatternKind};
use aura_trade::engine::ma::granville::{GranvilleRule, GranvilleSignal};
use aura_trade::engine::backtest::metrics::{bars_per_year, consec_streaks};
use aura_trade::engine::backtest::playbook::{
    GuillotineExitPlaybook, HangingScallionsEntryPlaybook, PlaybookDecision, PlaybookSignals,
    StagedExitPlaybook, TrendMatrixPlaybook,
};
use aura_trade::engine::effectiveness::{ma_arm_label, ma_arm_name, trigger_direction, ArmCategory};
use aura_trade::engine::ma::advanced::MaAdvancedKind;
use aura_trade::engine::resonance::score::Stance;
use aura_trade::engine::signal::staged_exit::{topping_severity_of, StagedExitPlanner, ToppingSignalSeverity};

fn signals(kind: Option<MaAdvancedKind>, long_trend: i8) -> PlaybookSignals {
    PlaybookSignals { index: 100, ma_advanced_kind: kind, topping_severity: None, long_trend }
}

fn topping(sev: ToppingSignalSeverity) -> PlaybookSignals {
    PlaybookSignals { index: 100, ma_advanced_kind: None, topping_severity: Some(sev), long_trend: 1 }
}

#[test]
fn t_playbook_labels_and_book_sources() {
    let pb1 = GuillotineExitPlaybook;
    assert_eq!(pb1.name(), "断头铡刀清仓");
    assert_eq!(pb1.book_source(), "ma p.380");

    let pb2 = HangingScallionsEntryPlaybook;
    assert_eq!(pb2.name(), "旱地拔葱轻仓入场");
    assert_eq!(pb2.book_source(), "ma p.340");

    let pb3 = StagedExitPlaybook::new();
    assert_eq!(pb3.name(), "三次减仓");

    let pb4 = TrendMatrixPlaybook;
    assert_eq!(pb4.book_source(), "trend p.216");
}

#[test]
fn guillotine_clears_and_otherwise_holds() {
    let mut pb = GuillotineExitPlaybook;
    match pb.decide(&signals(Some(MaAdvancedKind::Guillotine), 1)) {
        PlaybookDecision::Sell { target_percent, .. } => assert_eq!(target_percent, 0),
        _ => panic!("expected a sale"),
    }
    assert_eq!(pb.decide(&signals(None, 1)), PlaybookDecision::Hold);
}

#[test]
fn scallions_enter_light() {
    let mut pb = HangingScallionsEntryPlaybook;
    match pb.decide(&signals(Some(MaAdvancedKind::HangingScallions), 1)) {
        PlaybookDecision::Buy { target_percent, .. } => assert_eq!(target_percent, 30),
        _ => panic!("expected a buy"),
    }
    assert_eq!(pb.decide(&signals(Some(MaAdvancedKind::Guillotine), 1)), PlaybookDecision::Hold);
}

#[test]
fn trend_matrix_cases() {
    let mut pb = TrendMatrixPlaybook;
    assert!(matches!(pb.decide(&signals(None, -1)), PlaybookDecision::StayOut { .. }));
    assert!(matches!(pb.decide(&signals(Some(MaAdvancedKind::BondUpwardDiverge), -1)), PlaybookDecision::StayOut { .. }));
    match pb.decide(&signals(Some(MaAdvancedKind::BondUpwardDiverge), 1)) {
        PlaybookDecision::Buy { target_percent, .. } => assert_eq!(target_percent, 100),
        _ => panic!("expected a full buy"),
    }
    match pb.decide(&signals(Some(MaAdvancedKind::Guillotine), 1)) {
        PlaybookDecision::Sell { target_percent, .. } => assert_eq!(target_percent, 0),
        _ => panic!("expected a clearing sale"),
    }
    match pb.decide(&signals(Some(MaAdvancedKind::HangingScallions), 1)) {
        PlaybookDecision::Buy { target_percent, .. } => assert_eq!(target_percent, 30),
        _ => panic!("expected a light buy"),
    }
    assert_eq!(pb.decide(&signals(Some(MaAdvancedKind::PoissonSpider), 1)), PlaybookDecision::Hold);
    assert_eq!(pb.decide(&signals(Some(MaAdvancedKind::Guillotine), 0)), PlaybookDecision::Hold);
}

#[test]
fn decision_labels_and_targets() {
    let buy = PlaybookDecision::Buy { target_percent: 50, reason: "test".to_string() };
    assert_eq!(buy.target_percent(), 50);
    assert_eq!(buy.label(), "买入/加仓");
    let sell = PlaybookDecision::Sell { target_percent: 0, reason: "test".to_string() };
    assert_eq!(sell.target_percent(), 0);
    assert_eq!(PlaybookDecision::Hold.target_percent(), 0);
    assert_eq!(PlaybookDecision::StayOut { reason: String::new() }.label(), "空仓");
}

#[test]
fn t_ma_arm_name_coverage() {
    for k in [
        MaAdvancedKind::HangingScallions,
        MaAdvancedKind::PoissonSpider,
        MaAdvancedKind::Guillotine,
        MaAdvancedKind::BondUpwardDiverge,
    ] {
        let name = ma_arm_name(k);
        let label = ma_arm_label(k);
        assert!(name.starts_with("signal.ma."));
        assert!(!label.is_empty());
    }
}

#[test]
fn triggers_from_decisions() {
    assert_eq!(trigger_direction(&PlaybookDecision::Buy { target_percent: 30, reason: String::new() }), Some(1));
    assert_eq!(trigger_direction(&PlaybookDecision::Sell { target_percent: 0, reason: String::new() }), Some(-1));
    assert_eq!(trigger_direction(&PlaybookDecision::Sell { target_percent: 70, reason: String::new() }), None);
    assert_eq!(trigger_direction(&PlaybookDecision::Hold), None);
    assert_eq!(ArmCategory::Playbook.as_str(), "Playbook");
    assert_eq!(ArmCategory::Signal.as_str(), "Signal");
}

#[test]
fn t_stance_label_all_variants() {
    assert_eq!(Stance::StrongBull.label(), "强烈看涨");
    assert_eq!(Stance::Bull.label(), "看涨");
    assert_eq!(Stance::WeakBull.label(), "偏多");
    assert_eq!(Stance::Neutral.label(), "中性 / 观望");
    assert_eq!(Stance::WeakBear.label(), "偏空");
    assert_eq!(Stance::Bear.label(), "看跌");
    assert_eq!(Stance::StrongBear.label(), "强烈看跌");
}

#[test]
fn streaks_of_wins_and_losses() {
    // win, loss, loss, win, win, win, loss
    let wins = [true, false, false, true, true, true, false];
    assert_eq!(consec_streaks(&wins), (3, 2));
    assert_eq!(consec_streaks(&[]), (0, 0));
    assert_eq!(consec_streaks(&[false, false, false]), (0, 3));
}

#[test]
fn bars_per_year_known_and_unknown_intervals() {
    assert_eq!(bars_per_year("1h"), 8760);
    assert_eq!(bars_per_year("4h"), 2190);
    assert_eq!(bars_per_year("1d"), 365);
    assert_eq!(bars_per_year("1w"), 52);
    assert_eq!(bars_per_year("1M"), 12);
    assert_eq!(bars_per_year("1m"), 525_600);
    assert_eq!(bars_per_year("unknown"), 365);
}

fn hit(direction: i8, strength: u8) -> PatternHit {
    PatternHit { index: 7, kind: PatternKind::BigBullCandle, direction, strength }
}

fn gv(rule: GranvilleRule) -> GranvilleSignal {
    GranvilleSignal { index: 7, rule }
}

#[test]
fn stop_is_taken_before_target_on_the_same_bar() {
    assert_eq!(bar_exit(true, true), Some(ExitReason::StopLoss));
    assert_eq!(bar_exit(false, true), Some(ExitReason::TakeProfit));
    assert_eq!(bar_exit(true, false), Some(ExitReason::StopLoss));
    assert_eq!(bar_exit(false, false), None);
}

#[test]
fn first_signal_of_each_side() {
    let s = [gv(GranvilleRule::S2ReboundSell), gv(GranvilleRule::B2PullbackBuy), gv(GranvilleRule::B1BreakoutBuy)];
    assert_eq!(first_of_side(&s, true), Some(1));
    assert_eq!(first_of_side(&s, false), Some(0));
    assert_eq!(first_of_side(&s[1..], false), None);
}

#[test]
fn strongest_confirmation_takes_last_of_equal_strength() {
    let h = [hit(1, 3), hit(1, 5), hit(-1, 9), hit(1, 5), hit(1, 2)];
    assert_eq!(strongest_confirmation(&h, true, 3), Some(3));
    assert_eq!(strongest_confirmation(&h, false, 3), Some(2));
    assert_eq!(strongest_confirmation(&h, true, 6), None);
    assert_eq!(strongest_confirmation(&h, false, 10), None);
}

#[test]
fn entry_needs_granville_and_pattern_on_one_side() {
    let buys = [gv(GranvilleRule::B3FalseBreakBuy)];
    let sells = [gv(GranvilleRule::S1BreakdownSell)];
    let both = [gv(GranvilleRule::S1BreakdownSell), gv(GranvilleRule::B3FalseBreakBuy)];
    let bull = [hit(1, 4)];
    let bear = [hit(-1, 4)];
    assert_eq!(
        entry_signal(&buys, &bull, 3, false),
        Some(EntrySignal { side: Side::Long, granville: 0, pattern: 0 })
    );
    assert_eq!(entry_signal(&buys, &bear, 3, true), None);
    assert_eq!(entry_signal(&sells, &bear, 3, false), None);
    assert_eq!(
        entry_signal(&sells, &bear, 3, true),
        Some(EntrySignal { side: Side::Short, granville: 0, pattern: 0 })
    );
    // the long side wins when both sides are signalled
    let mixed = [hit(-1, 9), hit(1, 3)];
    assert_eq!(
        entry_signal(&both, &mixed, 3, true),
        Some(EntrySignal { side: Side::Long, granville: 1, pattern: 1 })
    );
    // too weak a pattern gives no entry
    assert_eq!(entry_signal(&buys, &bull, 5, true), None);
}

fn buy(t: u8) -> PlaybookDecision {
    PlaybookDecision::Buy { target_percent: t, reason: "b".to_string() }
}

fn sell(t: u8) -> PlaybookDecision {
    PlaybookDecision::Sell { target_percent: t, reason: "s".to_string() }
}

#[test]
fn playbook_decisions_move_the_position() {
    assert_eq!(apply_decision(0, false, &buy(30)), PositionStep { position_percent: 30, action: TradeAction::Open });
    assert_eq!(apply_decision(30, true, &buy(100)), PositionStep { position_percent: 100, action: TradeAction::Add });
    assert_eq!(apply_decision(100, true, &buy(30)), PositionStep { position_percent: 100, action: TradeAction::Keep });
    assert_eq!(
        apply_decision(100, true, &sell(30)),
        PositionStep {
            position_percent: 30,
            action: TradeAction::Close { reason: ExitReason::Reverse, reopen_rest: true },
        }
    );
    assert_eq!(
        apply_decision(30, true, &sell(0)),
        PositionStep {
            position_percent: 0,
            action: TradeAction::Close { reason: ExitReason::TakeProfit, reopen_rest: false },
        }
    );
    assert_eq!(apply_decision(0, false, &sell(0)), PositionStep { position_percent: 0, action: TradeAction::Keep });
    assert_eq!(apply_decision(50, true, &PlaybookDecision::Hold), PositionStep { position_percent: 50, action: TradeAction::Keep });
    assert_eq!(
        apply_decision(50, true, &PlaybookDecision::StayOut { reason: "x".to_string() }),
        PositionStep { position_percent: 50, action: TradeAction::Keep }
    );
}

use aura_trade::engine::backtest::position_limit::{OrderCheckResult, PositionLimit, PositionLimitChecker};

#[test]
fn t_l4_max_is_30_percent() {
    let limits = PositionLimit::default();
    assert_eq!(limits.l4_buy_max, 30);
    assert_eq!(limits.bull_buy_max, 100);
    assert_eq!(limits.sell_max_position, 0);
}

#[test]
fn t_l4_order_rejected_if_over_30pct() {
    let checker = PositionLimitChecker::default();
    let result = checker.check_order(Some(GranvilleRule::B4DivergenceBuy), 0, 50);
    match result {
        OrderCheckResult::Rejected { original_target, max_allowed, rule, reason } => {
            assert_eq!(original_target, 50);
            assert_eq!(max_allowed, 30);
            assert_eq!(rule, GranvilleRule::B4DivergenceBuy);
            assert_eq!(reason, "葛南维 B4 规则仓位上限 30%，目标 50% 超限（当前 0%）");
        }
        _ => panic!("a 50% order on B4 must be rejected"),
    }
}

#[test]
fn t_l4_order_approved_if_under_30pct() {
    let checker = PositionLimitChecker::default();
    let result = checker.check_order(Some(GranvilleRule::B4DivergenceBuy), 0, 30);
    assert_eq!(result, OrderCheckResult::Approved { target_percent: 30 });
}

#[test]
fn t_l1_l2_l3_can_full_position() {
    let checker = PositionLimitChecker::default();
    for rule in [GranvilleRule::B1BreakoutBuy, GranvilleRule::B2PullbackBuy, GranvilleRule::B3FalseBreakBuy] {
        let result = checker.check_order(Some(rule), 0, 100);
        assert!(matches!(result, OrderCheckResult::Approved { .. }), "{:?} allows a full position", rule);
    }
}

#[test]
fn t_sell_rules_zero_position() {
    let checker = PositionLimitChecker::default();
    for rule in [
        GranvilleRule::S1BreakdownSell,
        GranvilleRule::S2ReboundSell,
        GranvilleRule::S3FalseBreakSell,
        GranvilleRule::S4DivergenceSell,
    ] {
        let ok = checker.check_order(Some(rule), 50, 0);
        assert!(matches!(ok, OrderCheckResult::Approved { .. }));
        let rejected = checker.check_order(Some(rule), 50, 1);
        assert!(matches!(rejected, OrderCheckResult::Rejected { .. }));
    }
}

#[test]
fn t_no_rule_returns_no_context() {
    let checker = PositionLimitChecker::default();
    assert_eq!(checker.check_order(None, 0, 100), OrderCheckResult::NoContext);
}

#[test]
fn t_clamp_position_enforces_limit() {
    let checker = PositionLimitChecker::default();
    assert_eq!(checker.clamp_position(Some(GranvilleRule::B4DivergenceBuy), 50), 30);
    assert_eq!(checker.clamp_position(Some(GranvilleRule::B1BreakoutBuy), 50), 50);
    assert_eq!(checker.clamp_position(None, 80), 80);
}

#[test]
fn t_conservative_and_aggressive_presets() {
    let cons = PositionLimit::conservative();
    assert!(cons.bull_buy_max < PositionLimit::default().bull_buy_max);
    assert!(cons.l4_buy_max < PositionLimit::default().l4_buy_max);
    let agg = PositionLimit::aggressive();
    assert_eq!(agg.bull_buy_max, 100);
    assert_eq!(agg.l4_buy_max, 30);
    let custom = PositionLimitChecker::new(PositionLimit { bull_buy_max: 80, l4_buy_max: 10, sell_max_position: 5 });
    assert_eq!(custom.clamp_position(Some(GranvilleRule::S2ReboundSell), 9), 5);
    let r = custom.check_order(Some(GranvilleRule::B2PullbackBuy), 100, 255);
    match r {
        OrderCheckResult::Rejected { reason, .. } => {
            assert_eq!(reason, "葛南维 B2 规则仓位上限 80%，目标 255% 超限（当前 100%）")
        }
        _ => panic!("255% exceeds 80%"),
    }
}

#[test]
fn stance_direction_and_confidence() {
    assert_eq!(Stance::StrongBull.direction(), 1);
    assert_eq!(Stance::WeakBull.direction(), 1);
    assert_eq!(Stance::Neutral.direction(), 0);
    assert_eq!(Stance::Bear.direction(), -1);
    assert_eq!(Stance::StrongBull.confidence_percent(), 100);
    assert_eq!(Stance::Bull.confidence_percent(), 70);
    assert_eq!(Stance::WeakBear.confidence_percent(), 35);
    assert_eq!(Stance::Neutral.confidence_percent(), 0);
    assert_eq!(Stance::StrongBear.confidence_percent(), 100);
}

#[test]
fn t_bars_per_year_known_intervals() {
    assert_eq!(bars_per_year("1h") as f64, 8_760.0);
    assert_eq!(bars_per_year("4h") as f64, 2_190.0);
    assert_eq!(bars_per_year("1d") as f64, 365.0);
    assert_eq!(bars_per_year("1w") as f64, 52.0);
    assert_eq!(bars_per_year("1M") as f64, 12.0);
}

#[test]
fn t_bars_per_year_unknown_falls_back_to_daily() {
    assert_eq!(bars_per_year("unknown") as f64, 365.0);
    assert_eq!(bars_per_year("") as f64, 365.0);
}

#[test]
fn t_guillotine_exit_triggers_sell() {
    let mut pb = GuillotineExitPlaybook;
    match pb.decide(&signals(Some(MaAdvancedKind::Guillotine), 1)) {
        PlaybookDecision::Sell { target_percent, .. } => assert_eq!(target_percent, 0),
        _ => panic!("a guillotine must trigger a sale"),
    }
}

#[test]
fn t_guillotine_no_signal_holds() {
    let mut pb = GuillotineExitPlaybook;
    assert_eq!(pb.decide(&signals(None, 1)), PlaybookDecision::Hold);
}

#[test]
fn t_hanging_scallions_light_position() {
    let mut pb = HangingScallionsEntryPlaybook;
    match pb.decide(&signals(Some(MaAdvancedKind::HangingScallions), 1)) {
        PlaybookDecision::Buy { target_percent, .. } => assert_eq!(target_percent, 30, "a light 30% position"),
        _ => panic!("hanging scallions must trigger a buy"),
    }
}

#[test]
fn t_trend_matrix_long_down_stay_out() {
    let mut pb = TrendMatrixPlaybook;
    assert!(matches!(pb.decide(&signals(None, -1)), PlaybookDecision::StayOut { .. }));
}

#[test]
fn t_trend_matrix_long_up_bond_diverge_full() {
    let mut pb = TrendMatrixPlaybook;
    match pb.decide(&signals(Some(MaAdvancedKind::BondUpwardDiverge), 1)) {
        PlaybookDecision::Buy { target_percent, .. } => assert_eq!(target_percent, 100, "full position in the main wave"),
        _ => panic!("expected a full buy"),
    }
}

#[test]
fn t_trend_matrix_long_up_guillotine_full_exit() {
    let mut pb = TrendMatrixPlaybook;
    match pb.decide(&signals(Some(MaAdvancedKind::Guillotine), 1)) {
        PlaybookDecision::Sell { target_percent, .. } => assert_eq!(target_percent, 0),
        _ => panic!("expected a clearing sale"),
    }
}

#[test]
fn t_decision_target_position() {
    let buy = PlaybookDecision::Buy { target_percent: 50, reason: "test".to_string() };
    assert_eq!(buy.target_percent(), 50);
    let sell = PlaybookDecision::Sell { target_percent: 0, reason: "test".to_string() };
    assert_eq!(sell.target_percent(), 0);
    assert_eq!(PlaybookDecision::Hold.target_percent(), 0);
}

#[test]
fn t_staged_exit_progresses_through_stages() {
    let mut pb = StagedExitPlaybook::new();
    let ctx = topping(ToppingSignalSeverity::Early);
    match pb.decide(&ctx) {
        PlaybookDecision::Sell { target_percent, .. } => assert_eq!(target_percent, 70),
        _ => panic!("第 1 次应触发 Sell"),
    }
    match pb.decide(&ctx) {
        PlaybookDecision::Sell { target_percent, .. } => assert_eq!(target_percent, 50),
        _ => panic!("第 2 次应触发 Sell"),
    }
    let ctx3 = topping(ToppingSignalSeverity::Severe);
    match pb.decide(&ctx3) {
        PlaybookDecision::Sell { target_percent, .. } => assert_eq!(target_percent, 0),
        _ => panic!("第 3 次应清仓"),
    }
}

#[test]
fn staged_exit_reasons_and_what_follows_a_full_exit() {
    let mut pb = StagedExitPlaybook::new();
    assert_eq!(pb.decide(&signals(None, 1)), PlaybookDecision::Hold);
    assert_eq!(
        pb.decide(&topping(ToppingSignalSeverity::Intermediate)),
        PlaybookDecision::Sell { target_percent: 70, reason: "三次减仓第 1 次（Intermediate）→ 减至 70%（candle p.605）".to_string() }
    );
    assert_eq!(
        pb.decide(&topping(ToppingSignalSeverity::Early)),
        PlaybookDecision::Sell { target_percent: 50, reason: "三次减仓第 2 次（Early）→ 减至 50%（candle p.605）".to_string() }
    );
    assert_eq!(
        pb.decide(&topping(ToppingSignalSeverity::Severe)),
        PlaybookDecision::Sell { target_percent: 0, reason: "三次减仓第 3 次（Severe）→ 减至 0%（candle p.605）".to_string() }
    );
    assert_eq!(pb.decide(&topping(ToppingSignalSeverity::Severe)), PlaybookDecision::Hold);
    assert_eq!(pb.planner.triggered_count(), 3);
}

#[test]
fn staged_exit_planner_steps_and_reset() {
    let mut planner = StagedExitPlanner::default();
    assert_eq!(planner.current_position_percent(), 100);
    assert!(!planner.is_fully_exited());
    let ev = planner.on_topping_signal(7, ToppingSignalSeverity::Severe, "scan".to_string()).unwrap();
    assert_eq!((ev.index, ev.stage, ev.remaining_percent), (7, 1, 70));
    assert_eq!(ev.severity, ToppingSignalSeverity::Severe);
    assert_eq!(ev.reason, "scan");
    assert!(planner.on_topping_signal(8, ToppingSignalSeverity::Early, "scan".to_string()).is_some());
    let last = planner.on_topping_signal(9, ToppingSignalSeverity::Early, "scan".to_string()).unwrap();
    assert_eq!((last.stage, last.remaining_percent), (3, 0));
    assert!(planner.is_fully_exited());
    assert!(planner.on_topping_signal(10, ToppingSignalSeverity::Early, "scan".to_string()).is_none());
    assert_eq!(planner.triggered_count(), 3);
    planner.reset();
    assert_eq!(planner.triggered_count(), 0);
    assert_eq!(planner.current_position_percent(), 100);
}

#[test]
fn topping_signals_from_formations() {
    assert_eq!(topping_severity_of(Some(MaAdvancedKind::Guillotine)), Some(ToppingSignalSeverity::Severe));
    assert_eq!(topping_severity_of(Some(MaAdvancedKind::PoissonSpider)), Some(ToppingSignalSeverity::Intermediate));
    assert_eq!(topping_severity_of(Some(MaAdvancedKind::HangingScallions)), None);
    assert_eq!(topping_severity_of(None), None);
    assert_eq!(ToppingSignalSeverity::Intermediate.name(), "Intermediate");
}
