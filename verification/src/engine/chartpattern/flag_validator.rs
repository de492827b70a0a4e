//! The seven rules that a flag has to satisfy, and how their outcomes are
//! totalled.

use vstd::prelude::*;

verus! {

/// Outcome of the seven flag rules.
#[derive(Debug, Clone)]
pub struct FlagValidation {
    /// The pole rose or fell sharply.
    pub rule1_sharp_pole: bool,
    /// A bull flag broke out on rising volume (bear flags need none).
    pub rule2_volume_on_breakout: bool,
    /// The breakout cleared the flag's edge by 3%.
    pub rule3_effective_break_3pct: bool,
    /// Volume shrank during the consolidation.
    pub rule4_volume_declining: bool,
    /// The consolidation lasted at most about eight months.
    pub rule5_within_8_months: bool,
    /// The breakout went the pole's way.
    pub rule6_same_direction_break: bool,
    /// The flag leans against the pole (else it is a channel).
    pub rule7_correct_tilt: bool,
    /// How many of the seven rules hold.
    pub passed_count: u8,
    /// All seven rules hold.
    pub fully_valid: bool,
    /// Explanations of the rules that failed.
    pub warnings: Vec<String>,
}

/// 1 for a rule that holds, 0 otherwise.
pub open spec fn holds(b: bool) -> int {
    if b { 1 } else { 0 }
}

impl FlagValidation {
    /// Number of rules that hold among the seven recorded outcomes.
    pub open spec fn rules_held(&self) -> int {
        holds(self.rule1_sharp_pole) + holds(self.rule2_volume_on_breakout) + holds(
            self.rule3_effective_break_3pct,
        ) + holds(self.rule4_volume_declining) + holds(self.rule5_within_8_months) + holds(
            self.rule6_same_direction_break,
        ) + holds(self.rule7_correct_tilt)
    }

    /// Totals the seven rule outcomes.
    pub fn from_rules(
        rule1_sharp_pole: bool,
        rule2_volume_on_breakout: bool,
        rule3_effective_break_3pct: bool,
        rule4_volume_declining: bool,
        rule5_within_8_months: bool,
        rule6_same_direction_break: bool,
        rule7_correct_tilt: bool,
        warnings: Vec<String>,
    ) -> (r: FlagValidation)
        ensures
            r.rule1_sharp_pole == rule1_sharp_pole,
            r.rule2_volume_on_breakout == rule2_volume_on_breakout,
            r.rule3_effective_break_3pct == rule3_effective_break_3pct,
            r.rule4_volume_declining == rule4_volume_declining,
            r.rule5_within_8_months == rule5_within_8_months,
            r.rule6_same_direction_break == rule6_same_direction_break,
            r.rule7_correct_tilt == rule7_correct_tilt,
            r.passed_count == r.rules_held(),
            r.fully_valid == (r.rules_held() == 7),
            r.warnings@ == warnings@,
    {
        let rules = [
            rule1_sharp_pole,
            rule2_volume_on_breakout,
            rule3_effective_break_3pct,
            rule4_volume_declining,
            rule5_within_8_months,
            rule6_same_direction_break,
            rule7_correct_tilt,
        ];
        let mut passed: u8 = 0;
        let mut i: usize = 0;
        while i < 7
            invariant
                i <= 7,
                rules@ == seq![
                    rule1_sharp_pole,
                    rule2_volume_on_breakout,
                    rule3_effective_break_3pct,
                    rule4_volume_declining,
                    rule5_within_8_months,
                    rule6_same_direction_break,
                    rule7_correct_tilt,
                ],
                passed as int == count_held(rules@, i as int),
                passed <= i,
            decreases 7 - i,
        {
            if rules[i] {
                passed = passed + 1;
            }
            i = i + 1;
        }
        proof {
            reveal_with_fuel(count_held, 8);
        }
        FlagValidation {
            rule1_sharp_pole,
            rule2_volume_on_breakout,
            rule3_effective_break_3pct,
            rule4_volume_declining,
            rule5_within_8_months,
            rule6_same_direction_break,
            rule7_correct_tilt,
            passed_count: passed,
            fully_valid: passed == 7,
            warnings,
        }
    }

    /// Lenient reading: the flag counts when at least five of the seven rules hold.
    pub fn is_acceptable(&self) -> (r: bool)
        ensures
            r == (self.passed_count >= 5),
    {
        self.passed_count >= 5
    }
}

/// Number of `true` among the first `n` outcomes.
pub open spec fn count_held(rules: Seq<bool>, n: int) -> int
    decreases n,
{
    if n <= 0 {
        0
    } else {
        count_held(rules, n - 1) + holds(rules[n - 1])
    }
}

} // verus!
