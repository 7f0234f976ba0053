//! Match rules and threshold definitions.

use vstd::prelude::*;

verus! {

#[derive(Clone, Copy, Debug, PartialEq, Eq, Structural)]
pub struct CharacterRules {
    pub first_threshold: i32,
    pub second_threshold: i32,
}

/// How much growth an encounter grants to the winning, losing and tying sides.
#[derive(Clone, Copy, Debug, PartialEq, Eq, Structural)]
pub struct MatchRules {
    pub encounter_win_gain: i32,
    pub encounter_loss_gain: i32,
    pub encounter_tie_gain: i32,
    pub default_magical_girl_rules: CharacterRules,
    pub default_baddie_rules: CharacterRules,
}

/// Limits on support decks.
#[derive(Clone, Copy, Debug, PartialEq, Eq, Structural)]
pub struct DeckRules {
    pub support_deck_size: usize,
    pub max_copies_per_story_card: usize,
    pub universal_copy_limit: bool,
}

#[derive(Clone, Copy, Debug, PartialEq, Eq, Structural)]
pub struct ProgressionRules {
    pub overflow_is_lost: bool,
    pub upgrades_happen_immediately: bool,
    pub upgrades_do_not_revert_by_default: bool,
    pub tie_points_stop_at_final_form: bool,
}

impl Default for MatchRules {
    fn default() -> (r: Self)
        ensures
            r.encounter_win_gain == 3,
            r.encounter_loss_gain == 1,
            r.encounter_tie_gain == 1,
            r.default_magical_girl_rules == (CharacterRules { first_threshold: 3, second_threshold: 6 }),
            r.default_baddie_rules == (CharacterRules { first_threshold: 3, second_threshold: 6 }),
    {
        Self {
            encounter_win_gain: 3,
            encounter_loss_gain: 1,
            encounter_tie_gain: 1,
            default_magical_girl_rules: CharacterRules { first_threshold: 3, second_threshold: 6 },
            default_baddie_rules: CharacterRules { first_threshold: 3, second_threshold: 6 },
        }
    }
}

impl Default for DeckRules {
    fn default() -> (r: Self)
        ensures
            r.support_deck_size == 40,
            r.max_copies_per_story_card == 3,
            r.universal_copy_limit,
    {
        Self { support_deck_size: 40, max_copies_per_story_card: 3, universal_copy_limit: true }
    }
}

impl Default for ProgressionRules {
    fn default() -> (r: Self)
        ensures
            r.overflow_is_lost,
            r.upgrades_happen_immediately,
            r.upgrades_do_not_revert_by_default,
            r.tie_points_stop_at_final_form,
    {
        Self {
            overflow_is_lost: true,
            upgrades_happen_immediately: true,
            upgrades_do_not_revert_by_default: true,
            tie_points_stop_at_final_form: true,
        }
    }
}

} // verus!
