//! What the battle, setup and campaign screens say about a match, a run and a roster.

use vstd::prelude::*;

use crate::data::campaigns::{encounter_position, lemma_encounter_position, lemma_node_position, node_position};
use crate::data::ui_text::text_lookup;
use crate::data::{CampaignDefinition, CharacterDefinition, UiText};
use crate::state::match_state::{MatchState, MatchView};
use crate::state::runtime::{opponent, opposing, MatchPhase, PlayerId, SupportState};
use crate::state::setup::{support_pair_list, support_pairs, lemma_support_pairs_exclude_main};
use crate::engine::MatchAction;
use crate::screens::ScreenAction;
use crate::state::runtime::CharacterStage;
use crate::state::{AppState, BattleContext, CampaignRunStatus};
use crate::text::{natural_text, push_natural};

verus! {

/// A player may reveal a support on that side now: in a reaction window they hold, or
/// outside one when they hold priority, and the reveal itself is allowed.
pub open spec fn may_reveal_side(m: MatchView, player: PlayerId, is_magical_girl_side: bool) -> bool {
    &&& (m.reaction_priority_player() == Some(player)
        || (m.reaction_state is None && m.proactive_priority_player() == Some(player)))
    &&& m.can_reveal_support(player, is_magical_girl_side)
}

pub fn can_reveal_side(match_state: &MatchState, player: PlayerId, is_magical_girl_side: bool) -> (r: bool)
    ensures
        r == may_reveal_side(match_state@, player, is_magical_girl_side),
{
    ((match_state.reaction_priority_player() == Some(player)) || (match_state.reaction_state.is_none()
        && match_state.proactive_priority_player() == Some(player))) && match_state.can_reveal_support(
        player,
        is_magical_girl_side,
    )
}

/// The catalog key of a player's status line.
pub open spec fn player_status_key(m: MatchView, player: PlayerId) -> Seq<char> {
    if m.phase == MatchPhase::Finished {
        "battle_finished_label"@
    } else if m.active_player == player {
        "battle_attacking_label"@
    } else if opponent(m.active_player) == player {
        "battle_defending_label"@
    } else {
        "battle_idle_label"@
    }
}

pub fn player_status<'a>(ui_text: &'a UiText, match_state: &MatchState, player: PlayerId) -> (r: &'a str)
    ensures
        r@ == text_lookup(ui_text.values@, player_status_key(match_state@, player)),
{
    if match_state.phase == MatchPhase::Finished {
        ui_text.get("battle_finished_label")
    } else if match_state.active_player == player {
        ui_text.get("battle_attacking_label")
    } else if opposing(match_state.active_player) == player {
        ui_text.get("battle_defending_label")
    } else {
        ui_text.get("battle_idle_label")
    }
}

/// The catalog key naming the winner of a skirmish.
pub open spec fn winner_key(winner: Option<PlayerId>) -> Seq<char> {
    match winner {
        Some(PlayerId::PlayerA) => "battle_result_player_a"@,
        Some(PlayerId::PlayerB) => "battle_result_player_b"@,
        None => "battle_result_unknown"@,
    }
}

pub fn winner_label<'a>(ui_text: &'a UiText, winner: Option<PlayerId>) -> (r: &'a str)
    ensures
        r@ == text_lookup(ui_text.values@, winner_key(winner)),
{
    match winner {
        Some(PlayerId::PlayerA) => ui_text.get("battle_result_player_a"),
        Some(PlayerId::PlayerB) => ui_text.get("battle_result_player_b"),
        None => ui_text.get("battle_result_unknown"),
    }
}

/// The catalog key naming the winner of a campaign battle.
pub open spec fn campaign_winner_key(winner: Option<PlayerId>) -> Seq<char> {
    match winner {
        Some(PlayerId::PlayerA) => "campaign_battle_player_wins"@,
        Some(PlayerId::PlayerB) => "campaign_battle_enemy_wins"@,
        None => "battle_result_unknown"@,
    }
}

pub fn campaign_winner_label<'a>(ui_text: &'a UiText, winner: Option<PlayerId>) -> (r: &'a str)
    ensures
        r@ == text_lookup(ui_text.values@, campaign_winner_key(winner)),
{
    match winner {
        Some(PlayerId::PlayerA) => ui_text.get("campaign_battle_player_wins"),
        Some(PlayerId::PlayerB) => ui_text.get("campaign_battle_enemy_wins"),
        None => ui_text.get("battle_result_unknown"),
    }
}

pub fn hand_card_status_label<'a>(ui_text: &'a UiText, enabled: bool) -> (r: &'a str)
    ensures
        r@ == text_lookup(ui_text.values@, if enabled { "battle_card_ready"@ } else { "battle_card_hold"@ }),
{
    if enabled {
        ui_text.get("battle_card_ready")
    } else {
        ui_text.get("battle_card_hold")
    }
}

/// The catalog key of the hint telling a player what they may do now.
pub open spec fn action_hint_key(m: MatchView, player: PlayerId) -> Seq<char> {
    if m.reaction_priority_player() == Some(player) {
        "battle_hint_reaction"@
    } else if m.proactive_priority_player() == Some(player) && m.phase == MatchPhase::DailyLife {
        "battle_hint_daily_life"@
    } else if m.proactive_priority_player() == Some(player) && (m.phase == MatchPhase::Encounter || m.phase
        == MatchPhase::FinalClimax) {
        "battle_hint_encounter"@
    } else if m.phase == MatchPhase::Finished {
        "battle_hint_finished"@
    } else {
        "battle_hint_waiting"@
    }
}

pub fn battle_action_hint<'a>(ui_text: &'a UiText, match_state: &MatchState, player: PlayerId) -> (r: &'a str)
    ensures
        r@ == text_lookup(ui_text.values@, action_hint_key(match_state@, player)),
{
    if match_state.reaction_priority_player() == Some(player) {
        ui_text.get("battle_hint_reaction")
    } else if match_state.proactive_priority_player() == Some(player) && match_state.phase == MatchPhase::DailyLife {
        ui_text.get("battle_hint_daily_life")
    } else if match_state.proactive_priority_player() == Some(player) && (match_state.phase == MatchPhase::Encounter
        || match_state.phase == MatchPhase::FinalClimax) {
        ui_text.get("battle_hint_encounter")
    } else if match_state.phase == MatchPhase::Finished {
        ui_text.get("battle_hint_finished")
    } else {
        ui_text.get("battle_hint_waiting")
    }
}

/// One support's label: its slot number and, once revealed, its name.
pub open spec fn support_label(ui_text: UiText, supports: Seq<SupportState>, i: int) -> Seq<char> {
    "S"@ + natural_text((i + 1) as nat) + " "@ + if supports[i].revealed {
        supports[i].runtime.name@
    } else {
        text_lookup(ui_text.values@, "battle_hidden_support_short"@)
    }
}

/// The labels of the first `n` supports, separated by " | ".
pub open spec fn support_labels(ui_text: UiText, supports: Seq<SupportState>, n: nat) -> Seq<char>
    decreases n,
{
    if n == 0 {
        Seq::empty()
    } else if n == 1 {
        support_label(ui_text, supports, 0)
    } else {
        support_labels(ui_text, supports, (n - 1) as nat) + " | "@ + support_label(ui_text, supports, n - 1)
    }
}

/// The supports line of a side: the heading, then every support's label.
pub open spec fn supports_line(ui_text: UiText, supports: Seq<SupportState>) -> Seq<char> {
    text_lookup(ui_text.values@, "battle_supports_label"@) + ": "@ + support_labels(ui_text, supports, supports.len())
}

pub fn format_supports(ui_text: &UiText, supports: &[SupportState]) -> (r: String)
    requires
        supports@.len() < u64::MAX,
    ensures
        r@ == supports_line(*ui_text, supports@),
{
    let mut labels = String::new();
    let mut i: usize = 0;
    while i < supports.len()
        invariant
            i <= supports@.len() < u64::MAX,
            labels@ == support_labels(*ui_text, supports@, i as nat),
        decreases supports@.len() - i,
    {
        if i > 0 {
            labels.append(" | ");
        }
        labels.append("S");
        push_natural(&mut labels, (i + 1) as u64);
        labels.append(" ");
        if supports[i].revealed {
            labels.append(supports[i].runtime.name.as_str());
        } else {
            labels.append(ui_text.get("battle_hidden_support_short"));
        }
        i += 1;
        proof {
            assert(labels@ =~= support_labels(*ui_text, supports@, i as nat));
        }
    }
    let mut line = ui_text.get("battle_supports_label").to_owned();
    line.append(": ");
    line.append(labels.as_str());
    line
}

/// The name of the encounter a campaign battle is fought at, or the catalog's text for a
/// missing one; empty for a skirmish.
pub open spec fn encounter_name_of(ui_text: UiText, campaign: CampaignDefinition, context: BattleContext) -> Seq<char> {
    match context {
        BattleContext::Skirmish => Seq::empty(),
        BattleContext::Campaign { node_id, .. } => match node_position(campaign.nodes@, node_id@) {
            Some(n) => match encounter_position(campaign.encounters@, campaign.nodes@[n].encounter_id@) {
                Some(e) => campaign.encounters@[e].name@,
                None => text_lookup(ui_text.values@, "campaign_missing_encounter"@),
            },
            None => text_lookup(ui_text.values@, "campaign_missing_encounter"@),
        },
    }
}

pub fn campaign_encounter_name(ui_text: &UiText, campaign: &CampaignDefinition, battle_context: &BattleContext) -> (r: String)
    ensures
        r@ == encounter_name_of(*ui_text, *campaign, *battle_context),
{
    let node_id = match battle_context {
        BattleContext::Campaign { node_id, .. } => node_id,
        BattleContext::Skirmish => return String::new(),
    };
    proof {
        lemma_node_position(campaign.nodes@, node_id@);
    }
    match campaign.node(node_id.as_str()) {
        Some(node) => {
            proof {
                lemma_encounter_position(campaign.encounters@, node.encounter_id@);
            }
            match campaign.encounter(node.encounter_id.as_str()) {
                Some(encounter) => encounter.name.clone(),
                None => ui_text.get("campaign_missing_encounter").to_owned(),
            }
        },
        None => ui_text.get("campaign_missing_encounter").to_owned(),
    }
}

/// The catalog key of a run status.
pub open spec fn run_status_key(status: CampaignRunStatus) -> Seq<char> {
    match status {
        CampaignRunStatus::InProgress => "campaign_status_in_progress"@,
        CampaignRunStatus::Won => "campaign_status_won"@,
        CampaignRunStatus::Lost => "campaign_status_lost"@,
    }
}

pub fn run_status_label<'a>(ui_text: &'a UiText, status: &CampaignRunStatus) -> (r: &'a str)
    ensures
        r@ == text_lookup(ui_text.values@, run_status_key(*status)),
{
    match status {
        CampaignRunStatus::InProgress => ui_text.get("campaign_status_in_progress"),
        CampaignRunStatus::Won => ui_text.get("campaign_status_won"),
        CampaignRunStatus::Lost => ui_text.get("campaign_status_lost"),
    }
}

/// The names of every support pair a main can take, in the order of the pairs.
pub open spec fn pair_name_options(definitions: Seq<CharacterDefinition>, main: int) -> Seq<Seq<String>> {
    support_pair_list(definitions.len(), main).map_values(
        |pair: Seq<usize>| pair.map_values(|index: usize| definitions[index as int].name),
    )
}

/// The lists of names, each as a sequence.
pub open spec fn name_lists(lists: Seq<Vec<String>>) -> Seq<Seq<String>> {
    lists.map_values(|names: Vec<String>| names@)
}

pub fn support_pair_name_options(definitions: &[CharacterDefinition], main_index: usize) -> (r: Vec<Vec<String>>)
    ensures
        name_lists(r@) == pair_name_options(definitions@, main_index as int),
{
    let pairs = support_pairs(definitions.len(), main_index);
    proof {
        lemma_support_pairs_exclude_main(definitions@.len(), main_index as int);
    }
    let mut options: Vec<Vec<String>> = Vec::new();
    let mut k: usize = 0;
    while k < pairs.len()
        invariant
            k <= pairs@.len(),
            pairs@.map_values(|p: Vec<usize>| p@) == support_pair_list(definitions@.len(), main_index as int),
            forall|j: int| 0 <= j < pairs@.len() ==> {
                let p = #[trigger] support_pair_list(definitions@.len(), main_index as int)[j];
                &&& p.len() == 2
                &&& p[0] < p[1] < definitions@.len()
                &&& p[0] != main_index && p[1] != main_index
            },
            name_lists(options@) == pair_name_options(definitions@, main_index as int).take(k as int),
        decreases pairs@.len() - k,
    {
        let pair = &pairs[k];
        proof {
            assert(pair@ == support_pair_list(definitions@.len(), main_index as int)[k as int]);
        }
        let mut names: Vec<String> = Vec::new();
        names.push(definitions[pair[0]].name.clone());
        names.push(definitions[pair[1]].name.clone());
        let ghost before = options@;
        options.push(names);
        proof {
            assert(names@ =~= pair_name_options(definitions@, main_index as int)[k as int]);
            assert(options@ == before.push(names));
            assert(name_lists(options@) =~= name_lists(before).push(names@));
            assert(name_lists(options@) =~= pair_name_options(definitions@, main_index as int).take(k + 1));
        }
        k += 1;
    }
    proof {
        assert(pair_name_options(definitions@, main_index as int).take(k as int) =~= pair_name_options(
            definitions@,
            main_index as int,
        ));
    }
    options
}

/// A control of the battle screen that the player pressed: a card of their hand, or one of
/// the buttons beside the board.
#[derive(Clone, Copy, Debug, PartialEq, Eq, Structural)]
pub enum BattleControl {
    HandCard { hand_index: usize },
    BackToMenu,
    PassReaction,
    RevealMagicalGirlSupport,
    RevealBaddieSupport,
    PassDailyLife,
    PassEncounter,
    DeclareFinalClimax,
}

/// The first player may declare the Final Climax: they hold priority and attack, their
/// magical girl main is Radiant, an encounter is under way and no Final Climax is active.
pub open spec fn may_declare_final_climax(m: MatchView) -> bool {
    &&& m.proactive_priority_player() == Some(PlayerId::PlayerA)
    &&& m.active_player == PlayerId::PlayerA
    &&& m.side(m.active_player, true).main.stage == CharacterStage::Radiant
    &&& (m.phase == MatchPhase::Encounter || m.phase == MatchPhase::FinalClimax)
    &&& !m.final_climax_active
}

/// What pressing a control of the battle screen asks for. Without a match the screen asks to
/// go back to the menu. Otherwise a control asks for its action only when the screen offers
/// it to the first player: a card they may play now, a pass of the reaction window they hold,
/// a support reveal that is allowed (never on the baddie side in a campaign battle), a pass of
/// Daily Life or of the encounter while they hold priority outside a reaction window, or the
/// Final Climax when it may be declared; any other press asks for nothing.
pub open spec fn battle_request_of(state: AppState, control: Option<BattleControl>) -> ScreenAction {
    let a = PlayerId::PlayerA;
    match state.match_state {
        None => ScreenAction::BackToMenu,
        Some(m) => {
            let v = m@;
            match control {
                None => ScreenAction::Idle,
                Some(BattleControl::HandCard { hand_index }) => if v.can_play_hand_card(a, hand_index as int) {
                    ScreenAction::ApplyMatchAction(MatchAction::PlayCardFromHand { player: a, hand_index })
                } else {
                    ScreenAction::Idle
                },
                Some(BattleControl::BackToMenu) => ScreenAction::BackToMenu,
                Some(BattleControl::PassReaction) => if v.reaction_priority_player() == Some(a) {
                    ScreenAction::ApplyMatchAction(MatchAction::PassReaction { player: a })
                } else {
                    ScreenAction::Idle
                },
                Some(BattleControl::RevealMagicalGirlSupport) => if may_reveal_side(v, a, true) {
                    ScreenAction::ApplyMatchAction(
                        MatchAction::RevealFirstHiddenSupport { player: a, is_magical_girl_side: true },
                    )
                } else {
                    ScreenAction::Idle
                },
                Some(BattleControl::RevealBaddieSupport) => if !(state.battle_context is Campaign)
                    && may_reveal_side(v, a, false) {
                    ScreenAction::ApplyMatchAction(
                        MatchAction::RevealFirstHiddenSupport { player: a, is_magical_girl_side: false },
                    )
                } else {
                    ScreenAction::Idle
                },
                Some(BattleControl::PassDailyLife) => if v.phase == MatchPhase::DailyLife
                    && v.proactive_priority_player() == Some(a) && v.reaction_state is None {
                    ScreenAction::ApplyMatchAction(MatchAction::PassDailyLife { player: a })
                } else {
                    ScreenAction::Idle
                },
                Some(BattleControl::PassEncounter) => if (v.phase == MatchPhase::Encounter || v.phase
                    == MatchPhase::FinalClimax) && v.proactive_priority_player() == Some(a)
                    && v.reaction_state is None {
                    ScreenAction::ApplyMatchAction(MatchAction::PassEncounter { player: a })
                } else {
                    ScreenAction::Idle
                },
                Some(BattleControl::DeclareFinalClimax) => if may_declare_final_climax(v) {
                    ScreenAction::ApplyMatchAction(MatchAction::DeclareFinalClimax)
                } else {
                    ScreenAction::Idle
                },
            }
        },
    }
}

/// What pressing a control of the battle screen asks of the game.
pub fn battle_request(state: &AppState, control: Option<BattleControl>) -> (r: ScreenAction)
    ensures
        r == battle_request_of(*state, control),
{
    let player = PlayerId::PlayerA;
    let match_state = match &state.match_state {
        Some(m) => m,
        None => {
            return ScreenAction::BackToMenu;
        },
    };
    match control {
        None => ScreenAction::Idle,
        Some(BattleControl::HandCard { hand_index }) => {
            if match_state.can_play_hand_card(player, hand_index) {
                ScreenAction::ApplyMatchAction(MatchAction::PlayCardFromHand { player, hand_index })
            } else {
                ScreenAction::Idle
            }
        },
        Some(BattleControl::BackToMenu) => ScreenAction::BackToMenu,
        Some(BattleControl::PassReaction) => {
            if match_state.reaction_priority_player() == Some(player) {
                ScreenAction::ApplyMatchAction(MatchAction::PassReaction { player })
            } else {
                ScreenAction::Idle
            }
        },
        Some(BattleControl::RevealMagicalGirlSupport) => {
            if can_reveal_side(match_state, player, true) {
                ScreenAction::ApplyMatchAction(
                    MatchAction::RevealFirstHiddenSupport { player, is_magical_girl_side: true },
                )
            } else {
                ScreenAction::Idle
            }
        },
        Some(BattleControl::RevealBaddieSupport) => {
            let in_campaign = match &state.battle_context {
                BattleContext::Campaign { .. } => true,
                BattleContext::Skirmish => false,
            };
            if !in_campaign && can_reveal_side(match_state, player, false) {
                ScreenAction::ApplyMatchAction(
                    MatchAction::RevealFirstHiddenSupport { player, is_magical_girl_side: false },
                )
            } else {
                ScreenAction::Idle
            }
        },
        Some(BattleControl::PassDailyLife) => {
            if match_state.phase == MatchPhase::DailyLife && match_state.proactive_priority_player() == Some(player)
                && match_state.reaction_state.is_none() {
                ScreenAction::ApplyMatchAction(MatchAction::PassDailyLife { player })
            } else {
                ScreenAction::Idle
            }
        },
        Some(BattleControl::PassEncounter) => {
            if (match_state.phase == MatchPhase::Encounter || match_state.phase == MatchPhase::FinalClimax)
                && match_state.proactive_priority_player() == Some(player) && match_state.reaction_state.is_none() {
                ScreenAction::ApplyMatchAction(MatchAction::PassEncounter { player })
            } else {
                ScreenAction::Idle
            }
        },
        Some(BattleControl::DeclareFinalClimax) => {
            if match_state.proactive_priority_player() == Some(player) && match_state.active_player == player
                && match_state.active_magical_girls().main.stage == CharacterStage::Radiant && (match_state.phase
                == MatchPhase::Encounter || match_state.phase == MatchPhase::FinalClimax)
                && !match_state.final_climax_active {
                ScreenAction::ApplyMatchAction(MatchAction::DeclareFinalClimax)
            } else {
                ScreenAction::Idle
            }
        },
    }
}

} // verus!
