//! How the game moves on when an action is taken in a battle or a battle ends: the profile's
//! match counts, the campaign run's record, the notice shown and the next screen. Each step
//! answers whether the save data changed and should be written.

use vstd::prelude::*;

use crate::data::campaigns::{encounter_position, node_position};
use crate::data::ui_text::text_lookup;
use crate::data::cards::{card_name_found, find_card_name};
use crate::data::{CampaignDefinition, UiText};
use crate::engine::ai::ai_choice;
use crate::engine::{AiController, MatchAction, MatchEngine};
use crate::game::booster::{booster_pool, booster_size, open_booster};
use crate::screens::ScreenAction;
use crate::state::collection::{CollectionCardKind, CollectionSave};
use crate::state::decks::{first_index_of, DecksSave};
use crate::state::BoosterCardGrant;
use crate::text::texts;
use crate::state::campaigns::{run_position, toggled_selection};
use crate::state::setup::{kept_pair_index, next_index, pair_count};
use crate::state::MatchSetup;
use crate::data::cards::same_cards;
use crate::data::GameContent;
use crate::state::opening::{default_deck_a_ids, default_deck_b_ids, opening_match, setup_in_content};
use crate::state::MatchState;
use crate::state::{AppScreen, CampaignRunSave, CampaignRunStatus, CampaignSaveBundle, AppState, BattleContext, MatchPhase, PlayerId, ProfileSave, SaveData};

verus! {

/// The campaign battle that the game's match has finished: its run, its node and whether the
/// first player won it. Nothing while there is no finished match or the battle is a skirmish.
pub open spec fn finished_campaign_battle(s: AppState) -> Option<(Seq<char>, Seq<char>, bool)> {
    match s.match_state {
        Some(m) => if m@.phase == MatchPhase::Finished {
            match s.battle_context {
                BattleContext::Campaign { run_id, node_id } => Some(
                    (run_id@, node_id@, m@.winner == Some(PlayerId::PlayerA)),
                ),
                BattleContext::Skirmish => None,
            }
        } else {
            None
        },
        None => None,
    }
}

/// The first reward card of the node's encounter, when the node, its encounter and a reward
/// all exist.
pub open spec fn node_reward(campaign: CampaignDefinition, node_id: Seq<char>) -> Option<Seq<char>> {
    match node_position(campaign.nodes@, node_id) {
        Some(n) => match encounter_position(campaign.encounters@, campaign.nodes@[n].encounter_id@) {
            Some(e) => if campaign.encounters@[e].reward_story_card_ids@.len() > 0 {
                Some(campaign.encounters@[e].reward_story_card_ids@[0]@)
            } else {
                None
            },
            None => None,
        },
        None => None,
    }
}

/// The notice after a won campaign battle: the campaign is cleared, or the reward card is
/// named, or the victory is announced alone.
pub open spec fn victory_notice(ui: Seq<(String, String)>, outcome: Option<bool>, reward_name: Option<Seq<char>>) -> Seq<char> {
    match outcome {
        Some(true) => text_lookup(ui, "campaign_notice_campaign_cleared"@),
        Some(false) => match reward_name {
            Some(name) => text_lookup(ui, "campaign_notice_victory_reward"@) + " "@ + name,
            None => text_lookup(ui, "campaign_notice_victory"@),
        },
        None => text_lookup(ui, "campaign_notice_victory"@),
    }
}

/// `next` is the game after a won battle at the node is resolved: the victory and its reward
/// recorded in the run, the notice set, the match closed, and the campaign menu shown when the
/// campaign was cleared, the campaign hub otherwise.
pub open spec fn victory_resolved(s: AppState, next: AppState, run_id: Seq<char>, node_id: Seq<char>, now: i64) -> bool {
    let campaign = s.content.campaign;
    let outcome = s.saves.campaigns.victory_outcome(run_id, campaign, node_id);
    let reward = node_reward(campaign, node_id);
    let reward_name = match reward {
        Some(id) => card_name_found(s.content.story_cards@, id),
        None => None,
    };
    &&& s.saves.campaigns.victory_recorded(next.saves.campaigns, run_id, campaign, node_id, reward, now)
    &&& next.campaign_notice matches Some(notice) && notice@ == victory_notice(s.ui_text.values@, outcome, reward_name)
    &&& next == (AppState {
        screen: if outcome == Some(true) {
            AppScreen::CampaignMenu
        } else {
            AppScreen::CampaignHub
        },
        match_state: None,
        battle_context: BattleContext::Skirmish,
        campaign_notice: next.campaign_notice,
        saves: SaveData { campaigns: next.saves.campaigns, ..s.saves },
        ..s
    })
}

/// `next` is the game after a lost battle at the node is resolved: the defeat recorded in the
/// run, the defeat notice set when the battle was known, the match closed and the campaign
/// menu shown.
pub open spec fn defeat_resolved(s: AppState, next: AppState, run_id: Seq<char>, node_id: Seq<char>, now: i64) -> bool {
    let campaign = s.content.campaign;
    &&& s.saves.campaigns.defeat_recorded(next.saves.campaigns, run_id, campaign, node_id, now)
    &&& if s.saves.campaigns.battle_known(run_id, campaign, node_id) {
        next.campaign_notice matches Some(notice) && notice@ == text_lookup(s.ui_text.values@, "campaign_notice_defeat"@)
    } else {
        next.campaign_notice == s.campaign_notice
    }
    &&& next == (AppState {
        screen: AppScreen::CampaignMenu,
        match_state: None,
        battle_context: BattleContext::Skirmish,
        campaign_notice: next.campaign_notice,
        saves: SaveData { campaigns: next.saves.campaigns, ..s.saves },
        ..s
    })
}

/// `next` is the game after a finished campaign battle is resolved, and `save` tells whether
/// the saves changed; any other game is left as it is.
pub open spec fn battle_resolved(s: AppState, next: AppState, now: i64, save: bool) -> bool {
    match finished_campaign_battle(s) {
        None => next == s && !save,
        Some((run_id, node_id, won)) => if won {
            victory_resolved(s, next, run_id, node_id, now) && save
        } else {
            defeat_resolved(s, next, run_id, node_id, now) && save == s.saves.campaigns.battle_known(
                run_id,
                s.content.campaign,
                node_id,
            )
        },
    }
}

/// The profile after a match ends: one more match played, and one more win when the first
/// player won it.
pub open spec fn profile_after_match(p: ProfileSave, won: bool) -> ProfileSave {
    ProfileSave {
        total_matches_played: (p.total_matches_played + 1) as u32,
        total_wins: if won {
            (p.total_wins + 1) as u32
        } else {
            p.total_wins
        },
        ..p
    }
}

/// The action ends the game's match: it was not finished before and is after.
pub open spec fn action_finishes_match(s: AppState, action: MatchAction) -> bool {
    s.match_state matches Some(m) && m@.phase != MatchPhase::Finished && m@.after_action(action).phase
        == MatchPhase::Finished
}

/// `next` is the game right after the player's action is applied to its match, with the
/// profile counting the match when the action ended it.
pub open spec fn match_action_applied(s: AppState, next: AppState, action: MatchAction) -> bool {
    match s.match_state {
        Some(m) => {
            let played = m@.after_action(action);
            &&& next.match_state matches Some(n) && n@ == played
            &&& next == (AppState {
                match_state: next.match_state,
                saves: SaveData {
                    profile: if action_finishes_match(s, action) {
                        profile_after_match(s.saves.profile, played.winner == Some(PlayerId::PlayerA))
                    } else {
                        s.saves.profile
                    },
                    ..s.saves
                },
                ..s
            })
        },
        None => next == s,
    }
}

/// `next` is the game right after the computer's action is applied to its match.
pub open spec fn ai_action_applied(s: AppState, next: AppState, action: MatchAction) -> bool {
    match s.match_state {
        Some(m) => {
            &&& next.match_state matches Some(n) && n@ == m@.after_action(action)
            &&& next == (AppState { match_state: next.match_state, ..s })
        },
        None => false,
    }
}

/// The ids of the grants of one kind, in the order they were granted.
pub open spec fn granted_ids(grants: Seq<BoosterCardGrant>, kind: CollectionCardKind) -> Seq<Seq<char>>
    decreases grants.len(),
{
    if grants.len() == 0 {
        Seq::empty()
    } else {
        granted_ids(grants.drop_last(), kind) + if grants.last().kind == kind {
            seq![grants.last().id@]
        } else {
            Seq::empty()
        }
    }
}

/// `next` is the collection with each grant added once, in order.
pub open spec fn grants_collected(c: CollectionSave, next: CollectionSave, grants: Seq<BoosterCardGrant>) -> bool {
    &&& next.version == c.version
    &&& forall|k: CollectionCardKind| #[trigger] next.owned(k) == c.owned(k) + granted_ids(grants, k)
}

/// `next` is the game after a booster's grants are taken: they are the last opened booster
/// and each one joins the collection; nothing else changes.
pub open spec fn booster_received(s: AppState, next: AppState, booster: Seq<BoosterCardGrant>) -> bool {
    &&& next.last_opened_booster@ == booster
    &&& grants_collected(s.saves.collection, next.saves.collection, booster)
    &&& next == (AppState {
        last_opened_booster: next.last_opened_booster,
        saves: SaveData { collection: next.saves.collection, ..s.saves },
        ..s
    })
}

/// `next` is the deck saves after asking to add `card_id` to the active deck, and `r` tells
/// whether the card was added: exactly when it may join, at the end of the deck.
pub open spec fn card_add_handled(
    decks: DecksSave,
    next: DecksSave,
    card_id: Seq<char>,
    rules: crate::data::DeckRules,
    collection: CollectionSave,
    r: bool,
) -> bool {
    &&& r == decks.may_add(card_id, rules, collection)
    &&& r ==> decks.active_cards_become(next, texts(decks.support_decks@[0].story_cards@).push(card_id))
    &&& !r ==> next == decks
}

/// `next` is the deck saves after asking to take `card_id` out of the active deck, and `r`
/// tells whether a copy was there: the first copy is taken out.
pub open spec fn card_remove_handled(decks: DecksSave, next: DecksSave, card_id: Seq<char>, r: bool) -> bool {
    &&& r == (decks.support_decks@.len() > 0 && first_index_of(texts(decks.support_decks@[0].story_cards@), card_id) is Some)
    &&& r ==> decks.active_cards_become(
        next,
        texts(decks.support_decks@[0].story_cards@).remove(
            first_index_of(texts(decks.support_decks@[0].story_cards@), card_id)->0,
        ),
    )
    &&& !r ==> next == decks
}

/// `next` is the game with only its deck saves changed.
pub open spec fn only_decks_changed(s: AppState, next: AppState) -> bool {
    next == (AppState { saves: SaveData { decks: next.saves.decks, ..s.saves }, ..s })
}

/// `next` is the campaign saves after asking to select `run_id`; `r` tells whether a run
/// carries that id, and only then is it selected.
pub open spec fn run_select_handled(c: CampaignSaveBundle, next: CampaignSaveBundle, run_id: Seq<char>, r: bool) -> bool {
    &&& r == (run_position(c.runs@, run_id) is Some)
    &&& r ==> next.version == c.version && next.runs == c.runs && next.selected_run_id is Some
        && next.selected_run_id->0@ == run_id
    &&& !r ==> next == c
}

/// `next` is the campaign saves after asking to toggle a support of the selected run; `r`
/// tells whether the toggle was allowed, and only then does the selection change.
pub open spec fn support_toggle_handled(
    c: CampaignSaveBundle,
    next: CampaignSaveBundle,
    character_id: Seq<char>,
    now: i64,
    r: bool,
) -> bool {
    &&& r == (c.selected_index() is Some && c.may_toggle(c.selected_index()->0, character_id))
    &&& r ==> {
        let i = c.selected_index()->0;
        let run = next.runs@[i];
        &&& c.run_replaced(next, i, run)
        &&& run == (CampaignRunSave {
            selected_magical_girl_support_ids: run.selected_magical_girl_support_ids,
            updated_at_unix: now,
            ..c.runs@[i]
        })
        &&& texts(run.selected_magical_girl_support_ids@) == toggled_selection(
            texts(c.runs@[i].selected_magical_girl_support_ids@),
            character_id,
        )
    }
    &&& !r ==> next == c
}

/// `next` is the campaign saves after asking to abandon the selected run; `r` tells whether
/// a run was selected, and only then is it lost.
pub open spec fn run_abandon_handled(c: CampaignSaveBundle, next: CampaignSaveBundle, now: i64, r: bool) -> bool {
    &&& r == c.selected_index() is Some
    &&& r ==> c.run_replaced(
        next,
        c.selected_index()->0,
        CampaignRunSave { status: CampaignRunStatus::Lost, updated_at_unix: now, ..c.runs@[c.selected_index()->0] },
    )
    &&& !r ==> next == c
}

/// `next` is the game with only its campaign saves and its notice changed.
pub open spec fn only_campaigns_and_notice_changed(s: AppState, next: AppState) -> bool {
    next == (AppState {
        campaign_notice: next.campaign_notice,
        saves: SaveData { campaigns: next.saves.campaigns, ..s.saves },
        ..s
    })
}

/// The setup change a cycle request may make without running past the largest index.
pub open spec fn setup_cycle_ok(s: MatchSetup, content: GameContent, action: ScreenAction) -> bool {
    match action {
        ScreenAction::SetupCyclePlayerAMgMain => content.magical_girls@.len() == 0 || s.player_a_mg_main_index < usize::MAX,
        ScreenAction::SetupCyclePlayerAMgSupports => pair_count(content.magical_girls@.len(), s.player_a_mg_main_index as int) == 0 || s.player_a_mg_support_pair_index < usize::MAX,
        ScreenAction::SetupCyclePlayerABaddieMain => content.baddies@.len() == 0 || s.player_a_baddie_main_index < usize::MAX,
        ScreenAction::SetupCyclePlayerABaddieSupports => pair_count(content.baddies@.len(), s.player_a_baddie_main_index as int) == 0 || s.player_a_baddie_support_pair_index < usize::MAX,
        ScreenAction::SetupCyclePlayerBMgMain => content.magical_girls@.len() == 0 || s.player_b_mg_main_index < usize::MAX,
        ScreenAction::SetupCyclePlayerBMgSupports => pair_count(content.magical_girls@.len(), s.player_b_mg_main_index as int) == 0 || s.player_b_mg_support_pair_index < usize::MAX,
        ScreenAction::SetupCyclePlayerBBaddieMain => content.baddies@.len() == 0 || s.player_b_baddie_main_index < usize::MAX,
        ScreenAction::SetupCyclePlayerBBaddieSupports => pair_count(content.baddies@.len(), s.player_b_baddie_main_index as int) == 0 || s.player_b_baddie_support_pair_index < usize::MAX,
        _ => true,
    }
}

/// `next` is the setup after a cycle request: a main moves to the next character, keeping its
/// support pair while the new main still has it, or a support pair moves to the next pair of
/// the same main; any other request leaves the setup as it is.
pub open spec fn setup_cycled(s: MatchSetup, next: MatchSetup, content: GameContent, action: ScreenAction) -> bool {
    match action {
        ScreenAction::SetupCyclePlayerAMgMain => {
            &&& next.player_a_mg_main_index as int == next_index(content.magical_girls@.len(), s.player_a_mg_main_index as int)
            &&& next.player_a_mg_support_pair_index as int == kept_pair_index(content.magical_girls@.len(), next.player_a_mg_main_index as int, s.player_a_mg_support_pair_index as int)
            &&& next == (MatchSetup { player_a_mg_main_index: next.player_a_mg_main_index, player_a_mg_support_pair_index: next.player_a_mg_support_pair_index, ..s })
        },
        ScreenAction::SetupCyclePlayerAMgSupports => {
            &&& next.player_a_mg_support_pair_index as int == next_index(pair_count(content.magical_girls@.len(), s.player_a_mg_main_index as int), s.player_a_mg_support_pair_index as int)
            &&& next == (MatchSetup { player_a_mg_support_pair_index: next.player_a_mg_support_pair_index, ..s })
        },
        ScreenAction::SetupCyclePlayerABaddieMain => {
            &&& next.player_a_baddie_main_index as int == next_index(content.baddies@.len(), s.player_a_baddie_main_index as int)
            &&& next.player_a_baddie_support_pair_index as int == kept_pair_index(content.baddies@.len(), next.player_a_baddie_main_index as int, s.player_a_baddie_support_pair_index as int)
            &&& next == (MatchSetup { player_a_baddie_main_index: next.player_a_baddie_main_index, player_a_baddie_support_pair_index: next.player_a_baddie_support_pair_index, ..s })
        },
        ScreenAction::SetupCyclePlayerABaddieSupports => {
            &&& next.player_a_baddie_support_pair_index as int == next_index(pair_count(content.baddies@.len(), s.player_a_baddie_main_index as int), s.player_a_baddie_support_pair_index as int)
            &&& next == (MatchSetup { player_a_baddie_support_pair_index: next.player_a_baddie_support_pair_index, ..s })
        },
        ScreenAction::SetupCyclePlayerBMgMain => {
            &&& next.player_b_mg_main_index as int == next_index(content.magical_girls@.len(), s.player_b_mg_main_index as int)
            &&& next.player_b_mg_support_pair_index as int == kept_pair_index(content.magical_girls@.len(), next.player_b_mg_main_index as int, s.player_b_mg_support_pair_index as int)
            &&& next == (MatchSetup { player_b_mg_main_index: next.player_b_mg_main_index, player_b_mg_support_pair_index: next.player_b_mg_support_pair_index, ..s })
        },
        ScreenAction::SetupCyclePlayerBMgSupports => {
            &&& next.player_b_mg_support_pair_index as int == next_index(pair_count(content.magical_girls@.len(), s.player_b_mg_main_index as int), s.player_b_mg_support_pair_index as int)
            &&& next == (MatchSetup { player_b_mg_support_pair_index: next.player_b_mg_support_pair_index, ..s })
        },
        ScreenAction::SetupCyclePlayerBBaddieMain => {
            &&& next.player_b_baddie_main_index as int == next_index(content.baddies@.len(), s.player_b_baddie_main_index as int)
            &&& next.player_b_baddie_support_pair_index as int == kept_pair_index(content.baddies@.len(), next.player_b_baddie_main_index as int, s.player_b_baddie_support_pair_index as int)
            &&& next == (MatchSetup { player_b_baddie_main_index: next.player_b_baddie_main_index, player_b_baddie_support_pair_index: next.player_b_baddie_support_pair_index, ..s })
        },
        ScreenAction::SetupCyclePlayerBBaddieSupports => {
            &&& next.player_b_baddie_support_pair_index as int == next_index(pair_count(content.baddies@.len(), s.player_b_baddie_main_index as int), s.player_b_baddie_support_pair_index as int)
            &&& next == (MatchSetup { player_b_baddie_support_pair_index: next.player_b_baddie_support_pair_index, ..s })
        },
        _ => next == s,
    }
}

/// Resolving a battle settles it: the game that comes out holds no finished campaign battle,
/// so resolving it again changes nothing and writes nothing.
pub proof fn lemma_resolution_settles(s: AppState, next: AppState, now: i64, save: bool, again: AppState, save_again: bool)
    requires
        battle_resolved(s, next, now, save),
        battle_resolved(next, again, now, save_again),
    ensures
        finished_campaign_battle(next) is None,
        again == next,
        !save_again,
{
}

/// The profile never counts more wins than matches played: applying an action keeps it so.
pub proof fn lemma_wins_never_exceed_matches(s: AppState, next: AppState, action: MatchAction)
    requires
        match_action_applied(s, next, action),
        s.saves.profile.total_wins <= s.saves.profile.total_matches_played,
        s.saves.profile.total_matches_played < u32::MAX,
    ensures
        next.saves.profile.total_wins <= next.saves.profile.total_matches_played,
{
}

fn first_reward(campaign: &CampaignDefinition, node_id: &str) -> (r: Option<String>)
    ensures
        match r {
            Some(id) => node_reward(*campaign, node_id@) == Some(id@),
            None => node_reward(*campaign, node_id@) is None,
        },
{
    match campaign.node(node_id) {
        Some(node) => match campaign.encounter(node.encounter_id.as_str()) {
            Some(encounter) => if encounter.reward_story_card_ids.len() > 0 {
                Some(encounter.reward_story_card_ids[0].clone())
            } else {
                None
            },
            None => None,
        },
        None => None,
    }
}

fn victory_notice_text(ui_text: &UiText, outcome: Option<bool>, reward_name: Option<String>) -> (r: String)
    ensures
        r@ == victory_notice(
            ui_text.values@,
            outcome,
            match reward_name {
                Some(name) => Some(name@),
                None => None,
            },
        ),
{
    match outcome {
        Some(true) => ui_text.get("campaign_notice_campaign_cleared").to_owned(),
        Some(false) => match reward_name {
            Some(name) => {
                let mut out = String::new();
                out.append(ui_text.get("campaign_notice_victory_reward"));
                out.append(" ");
                out.append(name.as_str());
                out
            },
            None => ui_text.get("campaign_notice_victory").to_owned(),
        },
        None => ui_text.get("campaign_notice_victory").to_owned(),
    }
}

impl AppState {
    /// Records a won campaign battle, names the reward in the notice and leaves the battle
    /// screen.
    fn resolve_campaign_victory(&mut self, run_id: &str, node_id: &str, now: i64)
        ensures
            victory_resolved(*old(self), *final(self), run_id@, node_id@, now),
    {
        let reward_card = first_reward(&self.content.campaign, node_id);
        let reward_card_name = match &reward_card {
            Some(card_id) => find_card_name(&self.content.story_cards, card_id.as_str()),
            None => None,
        };
        let reward_id = match &reward_card {
            Some(card_id) => Some(card_id.as_str()),
            None => None,
        };
        let campaign_finished = self.saves.campaigns.record_victory_for_run(
            run_id,
            &self.content.campaign,
            node_id,
            reward_id,
            now,
        );
        let notice = victory_notice_text(&self.ui_text, campaign_finished, reward_card_name);
        self.campaign_notice = Some(notice);
        self.match_state = None;
        self.battle_context = BattleContext::Skirmish;
        self.screen = match campaign_finished {
            Some(true) => AppScreen::CampaignMenu,
            _ => AppScreen::CampaignHub,
        };
    }

    /// Records a lost campaign battle and goes back to the campaign menu; tells whether the
    /// battle was known, and so whether the saves changed.
    fn resolve_campaign_defeat(&mut self, run_id: &str, node_id: &str, now: i64) -> (save: bool)
        ensures
            defeat_resolved(*old(self), *final(self), run_id@, node_id@, now),
            save == old(self).saves.campaigns.battle_known(run_id@, old(self).content.campaign, node_id@),
    {
        let recorded = self.saves.campaigns.record_defeat_for_run(run_id, &self.content.campaign, node_id, now);
        if recorded {
            self.campaign_notice = Some(self.ui_text.get("campaign_notice_defeat").to_owned());
        }
        self.match_state = None;
        self.battle_context = BattleContext::Skirmish;
        self.screen = AppScreen::CampaignMenu;
        recorded
    }

    /// Once the match of a campaign battle is finished, records its outcome in the run; a
    /// skirmish or a match still going on is left alone.
    pub fn resolve_finished_battle(&mut self, now: i64) -> (save: bool)
        ensures
            battle_resolved(*old(self), *final(self), now, save),
    {
        let won = match &self.match_state {
            None => {
                return false;
            },
            Some(m) => {
                if m.phase != MatchPhase::Finished {
                    return false;
                }
                matches!(m.winner, Some(PlayerId::PlayerA))
            },
        };
        let (run_id, node_id) = match &self.battle_context {
            BattleContext::Skirmish => {
                return false;
            },
            BattleContext::Campaign { run_id, node_id } => (run_id.clone(), node_id.clone()),
        };
        if won {
            self.resolve_campaign_victory(run_id.as_str(), node_id.as_str(), now);
            true
        } else {
            self.resolve_campaign_defeat(run_id.as_str(), node_id.as_str(), now)
        }
    }

    /// Applies the player's action to the match, counts the match in the profile when the
    /// action ends it, then resolves a finished campaign battle.
    pub fn handle_match_action(&mut self, action: MatchAction, now: i64) -> (save: bool)
        requires
            old(self).match_state matches Some(m) ==> m@.action_ok(action),
            old(self).saves.profile.total_matches_played < u32::MAX,
            old(self).saves.profile.total_wins < u32::MAX,
        ensures
            exists|applied: AppState, resolved: bool|
                #![trigger match_action_applied(*old(self), applied, action), battle_resolved(applied, *final(self), now, resolved)]
                match_action_applied(*old(self), applied, action) && battle_resolved(applied, *final(self), now, resolved)
                    && save == (action_finishes_match(*old(self), action) || resolved),
    {
        let mut counted = false;
        match &mut self.match_state {
            Some(m) => {
                let was_finished = m.phase == MatchPhase::Finished;
                MatchEngine::apply_action(m, action);
                if !was_finished && m.phase == MatchPhase::Finished {
                    self.saves.profile.total_matches_played += 1;
                    if matches!(m.winner, Some(PlayerId::PlayerA)) {
                        self.saves.profile.total_wins += 1;
                    }
                    counted = true;
                }
            },
            None => {},
        }
        let ghost applied = *self;
        proof {
            assert(match_action_applied(*old(self), applied, action));
        }
        let resolved = self.resolve_finished_battle(now);
        counted || resolved
    }

    /// On the battle screen, lets the computer take the second player's action, then resolves
    /// a finished campaign battle.
    pub fn run_battle_ai_turn(&mut self, now: i64) -> (save: bool)
        requires
            old(self).match_state matches Some(m) ==> forall|choice: Option<MatchAction>|
                #[trigger] ai_choice(m@, PlayerId::PlayerB, choice) && choice is Some ==> m@.action_ok(choice->0),
        ensures
            old(self).screen != AppScreen::Battle || old(self).match_state is None ==> *final(self) == *old(self) && !save,
            old(self).screen == AppScreen::Battle ==> (old(self).match_state matches Some(m) ==> exists|choice: Option<MatchAction>|
                #[trigger] ai_choice(m@, PlayerId::PlayerB, choice) && match choice {
                    None => *final(self) == *old(self) && !save,
                    Some(a) => exists|applied: AppState|
                        #[trigger] ai_action_applied(*old(self), applied, a) && battle_resolved(applied, *final(self), now, save),
                }),
    {
        if self.screen != AppScreen::Battle {
            return false;
        }
        let choice = match &self.match_state {
            Some(m) => AiController::choose_action(m),
            None => {
                return false;
            },
        };
        let ghost start = *self;
        match choice {
            Some(action) => {
                match &mut self.match_state {
                    Some(m) => {
                        MatchEngine::apply_action(m, action);
                    },
                    None => {},
                }
                let ghost applied = *self;
                proof {
                    assert(ai_action_applied(start, applied, action));
                }
                self.resolve_finished_battle(now)
            },
            None => false,
        }
    }

    /// Takes the grants of an opened booster: they become the last opened booster, and each
    /// one is added to the collection once, in order.
    pub fn receive_booster(&mut self, booster: Vec<BoosterCardGrant>)
        ensures
            booster_received(*old(self), *final(self), booster@),
    {
        let mut i: usize = 0;
        while i < booster.len()
            invariant
                i <= booster@.len(),
                grants_collected(old(self).saves.collection, self.saves.collection, booster@.take(i as int)),
                *self == (AppState { saves: SaveData { collection: self.saves.collection, ..old(self).saves }, ..*old(self) }),
            decreases booster@.len() - i,
        {
            let ghost before = self.saves.collection;
            let grant = &booster[i];
            self.saves.collection.add_owned(grant.kind, grant.id.as_str(), 1);
            proof {
                let taken = booster@.take(i + 1);
                assert(taken.drop_last() =~= booster@.take(i as int));
                assert(taken.last() == booster@[i as int]);
                assert forall|k: CollectionCardKind| #[trigger] self.saves.collection.owned(k) == old(self).saves.collection.owned(
                    k,
                ) + granted_ids(taken, k) by {
                    if k == grant.kind {
                        assert(Seq::new(1nat, |j: int| grant.id@) =~= seq![grant.id@]);
                        assert(self.saves.collection.owned(k) =~= old(self).saves.collection.owned(k) + granted_ids(taken, k));
                    } else {
                        assert(self.saves.collection.owned(k) == before.owned(k));
                        assert(granted_ids(taken, k) =~= granted_ids(booster@.take(i as int), k));
                    }
                }
            }
            i += 1;
        }
        proof {
            assert(booster@.take(booster@.len() as int) =~= booster@);
        }
        self.last_opened_booster = booster;
    }

    /// Carries out a deck-builder request on the save data and tells whether the saves
    /// changed. Opening a booster draws ten random grants from the content and collects them;
    /// adding and removing a card change the active deck as `DecksSave` does. The requests that
    /// create, select, rename, duplicate, delete, import, annotate, undo, reset or re-template a
    /// deck, or set a roster slot, change nothing here: this library holds no such deck
    /// operations. Any other request changes nothing.
    pub fn handle_deck_builder_action(&mut self, action: ScreenAction) -> (save: bool)
        requires
            action is DeckBuilderOpenBooster ==> 0 < booster_pool(old(self).content).len() <= i32::MAX,
        ensures
            match action {
                ScreenAction::DeckBuilderOpenBooster => {
                    &&& save
                    &&& final(self).last_opened_booster@.len() == booster_size()
                    &&& forall|i: int| 0 <= i < final(self).last_opened_booster@.len()
                        ==> booster_pool(old(self).content).contains(#[trigger] final(self).last_opened_booster@[i])
                    &&& booster_received(*old(self), *final(self), final(self).last_opened_booster@)
                },
                ScreenAction::DeckBuilderAddCard { card_id } => {
                    &&& card_add_handled(
                        old(self).saves.decks,
                        final(self).saves.decks,
                        card_id@,
                        old(self).content.deck_rules,
                        old(self).saves.collection,
                        save,
                    )
                    &&& only_decks_changed(*old(self), *final(self))
                },
                ScreenAction::DeckBuilderRemoveCard { card_id } => {
                    &&& card_remove_handled(old(self).saves.decks, final(self).saves.decks, card_id@, save)
                    &&& only_decks_changed(*old(self), *final(self))
                },
                _ => *final(self) == *old(self) && !save,
            },
    {
        match action {
            ScreenAction::DeckBuilderOpenBooster => {
                let booster = open_booster(&self.content);
                self.receive_booster(booster);
                true
            },
            ScreenAction::DeckBuilderAddCard { card_id } => {
                self.saves.decks.add_card(card_id.as_str(), &self.content.deck_rules, &self.saves.collection)
            },
            ScreenAction::DeckBuilderRemoveCard { card_id } => self.saves.decks.remove_card(card_id.as_str()),
            _ => false,
        }
    }

    /// Carries out a campaign-menu request and tells whether the saves changed. Selecting a
    /// run clears the notice; toggling a support of the selected run changes its selection;
    /// continuing opens the campaign hub while the selected run is in progress; abandoning
    /// loses the selected run and says so. Starting a new run or an encounter changes nothing
    /// here: the seed deck and the encounter's setup rest on deck and setup operations this
    /// library does not hold. Any other request changes nothing.
    pub fn handle_campaign_action(&mut self, action: ScreenAction, now: i64) -> (save: bool)
        ensures
            match action {
                ScreenAction::CampaignSelectRun { run_id } => {
                    &&& run_select_handled(old(self).saves.campaigns, final(self).saves.campaigns, run_id@, save)
                    &&& only_campaigns_and_notice_changed(*old(self), *final(self))
                    &&& final(self).campaign_notice == if save { None } else { old(self).campaign_notice }
                },
                ScreenAction::CampaignToggleSupportSelection { character_id } => {
                    &&& support_toggle_handled(
                        old(self).saves.campaigns,
                        final(self).saves.campaigns,
                        character_id@,
                        now,
                        save,
                    )
                    &&& only_campaigns_and_notice_changed(*old(self), *final(self))
                    &&& final(self).campaign_notice == old(self).campaign_notice
                },
                ScreenAction::CampaignContinueRun => {
                    let in_progress = match old(self).saves.campaigns.selected_index() {
                        Some(i) => old(self).saves.campaigns.runs@[i].status == CampaignRunStatus::InProgress,
                        None => false,
                    };
                    &&& !save
                    &&& *final(self) == (AppState {
                        screen: if in_progress {
                            AppScreen::CampaignHub
                        } else {
                            old(self).screen
                        },
                        ..*old(self)
                    })
                },
                ScreenAction::CampaignAbandonRun => {
                    &&& run_abandon_handled(old(self).saves.campaigns, final(self).saves.campaigns, now, save)
                    &&& only_campaigns_and_notice_changed(*old(self), *final(self))
                    &&& if save {
                        final(self).campaign_notice matches Some(notice) && notice@ == text_lookup(
                            old(self).ui_text.values@,
                            "campaign_notice_run_abandoned"@,
                        )
                    } else {
                        final(self).campaign_notice == old(self).campaign_notice
                    }
                },
                _ => *final(self) == *old(self) && !save,
            },
    {
        match action {
            ScreenAction::CampaignSelectRun { run_id } => {
                let selected = self.saves.campaigns.select_run(run_id.as_str());
                if selected {
                    self.campaign_notice = None;
                }
                selected
            },
            ScreenAction::CampaignToggleSupportSelection { character_id } => {
                self.saves.campaigns.toggle_selected_magical_girl_support(character_id.as_str(), now)
            },
            ScreenAction::CampaignContinueRun => {
                if self.saves.campaigns.selected_run_is_in_progress() {
                    self.screen = AppScreen::CampaignHub;
                }
                false
            },
            ScreenAction::CampaignAbandonRun => {
                let abandoned = self.saves.campaigns.abandon_selected_run(now);
                if abandoned {
                    self.campaign_notice = Some(self.ui_text.get("campaign_notice_run_abandoned").to_owned());
                }
                abandoned
            },
            _ => false,
        }
    }

    /// Carries out a navigation request and tells whether the saves should be written.
    /// Opening the campaign menu, the setup or the deck builder shows that screen; going back
    /// to the menu (also from the escape menu) closes a campaign battle under way and shows the
    /// menu; the escape menu's save asks for the saves to be written. Whether the escape menu
    /// is shown, the window mode and quitting belong to the application around the library,
    /// and tidying the deck assignments and support decks on opening the setup or the deck
    /// builder rests on deck operations this library does not hold. Any other request changes nothing.
    pub fn handle_navigation_action(&mut self, action: ScreenAction) -> (save: bool)
        ensures
            match action {
                ScreenAction::OpenCampaignMenu => *final(self) == (AppState { screen: AppScreen::CampaignMenu, ..*old(self) })
                    && !save,
                ScreenAction::OpenSetup => *final(self) == (AppState { screen: AppScreen::Setup, ..*old(self) }) && !save,
                ScreenAction::OpenDeckBuilder => *final(self) == (AppState { screen: AppScreen::DeckBuilder, ..*old(self) })
                    && !save,
                ScreenAction::BackToMenu | ScreenAction::EscapeMenuExitToMainMenu => {
                    &&& !save
                    &&& if old(self).screen == AppScreen::Battle && old(self).battle_context is Campaign {
                        *final(self) == (AppState {
                            screen: AppScreen::Menu,
                            match_state: None,
                            battle_context: BattleContext::Skirmish,
                            ..*old(self)
                        })
                    } else {
                        *final(self) == (AppState { screen: AppScreen::Menu, ..*old(self) })
                    }
                },
                ScreenAction::EscapeMenuSave => *final(self) == *old(self) && save,
                _ => *final(self) == *old(self) && !save,
            },
    {
        match action {
            ScreenAction::OpenCampaignMenu => {
                self.screen = AppScreen::CampaignMenu;
                false
            },
            ScreenAction::OpenSetup => {
                self.screen = AppScreen::Setup;
                false
            },
            ScreenAction::OpenDeckBuilder => {
                self.screen = AppScreen::DeckBuilder;
                false
            },
            ScreenAction::BackToMenu | ScreenAction::EscapeMenuExitToMainMenu => {
                let in_campaign = match &self.battle_context {
                    BattleContext::Campaign { .. } => true,
                    BattleContext::Skirmish => false,
                };
                if self.screen == AppScreen::Battle && in_campaign {
                    self.match_state = None;
                    self.battle_context = BattleContext::Skirmish;
                }
                self.screen = AppScreen::Menu;
                false
            },
            ScreenAction::EscapeMenuSave => true,
            _ => false,
        }
    }

    /// Carries out a setup request: the eight cycle buttons move a main or a support pair of
    /// either player on. Choosing a main or a pair directly and assigning decks rest on setup
    /// operations this library does not hold, and change nothing here; nor does any other
    /// request. The setup is not saved, so nothing is to be written.
    pub fn handle_setup_action(&mut self, action: ScreenAction)
        requires
            setup_cycle_ok(old(self).setup, old(self).content, action),
        ensures
            setup_cycled(old(self).setup, final(self).setup, old(self).content, action),
            *final(self) == (AppState { setup: final(self).setup, ..*old(self) }),
    {
        match action {
            ScreenAction::SetupCyclePlayerAMgMain => self.setup.cycle_player_a_mg_main(&self.content),
            ScreenAction::SetupCyclePlayerAMgSupports => self.setup.cycle_player_a_mg_supports(&self.content),
            ScreenAction::SetupCyclePlayerABaddieMain => self.setup.cycle_player_a_baddie_main(&self.content),
            ScreenAction::SetupCyclePlayerABaddieSupports => self.setup.cycle_player_a_baddie_supports(&self.content),
            ScreenAction::SetupCyclePlayerBMgMain => self.setup.cycle_player_b_mg_main(&self.content),
            ScreenAction::SetupCyclePlayerBMgSupports => self.setup.cycle_player_b_mg_supports(&self.content),
            ScreenAction::SetupCyclePlayerBBaddieMain => self.setup.cycle_player_b_baddie_main(&self.content),
            ScreenAction::SetupCyclePlayerBBaddieSupports => self.setup.cycle_player_b_baddie_supports(&self.content),
            _ => {},
        }
    }

    /// Starts the skirmish the setup describes: a new match with the usual decks, the first
    /// player starting, shown on the battle screen. Decks assigned to the players in the setup
    /// rest on setup fields this library does not hold, so the usual decks are always used.
    pub fn start_configured_battle(&mut self)
        requires
            setup_in_content(old(self).content, old(self).setup),
        ensures
            final(self).match_state matches Some(m) && same_cards(m@.story_cards, old(self).content.story_cards@)
                && exists|deck_a: Seq<String>, deck_b: Seq<String>|
                texts(deck_a) == default_deck_a_ids() && texts(deck_b) == default_deck_b_ids() && m@
                    == #[trigger] opening_match(
                    old(self).content,
                    old(self).setup,
                    deck_a,
                    deck_b,
                    PlayerId::PlayerA,
                    m@.story_cards,
                ).round_start_drawn(),
            *final(self) == (AppState {
                match_state: final(self).match_state,
                battle_context: BattleContext::Skirmish,
                screen: AppScreen::Battle,
                ..*old(self)
            }),
    {
        let started = MatchState::from_setup(&self.content, &self.setup);
        self.match_state = Some(started);
        self.battle_context = BattleContext::Skirmish;
        self.screen = AppScreen::Battle;
    }
}

} // verus!
