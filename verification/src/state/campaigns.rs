//! Persistent campaign run data.
//!
//! The functions that stamp a run with the time of a change take that time, in seconds since
//! the Unix epoch, as their last argument.

use vstd::prelude::*;

use super::decks::{first_index_of, lemma_first_index_of, position_of, DeckPreset};
use crate::data::campaigns::{encounter_position, lemma_encounter_position, lemma_node_position, node_position};
use crate::data::{CampaignDefinition, CampaignEncounterDefinition, CampaignNodeDefinition};
use crate::text::{blank, natural_text, is_blank, push_natural, texts};

verus! {

/// Where a campaign run stands.
#[derive(Clone, Copy, Debug, PartialEq, Eq, Structural)]
pub enum CampaignRunStatus {
    InProgress,
    Won,
    Lost,
}

/// One fought battle of a run.
#[derive(Clone, Debug)]
pub struct CampaignBattleRecord {
    pub node_id: String,
    pub encounter_id: String,
    pub won: bool,
}

/// One saved run through a campaign.
#[derive(Clone, Debug)]
pub struct CampaignRunSave {
    pub id: String,
    pub name: String,
    pub campaign_id: String,
    pub status: CampaignRunStatus,
    pub current_node_id: String,
    pub completed_node_ids: Vec<String>,
    pub player_deck: DeckPreset,
    pub selected_magical_girl_support_ids: Vec<String>,
    pub battle_history: Vec<CampaignBattleRecord>,
    pub created_at_unix: i64,
    pub updated_at_unix: i64,
}

/// All saved runs and the one the player has selected.
#[derive(Clone, Debug)]
pub struct CampaignSaveBundle {
    pub version: u32,
    pub runs: Vec<CampaignRunSave>,
    pub selected_run_id: Option<String>,
}

impl Default for CampaignSaveBundle {
    fn default() -> (r: Self)
        ensures
            r.version == 2,
            r.runs@.len() == 0,
            r.selected_run_id is None,
    {
        CampaignSaveBundle { version: 2, runs: Vec::new(), selected_run_id: None }
    }
}

/// The index of the first run with the given id.
pub open spec fn run_position(runs: Seq<CampaignRunSave>, id: Seq<char>) -> Option<int>
    decreases runs.len(),
{
    if runs.len() == 0 {
        None
    } else if runs[0].id@ == id {
        Some(0)
    } else {
        match run_position(runs.drop_first(), id) {
            Some(i) => Some(i + 1),
            None => None,
        }
    }
}

pub proof fn lemma_run_position(runs: Seq<CampaignRunSave>, id: Seq<char>)
    ensures
        match run_position(runs, id) {
            Some(i) => 0 <= i < runs.len() && runs[i].id@ == id && forall|j: int| 0 <= j < i ==> runs[j].id@ != id,
            None => forall|j: int| 0 <= j < runs.len() ==> runs[j].id@ != id,
        },
    decreases runs.len(),
{
    if runs.len() > 0 {
        lemma_run_position(runs.drop_first(), id);
        assert forall|j: int| 1 <= j < runs.len() implies runs[j] == runs.drop_first()[j - 1] by {}
    }
}

/// The index of the last run still in progress.
pub open spec fn last_in_progress(runs: Seq<CampaignRunSave>) -> Option<int>
    decreases runs.len(),
{
    if runs.len() == 0 {
        None
    } else if runs.last().status == CampaignRunStatus::InProgress {
        Some(runs.len() - 1)
    } else {
        last_in_progress(runs.drop_last())
    }
}

pub proof fn lemma_last_in_progress(runs: Seq<CampaignRunSave>)
    ensures
        match last_in_progress(runs) {
            Some(i) => 0 <= i < runs.len() && runs[i].status == CampaignRunStatus::InProgress
                && forall|j: int| i < j < runs.len() ==> runs[j].status != CampaignRunStatus::InProgress,
            None => forall|j: int| 0 <= j < runs.len() ==> runs[j].status != CampaignRunStatus::InProgress,
        },
    decreases runs.len(),
{
    if runs.len() > 0 {
        lemma_last_in_progress(runs.drop_last());
        assert forall|j: int| 0 <= j < runs.len() - 1 implies runs[j] == runs.drop_last()[j] by {}
    }
}

/// The support selection after toggling `id`: an entry that is there leaves (its first copy),
/// a new one joins at the end.
pub open spec fn toggled_selection(selection: Seq<Seq<char>>, id: Seq<char>) -> Seq<Seq<char>> {
    match first_index_of(selection, id) {
        Some(k) => selection.remove(k),
        None => selection.push(id),
    }
}

/// The recent-card list after one more card: the oldest entry leaves once there are more
/// than five.
pub open spec fn recent_after(recent: Seq<Seq<char>>, card_id: Seq<char>) -> Seq<Seq<char>> {
    let grown = recent.push(card_id);
    if grown.len() > 5 { grown.drop_first() } else { grown }
}

/// The run after a won battle at `node`: the node is completed, the reward joins the deck and
/// the recent cards, the battle is recorded, and the run moves to the node's first successor
/// or, at the last node, is won.
pub open spec fn run_after_victory(
    run: CampaignRunSave,
    node: CampaignNodeDefinition,
    encounter: CampaignEncounterDefinition,
    reward_card_id: Option<Seq<char>>,
    now: i64,
    next: CampaignRunSave,
) -> bool {
    &&& next == (CampaignRunSave {
        completed_node_ids: next.completed_node_ids,
        player_deck: next.player_deck,
        battle_history: next.battle_history,
        current_node_id: next.current_node_id,
        status: next.status,
        updated_at_unix: now,
        ..run
    })
    &&& texts(next.completed_node_ids@) == texts(run.completed_node_ids@).push(node.id@)
    &&& next.player_deck == (DeckPreset {
        story_cards: next.player_deck.story_cards,
        recent_story_cards: next.player_deck.recent_story_cards,
        ..run.player_deck
    })
    &&& match reward_card_id {
        Some(card) => {
            &&& texts(next.player_deck.story_cards@) == texts(run.player_deck.story_cards@).push(card)
            &&& texts(next.player_deck.recent_story_cards@) == recent_after(texts(run.player_deck.recent_story_cards@), card)
        },
        None => {
            &&& next.player_deck.story_cards == run.player_deck.story_cards
            &&& next.player_deck.recent_story_cards == run.player_deck.recent_story_cards
        },
    }
    &&& next.battle_history@ == run.battle_history@.push(
        CampaignBattleRecord { node_id: node.id, encounter_id: encounter.id, won: true },
    )
    &&& if node.next_node_ids@.len() > 0 {
        next.current_node_id == node.next_node_ids@[0] && next.status == run.status
    } else {
        next.current_node_id == run.current_node_id && next.status == CampaignRunStatus::Won
    }
}

impl CampaignSaveBundle {
    /// The id of the selected run: the one chosen, else the last run in progress, else the
    /// last run.
    pub open spec fn selected_id(self) -> Option<Seq<char>> {
        match self.selected_run_id {
            Some(id) => Some(id@),
            None => match last_in_progress(self.runs@) {
                Some(i) => Some(self.runs@[i].id@),
                None => if self.runs@.len() > 0 {
                    Some(self.runs@.last().id@)
                } else {
                    None
                },
            },
        }
    }

    /// The index of the selected run: the first run with the selected id.
    pub open spec fn selected_index(self) -> Option<int> {
        match self.selected_id() {
            Some(id) => run_position(self.runs@, id),
            None => None,
        }
    }

    /// `next` is `self` with run `i` replaced by `run`.
    pub open spec fn run_replaced(self, next: CampaignSaveBundle, i: int, run: CampaignRunSave) -> bool {
        &&& 0 <= i < self.runs@.len()
        &&& next.version == self.version
        &&& next.selected_run_id == self.selected_run_id
        &&& next.runs@ == self.runs@.update(i, run)
    }

    /// The identifier given to the next created run.
    pub open spec fn next_run_id(self) -> Seq<char> {
        "campaign_run_"@ + natural_text((self.runs@.len() + 1) as nat)
    }

    /// Whether toggling `id` is allowed for run `i`: the main cannot be a support, the
    /// character must be on the deck's roster, and a third support cannot join.
    pub open spec fn may_toggle(self, i: int, id: Seq<char>) -> bool {
        let run = self.runs@[i];
        let roster = texts(run.player_deck.magical_girl_roster@);
        let selection = texts(run.selected_magical_girl_support_ids@);
        &&& !(roster.len() > 0 && roster[0] == id)
        &&& first_index_of(roster, id) is Some
        &&& (first_index_of(selection, id) is Some || selection.len() < 2)
    }

    /// Starts a new run of the campaign at its first node with a copy of the deck, selects it
    /// and returns its id; nothing happens for a campaign without nodes.
    pub fn create_run(
        &mut self,
        campaign: &CampaignDefinition,
        source_deck: &DeckPreset,
        default_name: &str,
        now: i64,
    ) -> (r: Option<String>)
        requires
            old(self).runs@.len() < u64::MAX,
        ensures
            r is None <==> campaign.nodes@.len() == 0,
            r is None ==> *final(self) == *old(self),
            r is Some ==> {
                let run = final(self).runs@.last();
                &&& r->0@ == old(self).next_run_id()
                &&& final(self).version == old(self).version
                &&& final(self).runs@.len() == old(self).runs@.len() + 1
                &&& final(self).runs@.drop_last() == old(self).runs@
                &&& final(self).selected_run_id == Some(r->0)
                &&& run.id == r->0
                &&& run.name@ == if is_blank(source_deck.name@) {
                    default_name@
                } else {
                    source_deck.name@ + " Run"@
                }
                &&& run.campaign_id == campaign.id
                &&& run.status == CampaignRunStatus::InProgress
                &&& run.current_node_id == campaign.nodes@[0].id
                &&& run.completed_node_ids@.len() == 0
                &&& run.player_deck.same_deck(*source_deck)
                &&& run.selected_magical_girl_support_ids@.len() == 0
                &&& run.battle_history@.len() == 0
                &&& run.created_at_unix == now
                &&& run.updated_at_unix == now
            },
    {
        let first_node = match campaign.first_node() {
            Some(node) => node,
            None => return None,
        };
        let mut run_id = "campaign_run_".to_owned();
        let count: u64 = self.runs.len() as u64;
        push_natural(&mut run_id, count + 1);
        let run_name = if blank(source_deck.name.as_str()) {
            default_name.to_owned()
        } else {
            let mut name = source_deck.name.clone();
            name.append(" Run");
            name
        };
        let ghost before = self.runs@;
        self.runs.push(CampaignRunSave {
            id: run_id.clone(),
            name: run_name,
            campaign_id: campaign.id.clone(),
            status: CampaignRunStatus::InProgress,
            current_node_id: first_node.id.clone(),
            completed_node_ids: Vec::new(),
            player_deck: source_deck.duplicate(),
            selected_magical_girl_support_ids: Vec::new(),
            battle_history: Vec::new(),
            created_at_unix: now,
            updated_at_unix: now,
        });
        self.selected_run_id = Some(run_id.clone());
        proof {
            assert(self.runs@.drop_last() =~= before);
        }
        Some(run_id)
    }

    /// The index of the selected run, if any.
    fn selected_run_index(&self) -> (r: Option<usize>)
        ensures
            match r {
                Some(i) => self.selected_index() == Some(i as int) && i < self.runs@.len(),
                None => self.selected_index() is None,
            },
    {
        proof {
            lemma_last_in_progress(self.runs@);
        }
        let selected: &str = match &self.selected_run_id {
            Some(id) => id.as_str(),
            None => {
                let mut found: Option<usize> = None;
                let mut i: usize = self.runs.len();
                while i > 0
                    invariant_except_break
                        found is None,
                    invariant
                        i <= self.runs@.len(),
                        forall|j: int| i <= j < self.runs@.len() ==> self.runs@[j].status != CampaignRunStatus::InProgress,
                        match last_in_progress(self.runs@) {
                            Some(k) => 0 <= k < self.runs@.len() && self.runs@[k].status == CampaignRunStatus::InProgress
                                && forall|j: int| k < j < self.runs@.len() ==> self.runs@[j].status != CampaignRunStatus::InProgress,
                            None => forall|j: int| 0 <= j < self.runs@.len() ==> self.runs@[j].status != CampaignRunStatus::InProgress,
                        },
                    ensures
                        match found {
                            Some(k) => last_in_progress(self.runs@) == Some(k as int),
                            None => last_in_progress(self.runs@) is None,
                        },
                    decreases i,
                {
                    if self.runs[i - 1].status == CampaignRunStatus::InProgress {
                        found = Some(i - 1);
                        break;
                    }
                    i -= 1;
                }
                match found {
                    Some(k) => self.runs[k].id.as_str(),
                    None => {
                        if self.runs.len() == 0 {
                            return None;
                        }
                        self.runs[self.runs.len() - 1].id.as_str()
                    },
                }
            },
        };
        proof {
            lemma_run_position(self.runs@, selected@);
        }
        self.find_run(selected)
    }

    /// The index of the first run with the given id.
    fn find_run(&self, run_id: &str) -> (r: Option<usize>)
        ensures
            match r {
                Some(i) => run_position(self.runs@, run_id@) == Some(i as int) && i < self.runs@.len(),
                None => run_position(self.runs@, run_id@) is None,
            },
    {
        proof {
            lemma_run_position(self.runs@, run_id@);
        }
        let mut i: usize = 0;
        while i < self.runs.len()
            invariant
                i <= self.runs@.len(),
                forall|j: int| 0 <= j < i ==> self.runs@[j].id@ != run_id@,
                match run_position(self.runs@, run_id@) {
                    Some(k) => 0 <= k < self.runs@.len() && self.runs@[k].id@ == run_id@
                        && forall|j: int| 0 <= j < k ==> self.runs@[j].id@ != run_id@,
                    None => forall|j: int| 0 <= j < self.runs@.len() ==> self.runs@[j].id@ != run_id@,
                },
            decreases self.runs@.len() - i,
        {
            if crate::text::same_text(self.runs[i].id.as_str(), run_id) {
                return Some(i);
            }
            i += 1;
        }
        None
    }

    /// The selected run, if any.
    pub fn selected_run(&self) -> (r: Option<&CampaignRunSave>)
        ensures
            match self.selected_index() {
                Some(i) => r == Some(&self.runs@[i]),
                None => r is None,
            },
    {
        match self.selected_run_index() {
            Some(i) => Some(&self.runs[i]),
            None => None,
        }
    }

    /// The selected run, to change it in place.
    pub fn selected_run_mut(&mut self) -> (r: Option<&mut CampaignRunSave>)
        ensures
            match old(self).selected_index() {
                Some(i) => r is Some && *r->0 == old(self).runs@[i] && old(self).run_replaced(*final(self), i, *final(r->0)),
                None => r is None && *final(self) == *old(self),
            },
    {
        match self.selected_run_index() {
            Some(i) => Some(&mut self.runs[i]),
            None => None,
        }
    }

    /// Selects the run with the given id; tells whether there is one.
    pub fn select_run(&mut self, run_id: &str) -> (r: bool)
        ensures
            r == (run_position(old(self).runs@, run_id@) is Some),
            r ==> final(self).version == old(self).version && final(self).runs == old(self).runs
                && final(self).selected_run_id is Some && final(self).selected_run_id->0@ == run_id@,
            !r ==> *final(self) == *old(self),
    {
        match self.find_run(run_id) {
            Some(_) => {
                self.selected_run_id = Some(run_id.to_owned());
                true
            },
            None => false,
        }
    }

    /// Whether the selected run is still in progress.
    pub fn selected_run_is_in_progress(&self) -> (r: bool)
        ensures
            r == match self.selected_index() {
                Some(i) => self.runs@[i].status == CampaignRunStatus::InProgress,
                None => false,
            },
    {
        match self.selected_run() {
            Some(run) => run.status == CampaignRunStatus::InProgress,
            None => false,
        }
    }

    /// Whether the selected run has two supports chosen.
    pub fn selected_run_has_valid_support_pair(&self) -> (r: bool)
        ensures
            r == match self.selected_index() {
                Some(i) => self.runs@[i].selected_magical_girl_support_ids@.len() == 2,
                None => false,
            },
    {
        match self.selected_run() {
            Some(run) => run.selected_magical_girl_support_ids.len() == 2,
            None => false,
        }
    }

    /// Sets the selected run's two supports; refuses a list that is not a pair.
    pub fn update_selected_magical_girl_supports(&mut self, support_ids: &[String], now: i64) -> (r: bool)
        ensures
            r == (old(self).selected_index() is Some && support_ids@.len() == 2),
            r ==> {
                let i = old(self).selected_index()->0;
                let next = final(self).runs@[i];
                &&& old(self).run_replaced(*final(self), i, next)
                &&& next == (CampaignRunSave {
                    selected_magical_girl_support_ids: next.selected_magical_girl_support_ids,
                    updated_at_unix: now,
                    ..old(self).runs@[i]
                })
                &&& next.selected_magical_girl_support_ids@ == support_ids@
            },
            !r ==> *final(self) == *old(self),
    {
        let index = match self.selected_run_index() {
            Some(i) => i,
            None => return false,
        };
        if support_ids.len() != 2 {
            return false;
        }
        let mut ids: Vec<String> = Vec::new();
        ids.push(support_ids[0].clone());
        ids.push(support_ids[1].clone());
        proof {
            assert(ids@ =~= support_ids@);
        }
        let run = &mut self.runs[index];
        run.selected_magical_girl_support_ids = ids;
        run.updated_at_unix = now;
        true
    }

    /// Adds a roster character to the selected run's supports or takes it out again; the
    /// main, characters off the roster and a third support are refused.
    pub fn toggle_selected_magical_girl_support(&mut self, character_id: &str, now: i64) -> (r: bool)
        ensures
            r == (old(self).selected_index() is Some && old(self).may_toggle(old(self).selected_index()->0, character_id@)),
            r ==> {
                let i = old(self).selected_index()->0;
                let next = final(self).runs@[i];
                &&& old(self).run_replaced(*final(self), i, next)
                &&& next == (CampaignRunSave {
                    selected_magical_girl_support_ids: next.selected_magical_girl_support_ids,
                    updated_at_unix: now,
                    ..old(self).runs@[i]
                })
                &&& texts(next.selected_magical_girl_support_ids@) == toggled_selection(
                    texts(old(self).runs@[i].selected_magical_girl_support_ids@),
                    character_id@,
                )
            },
            !r ==> *final(self) == *old(self),
    {
        let index = match self.selected_run_index() {
            Some(i) => i,
            None => return false,
        };
        let roster = &self.runs[index].player_deck.magical_girl_roster;
        proof {
            lemma_first_index_of(texts(roster@), character_id@);
        }
        if roster.len() > 0 && crate::text::same_text(roster[0].as_str(), character_id) {
            return false;
        }
        if position_of(roster, character_id).is_none() {
            return false;
        }
        let selected = position_of(&self.runs[index].selected_magical_girl_support_ids, character_id);
        proof {
            lemma_first_index_of(texts(self.runs@[index as int].selected_magical_girl_support_ids@), character_id@);
        }
        let count = self.runs[index].selected_magical_girl_support_ids.len();
        if selected.is_none() && count >= 2 {
            return false;
        }
        let run = &mut self.runs[index];
        let ghost ids = run.selected_magical_girl_support_ids@;
        match selected {
            Some(k) => {
                run.selected_magical_girl_support_ids.remove(k);
                proof {
                    assert(texts(run.selected_magical_girl_support_ids@) =~= texts(ids).remove(k as int));
                }
            },
            None => {
                run.selected_magical_girl_support_ids.push(character_id.to_owned());
                proof {
                    assert(texts(run.selected_magical_girl_support_ids@) =~= texts(ids).push(character_id@));
                }
            },
        }
        run.updated_at_unix = now;
        true
    }

    /// The first run with the given id.
    pub fn run_by_id(&self, run_id: &str) -> (r: Option<&CampaignRunSave>)
        ensures
            match run_position(self.runs@, run_id@) {
                Some(i) => r == Some(&self.runs@[i]),
                None => r is None,
            },
    {
        match self.find_run(run_id) {
            Some(i) => Some(&self.runs[i]),
            None => None,
        }
    }

    /// Gives up the selected run: it is lost.
    pub fn abandon_selected_run(&mut self, now: i64) -> (r: bool)
        ensures
            r == old(self).selected_index() is Some,
            r ==> {
                let i = old(self).selected_index()->0;
                old(self).run_replaced(
                    *final(self),
                    i,
                    CampaignRunSave { status: CampaignRunStatus::Lost, updated_at_unix: now, ..old(self).runs@[i] },
                )
            },
            !r ==> *final(self) == *old(self),
    {
        match self.selected_run_index() {
            Some(i) => {
                let run = &mut self.runs[i];
                run.status = CampaignRunStatus::Lost;
                run.updated_at_unix = now;
                true
            },
            None => false,
        }
    }

    /// The run, the node and the node's encounter of a battle are all known.
    pub open spec fn battle_known(self, run_id: Seq<char>, campaign: CampaignDefinition, node_id: Seq<char>) -> bool {
        &&& run_position(self.runs@, run_id) is Some
        &&& node_position(campaign.nodes@, node_id) is Some
        &&& encounter_position(
            campaign.encounters@,
            campaign.nodes@[node_position(campaign.nodes@, node_id)->0].encounter_id@,
        ) is Some
    }

    /// What recording a won battle answers: nothing when the battle is not known, else
    /// whether its node is the last of the campaign.
    pub open spec fn victory_outcome(self, run_id: Seq<char>, campaign: CampaignDefinition, node_id: Seq<char>) -> Option<bool> {
        if self.battle_known(run_id, campaign, node_id) {
            Some(campaign.nodes@[node_position(campaign.nodes@, node_id)->0].next_node_ids@.len() == 0)
        } else {
            None
        }
    }

    /// `next` is these saves after a won battle is recorded: unchanged when the battle is not
    /// known, else with the run advanced past the node.
    pub open spec fn victory_recorded(
        self,
        next: CampaignSaveBundle,
        run_id: Seq<char>,
        campaign: CampaignDefinition,
        node_id: Seq<char>,
        reward: Option<Seq<char>>,
        now: i64,
    ) -> bool {
        if self.battle_known(run_id, campaign, node_id) {
            let i = run_position(self.runs@, run_id)->0;
            let node = campaign.nodes@[node_position(campaign.nodes@, node_id)->0];
            let encounter = campaign.encounters@[encounter_position(campaign.encounters@, node.encounter_id@)->0];
            &&& self.run_replaced(next, i, next.runs@[i])
            &&& run_after_victory(self.runs@[i], node, encounter, reward, now, next.runs@[i])
        } else {
            next == self
        }
    }

    /// `next` is these saves after a lost battle is recorded: unchanged when the battle is not
    /// known, else with the run lost and the defeat added to its history.
    pub open spec fn defeat_recorded(
        self,
        next: CampaignSaveBundle,
        run_id: Seq<char>,
        campaign: CampaignDefinition,
        node_id: Seq<char>,
        now: i64,
    ) -> bool {
        if self.battle_known(run_id, campaign, node_id) {
            let i = run_position(self.runs@, run_id)->0;
            let node = campaign.nodes@[node_position(campaign.nodes@, node_id)->0];
            let encounter = campaign.encounters@[encounter_position(campaign.encounters@, node.encounter_id@)->0];
            let run = next.runs@[i];
            &&& self.run_replaced(next, i, run)
            &&& run == (CampaignRunSave {
                battle_history: run.battle_history,
                status: CampaignRunStatus::Lost,
                updated_at_unix: now,
                ..self.runs@[i]
            })
            &&& run.battle_history@ == self.runs@[i].battle_history@.push(
                CampaignBattleRecord { node_id: node.id, encounter_id: encounter.id, won: false },
            )
        } else {
            next == self
        }
    }

    /// Records a won battle at `node_id` for the run: returns whether this completed the
    /// campaign, or nothing when the run, the node or its encounter is unknown.
    pub fn record_victory_for_run(
        &mut self,
        run_id: &str,
        campaign: &CampaignDefinition,
        node_id: &str,
        reward_card_id: Option<&str>,
        now: i64,
    ) -> (r: Option<bool>)
        ensures
            r is Some <==> {
                &&& run_position(old(self).runs@, run_id@) is Some
                &&& node_position(campaign.nodes@, node_id@) is Some
                &&& encounter_position(
                    campaign.encounters@,
                    campaign.nodes@[node_position(campaign.nodes@, node_id@)->0].encounter_id@,
                ) is Some
            },
            r is None ==> *final(self) == *old(self),
            r is Some ==> {
                let i = run_position(old(self).runs@, run_id@)->0;
                let node = campaign.nodes@[node_position(campaign.nodes@, node_id@)->0];
                let encounter = campaign.encounters@[encounter_position(campaign.encounters@, node.encounter_id@)->0];
                let reward = match reward_card_id {
                    Some(card) => Some(card@),
                    None => None,
                };
                &&& old(self).run_replaced(*final(self), i, final(self).runs@[i])
                &&& run_after_victory(old(self).runs@[i], node, encounter, reward, now, final(self).runs@[i])
                &&& r->0 == (node.next_node_ids@.len() == 0)
            },
            r == old(self).victory_outcome(run_id@, *campaign, node_id@),
            old(self).victory_recorded(
                *final(self),
                run_id@,
                *campaign,
                node_id@,
                match reward_card_id {
                    Some(card) => Some(card@),
                    None => None,
                },
                now,
            ),
    {
        let index = match self.find_run(run_id) {
            Some(i) => i,
            None => return None,
        };
        let node = match campaign.node(node_id) {
            Some(node) => node,
            None => return None,
        };
        let encounter = match campaign.encounter(node.encounter_id.as_str()) {
            Some(encounter) => encounter,
            None => return None,
        };
        proof {
            lemma_node_position(campaign.nodes@, node_id@);
            lemma_encounter_position(campaign.encounters@, node.encounter_id@);
        }
        let run = &mut self.runs[index];
        let ghost before = *run;
        run.completed_node_ids.push(node.id.clone());
        proof {
            assert(texts(run.completed_node_ids@) =~= texts(before.completed_node_ids@).push(node.id@));
        }
        match reward_card_id {
            Some(card_id) => {
                run.player_deck.story_cards.push(card_id.to_owned());
                run.player_deck.recent_story_cards.push(card_id.to_owned());
                proof {
                    assert(texts(run.player_deck.story_cards@) =~= texts(before.player_deck.story_cards@).push(card_id@));
                    assert(texts(run.player_deck.recent_story_cards@) =~= texts(before.player_deck.recent_story_cards@).push(card_id@));
                }
                if run.player_deck.recent_story_cards.len() > 5 {
                    let ghost grown = run.player_deck.recent_story_cards@;
                    run.player_deck.recent_story_cards.remove(0);
                    proof {
                        assert(texts(run.player_deck.recent_story_cards@) =~= texts(grown).drop_first());
                    }
                }
            },
            None => {},
        }
        run.battle_history.push(
            CampaignBattleRecord { node_id: node.id.clone(), encounter_id: encounter.id.clone(), won: true },
        );
        run.updated_at_unix = now;
        if node.next_node_ids.len() > 0 {
            run.current_node_id = node.next_node_ids[0].clone();
            return Some(false);
        }
        run.status = CampaignRunStatus::Won;
        Some(true)
    }

    /// Records a lost battle at `node_id` for the run, which loses the run; tells whether the
    /// run, the node and its encounter were all known.
    pub fn record_defeat_for_run(&mut self, run_id: &str, campaign: &CampaignDefinition, node_id: &str, now: i64) -> (r: bool)
        ensures
            r == {
                &&& run_position(old(self).runs@, run_id@) is Some
                &&& node_position(campaign.nodes@, node_id@) is Some
                &&& encounter_position(
                    campaign.encounters@,
                    campaign.nodes@[node_position(campaign.nodes@, node_id@)->0].encounter_id@,
                ) is Some
            },
            !r ==> *final(self) == *old(self),
            r ==> {
                let i = run_position(old(self).runs@, run_id@)->0;
                let node = campaign.nodes@[node_position(campaign.nodes@, node_id@)->0];
                let encounter = campaign.encounters@[encounter_position(campaign.encounters@, node.encounter_id@)->0];
                let next = final(self).runs@[i];
                &&& old(self).run_replaced(*final(self), i, next)
                &&& next == (CampaignRunSave {
                    battle_history: next.battle_history,
                    status: CampaignRunStatus::Lost,
                    updated_at_unix: now,
                    ..old(self).runs@[i]
                })
                &&& next.battle_history@ == old(self).runs@[i].battle_history@.push(
                    CampaignBattleRecord { node_id: node.id, encounter_id: encounter.id, won: false },
                )
            },
            r == old(self).battle_known(run_id@, *campaign, node_id@),
            old(self).defeat_recorded(*final(self), run_id@, *campaign, node_id@, now),
    {
        let index = match self.find_run(run_id) {
            Some(i) => i,
            None => return false,
        };
        let node = match campaign.node(node_id) {
            Some(node) => node,
            None => return false,
        };
        let encounter = match campaign.encounter(node.encounter_id.as_str()) {
            Some(encounter) => encounter,
            None => return false,
        };
        proof {
            lemma_node_position(campaign.nodes@, node_id@);
            lemma_encounter_position(campaign.encounters@, node.encounter_id@);
        }
        let run = &mut self.runs[index];
        run.battle_history.push(
            CampaignBattleRecord { node_id: node.id.clone(), encounter_id: encounter.id.clone(), won: false },
        );
        run.status = CampaignRunStatus::Lost;
        run.updated_at_unix = now;
        true
    }
}


/// Toggling a support that is not selected and then toggling it again leaves the selection as
/// it was.
pub proof fn lemma_toggle_twice_restores(selection: Seq<Seq<char>>, id: Seq<char>)
    requires
        first_index_of(selection, id) is None,
    ensures
        toggled_selection(toggled_selection(selection, id), id) == selection,
{
    lemma_first_index_of(selection, id);
    let grown = selection.push(id);
    lemma_first_index_of(grown, id);
    assert(grown[selection.len() as int] == id);
    assert(first_index_of(grown, id) == Some(selection.len() as int));
    assert(grown.remove(selection.len() as int) =~= selection);
}

/// Looking a run up in a list with one more run at the end.
proof fn lemma_run_position_push(runs: Seq<CampaignRunSave>, run: CampaignRunSave, id: Seq<char>)
    ensures
        run_position(runs.push(run), id) == match run_position(runs, id) {
            Some(i) => Some(i),
            None => if run.id@ == id { Some(runs.len() as int) } else { None },
        },
    decreases runs.len(),
{
    if runs.len() == 0 {
        assert(runs.push(run).drop_first() =~= Seq::<CampaignRunSave>::empty());
        assert(run_position(runs.push(run).drop_first(), id) is None);
        assert(runs.push(run)[0] == run);
    } else {
        assert(runs.push(run).drop_first() =~= runs.drop_first().push(run));
        assert(runs.push(run)[0] == runs[0]);
        lemma_run_position_push(runs.drop_first(), run, id);
    }
}

/// Replacing a run by one with the same id changes no lookup by id.
proof fn lemma_run_position_update(runs: Seq<CampaignRunSave>, i: int, run: CampaignRunSave, id: Seq<char>)
    requires
        0 <= i < runs.len(),
        run.id == runs[i].id,
    ensures
        run_position(runs.update(i, run), id) == run_position(runs, id),
    decreases runs.len(),
{
    if i == 0 {
        assert(runs.update(i, run).drop_first() =~= runs.drop_first());
    } else {
        assert(runs.update(i, run).drop_first() =~= runs.drop_first().update(i - 1, run));
        lemma_run_position_update(runs.drop_first(), i - 1, run, id);
    }
}

/// Replacing a run by one with the same status leaves the last run in progress.
proof fn lemma_last_in_progress_update(runs: Seq<CampaignRunSave>, i: int, run: CampaignRunSave)
    requires
        0 <= i < runs.len(),
        run.status == runs[i].status,
    ensures
        last_in_progress(runs.update(i, run)) == last_in_progress(runs),
    decreases runs.len(),
{
    if i == runs.len() - 1 {
        assert(runs.update(i, run).drop_last() =~= runs.drop_last());
    } else {
        assert(runs.update(i, run).drop_last() =~= runs.drop_last().update(i, run));
        lemma_last_in_progress_update(runs.drop_last(), i, run);
    }
}

impl CampaignSaveBundle {
    /// Changing a run without touching its id or status keeps the same run selected.
    pub proof fn lemma_selection_survives_run_change(self, next: CampaignSaveBundle, i: int, run: CampaignRunSave)
        requires
            self.run_replaced(next, i, run),
            run.id == self.runs@[i].id,
            run.status == self.runs@[i].status,
        ensures
            next.selected_index() == self.selected_index(),
    {
        lemma_last_in_progress_update(self.runs@, i, run);
        if self.selected_run_id is None {
            match last_in_progress(self.runs@) {
                Some(k) => {
                    lemma_last_in_progress(self.runs@);
                    assert(next.runs@[k].id == self.runs@[k].id);
                },
                None => {
                    if self.runs@.len() > 0 {
                        assert(next.runs@.last().id == self.runs@.last().id);
                    }
                },
            }
        }
        assert(next.selected_id() == self.selected_id());
        match self.selected_id() {
            Some(id) => lemma_run_position_update(self.runs@, i, run, id),
            None => {},
        }
    }

    /// After selecting a run by id, the selected run is the first run with that id.
    pub proof fn lemma_select_then_selected(self, next: CampaignSaveBundle, run_id: Seq<char>)
        requires
            next.runs == self.runs,
            next.selected_run_id is Some,
            next.selected_run_id->0@ == run_id,
        ensures
            next.selected_index() == run_position(self.runs@, run_id),
    {
    }

    /// A newly created run becomes the selected run, unless an older run already carries the
    /// new run's id.
    pub proof fn lemma_created_run_is_selected(self, next: CampaignSaveBundle, id: String)
        requires
            run_position(self.runs@, self.next_run_id()) is None,
            id@ == self.next_run_id(),
            next.runs@.len() == self.runs@.len() + 1,
            next.runs@.drop_last() == self.runs@,
            next.runs@.last().id == id,
            next.selected_run_id == Some(id),
        ensures
            next.selected_index() == Some(self.runs@.len() as int),
    {
        assert(next.runs@ == self.runs@.push(next.runs@.last()));
        lemma_run_position_push(self.runs@, next.runs@.last(), id@);
    }
}

} // verus!
