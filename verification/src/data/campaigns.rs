//! Campaign content definitions.

use vstd::prelude::*;

verus! {

#[derive(Clone, Debug)]
pub struct CampaignDefinition {
    pub id: String,
    pub name: String,
    pub description: String,
    pub nodes: Vec<CampaignNodeDefinition>,
    pub encounters: Vec<CampaignEncounterDefinition>,
}

#[derive(Clone, Debug)]
pub struct CampaignNodeDefinition {
    pub id: String,
    pub encounter_id: String,
    pub next_node_ids: Vec<String>,
    pub boss: bool,
}

#[derive(Clone, Debug)]
pub struct CampaignEncounterDefinition {
    pub id: String,
    pub name: String,
    pub enemy_loadout_id: String,
    pub intro_text: String,
    pub reward_story_card_ids: Vec<String>,
    pub boss: bool,
}

impl Default for CampaignDefinition {
    fn default() -> (r: Self)
        ensures
            r.id@.len() == 0,
            r.name@.len() == 0,
            r.description@.len() == 0,
            r.nodes@.len() == 0,
            r.encounters@.len() == 0,
    {
        CampaignDefinition {
            id: String::new(),
            name: String::new(),
            description: String::new(),
            nodes: Vec::new(),
            encounters: Vec::new(),
        }
    }
}

impl Default for CampaignNodeDefinition {
    fn default() -> (r: Self)
        ensures
            r.id@.len() == 0,
            r.encounter_id@.len() == 0,
            r.next_node_ids@.len() == 0,
            !r.boss,
    {
        CampaignNodeDefinition {
            id: String::new(),
            encounter_id: String::new(),
            next_node_ids: Vec::new(),
            boss: false,
        }
    }
}

impl Default for CampaignEncounterDefinition {
    fn default() -> (r: Self)
        ensures
            r.id@.len() == 0,
            r.name@.len() == 0,
            r.enemy_loadout_id@.len() == 0,
            r.intro_text@.len() == 0,
            r.reward_story_card_ids@.len() == 0,
            !r.boss,
    {
        CampaignEncounterDefinition {
            id: String::new(),
            name: String::new(),
            enemy_loadout_id: String::new(),
            intro_text: String::new(),
            reward_story_card_ids: Vec::new(),
            boss: false,
        }
    }
}

/// The index of the first node whose id is `id`, if any.
pub open spec fn node_position(nodes: Seq<CampaignNodeDefinition>, id: Seq<char>) -> Option<int>
    decreases nodes.len(),
{
    if nodes.len() == 0 {
        None
    } else if nodes[0].id@ == id {
        Some(0)
    } else {
        match node_position(nodes.drop_first(), id) {
            Some(i) => Some(i + 1),
            None => None,
        }
    }
}

/// The index of the first encounter whose id is `id`, if any.
pub open spec fn encounter_position(encounters: Seq<CampaignEncounterDefinition>, id: Seq<char>) -> Option<int>
    decreases encounters.len(),
{
    if encounters.len() == 0 {
        None
    } else if encounters[0].id@ == id {
        Some(0)
    } else {
        match encounter_position(encounters.drop_first(), id) {
            Some(i) => Some(i + 1),
            None => None,
        }
    }
}

pub proof fn lemma_node_position(nodes: Seq<CampaignNodeDefinition>, id: Seq<char>)
    ensures
        match node_position(nodes, id) {
            Some(i) => 0 <= i < nodes.len() && nodes[i].id@ == id
                && forall|j: int| 0 <= j < i ==> nodes[j].id@ != id,
            None => forall|j: int| 0 <= j < nodes.len() ==> nodes[j].id@ != id,
        },
    decreases nodes.len(),
{
    if nodes.len() > 0 {
        lemma_node_position(nodes.drop_first(), id);
        if nodes[0].id@ != id {
            assert forall|j: int| 1 <= j < nodes.len() implies nodes[j] == nodes.drop_first()[j - 1] by {}
        }
    }
}

pub proof fn lemma_encounter_position(encounters: Seq<CampaignEncounterDefinition>, id: Seq<char>)
    ensures
        match encounter_position(encounters, id) {
            Some(i) => 0 <= i < encounters.len() && encounters[i].id@ == id
                && forall|j: int| 0 <= j < i ==> encounters[j].id@ != id,
            None => forall|j: int| 0 <= j < encounters.len() ==> encounters[j].id@ != id,
        },
    decreases encounters.len(),
{
    if encounters.len() > 0 {
        lemma_encounter_position(encounters.drop_first(), id);
        if encounters[0].id@ != id {
            assert forall|j: int| 1 <= j < encounters.len() implies encounters[j] == encounters.drop_first()[j - 1] by {}
        }
    }
}

impl CampaignDefinition {
    /// The first node with the given id.
    pub fn node(&self, node_id: &str) -> (r: Option<&CampaignNodeDefinition>)
        ensures
            match node_position(self.nodes@, node_id@) {
                Some(i) => r == Some(&self.nodes@[i]),
                None => r.is_none(),
            },
    {
        proof { lemma_node_position(self.nodes@, node_id@); }
        let mut i: usize = 0;
        while i < self.nodes.len()
            invariant
                i <= self.nodes.len(),
                forall|j: int| 0 <= j < i ==> self.nodes@[j].id@ != node_id@,
                match node_position(self.nodes@, node_id@) {
                    Some(k) => 0 <= k < self.nodes.len() && self.nodes@[k].id@ == node_id@
                        && forall|j: int| 0 <= j < k ==> self.nodes@[j].id@ != node_id@,
                    None => forall|j: int| 0 <= j < self.nodes.len() ==> self.nodes@[j].id@ != node_id@,
                },
            decreases self.nodes.len() - i,
        {
            if crate::text::same_text(self.nodes[i].id.as_str(), node_id) {
                return Some(&self.nodes[i]);
            }
            i += 1;
        }
        None
    }

    /// The first encounter with the given id.
    pub fn encounter(&self, encounter_id: &str) -> (r: Option<&CampaignEncounterDefinition>)
        ensures
            match encounter_position(self.encounters@, encounter_id@) {
                Some(i) => r == Some(&self.encounters@[i]),
                None => r.is_none(),
            },
    {
        proof { lemma_encounter_position(self.encounters@, encounter_id@); }
        let mut i: usize = 0;
        while i < self.encounters.len()
            invariant
                i <= self.encounters.len(),
                forall|j: int| 0 <= j < i ==> self.encounters@[j].id@ != encounter_id@,
                match encounter_position(self.encounters@, encounter_id@) {
                    Some(k) => 0 <= k < self.encounters.len() && self.encounters@[k].id@ == encounter_id@
                        && forall|j: int| 0 <= j < k ==> self.encounters@[j].id@ != encounter_id@,
                    None => forall|j: int| 0 <= j < self.encounters.len() ==> self.encounters@[j].id@ != encounter_id@,
                },
            decreases self.encounters.len() - i,
        {
            if crate::text::same_text(self.encounters[i].id.as_str(), encounter_id) {
                return Some(&self.encounters[i]);
            }
            i += 1;
        }
        None
    }

    /// The first node of the campaign.
    pub fn first_node(&self) -> (r: Option<&CampaignNodeDefinition>)
        ensures
            self.nodes@.len() == 0 ==> r.is_none(),
            self.nodes@.len() > 0 ==> r == Some(&self.nodes@[0]),
    {
        if self.nodes.len() == 0 {
            None
        } else {
            Some(&self.nodes[0])
        }
    }
}

} // verus!
