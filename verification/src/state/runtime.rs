//! Characters as they stand during a match: stage, growth resources and power.

use vstd::prelude::*;

use crate::data::CharacterDefinition;

verus! {

#[derive(Clone, Copy, Debug, PartialEq, Eq, Structural)]
pub enum MatchPhase {
    DailyLife,
    Encounter,
    FinalClimax,
    Finished,
}

/// How far a character has grown. Magical girls go Base, Transformed, Radiant;
/// baddies go Base, Awakened, Catastrophe.
#[derive(Clone, Copy, Debug, PartialEq, Eq, Structural)]
pub enum CharacterStage {
    Base,
    Transformed,
    Radiant,
    Awakened,
    Catastrophe,
}

#[derive(Clone, Copy, Debug, PartialEq, Eq, Structural)]
pub enum ResourceKind {
    Radiance,
    Dread,
}

#[derive(Clone, Copy, Debug, PartialEq, Eq, Structural)]
pub enum PlayerId {
    PlayerA,
    PlayerB,
}

/// The other player.
pub open spec fn opponent(player: PlayerId) -> PlayerId {
    match player {
        PlayerId::PlayerA => PlayerId::PlayerB,
        PlayerId::PlayerB => PlayerId::PlayerA,
    }
}

/// The other player.
pub fn opposing(player: PlayerId) -> (r: PlayerId)
    ensures
        r == opponent(player),
{
    match player {
        PlayerId::PlayerA => PlayerId::PlayerB,
        PlayerId::PlayerB => PlayerId::PlayerA,
    }
}

/// Taking the other player twice comes back to the first, and never gives the same player.
pub proof fn lemma_opposing_is_an_involution(player: PlayerId)
    ensures
        opponent(opponent(player)) == player,
        opponent(player) != player,
{
}

/// Whether an integer fits in an `i32`.
pub open spec fn fits_i32(x: int) -> bool {
    i32::MIN <= x <= i32::MAX
}

/// The order in which stages are reached: base first, final forms last.
pub open spec fn stage_rank(stage: CharacterStage) -> int {
    match stage {
        CharacterStage::Base => 0,
        CharacterStage::Transformed => 1,
        CharacterStage::Awakened => 1,
        CharacterStage::Radiant => 2,
        CharacterStage::Catastrophe => 2,
    }
}

/// A character as it enters a match: at its base stage, with no growth, no bonuses and not exhausted.
pub open spec fn fresh_character(definition: CharacterDefinition) -> CharacterRuntimeState {
    CharacterRuntimeState {
        name: definition.name,
        stage: CharacterStage::Base,
        base_power: definition.base_power,
        transformed_power: definition.transformed_power,
        final_power: definition.final_power,
        temporary_power_bonus: 0,
        next_encounter_power_bonus: 0,
        failed_final_climax_power_bonus: 0,
        radiance: 0,
        dread: 0,
        first_threshold: definition.first_threshold,
        second_threshold: definition.second_threshold,
        exhausted_until_next_encounter: false,
        abilities_blocked_until_next_encounter: false,
    }
}

/// A character during a match.
#[derive(Clone, Debug)]
pub struct CharacterRuntimeState {
    pub name: String,
    pub stage: CharacterStage,
    pub base_power: i32,
    pub transformed_power: i32,
    pub final_power: i32,
    pub temporary_power_bonus: i32,
    pub next_encounter_power_bonus: i32,
    pub failed_final_climax_power_bonus: i32,
    pub radiance: i32,
    pub dread: i32,
    pub first_threshold: i32,
    pub second_threshold: i32,
    pub exhausted_until_next_encounter: bool,
    pub abilities_blocked_until_next_encounter: bool,
}

impl CharacterRuntimeState {
    /// The amount held of one growth resource.
    pub open spec fn resource_value(self, resource: ResourceKind) -> i32 {
        match resource {
            ResourceKind::Radiance => self.radiance,
            ResourceKind::Dread => self.dread,
        }
    }

    /// Whether adding `amount` of `resource` stays within `i32`.
    pub open spec fn can_gain(self, resource: ResourceKind, amount: i32) -> bool {
        fits_i32(self.resource_value(resource) + amount)
    }

    /// The stage change that follows crossing a threshold: the resource that crossed it is spent.
    pub open spec fn upgraded(self) -> Self {
        match self.stage {
            CharacterStage::Base => {
                let after_radiance = if self.radiance >= self.first_threshold {
                    CharacterRuntimeState { stage: CharacterStage::Transformed, radiance: 0, ..self }
                } else {
                    self
                };
                if after_radiance.dread >= after_radiance.first_threshold {
                    CharacterRuntimeState { stage: CharacterStage::Awakened, dread: 0, ..after_radiance }
                } else {
                    after_radiance
                }
            },
            CharacterStage::Transformed => {
                if self.radiance >= self.second_threshold {
                    CharacterRuntimeState { stage: CharacterStage::Radiant, radiance: 0, ..self }
                } else {
                    self
                }
            },
            CharacterStage::Awakened => {
                if self.dread >= self.second_threshold {
                    CharacterRuntimeState { stage: CharacterStage::Catastrophe, dread: 0, ..self }
                } else {
                    self
                }
            },
            _ => self,
        }
    }

    /// The character after gaining `amount` of `resource`: the total never drops below zero,
    /// and a crossed threshold upgrades the stage at once.
    pub open spec fn gained(self, resource: ResourceKind, amount: i32) -> Self {
        let total = self.resource_value(resource) + amount;
        let kept = if total < 0 { 0 } else { total };
        match resource {
            ResourceKind::Radiance => CharacterRuntimeState { radiance: kept as i32, ..self }.upgraded(),
            ResourceKind::Dread => CharacterRuntimeState { dread: kept as i32, ..self }.upgraded(),
        }
    }

    /// The printed power of the current stage.
    pub open spec fn stage_power(self) -> int {
        match self.stage {
            CharacterStage::Base => self.base_power as int,
            CharacterStage::Transformed | CharacterStage::Awakened => self.transformed_power as int,
            CharacterStage::Radiant | CharacterStage::Catastrophe => self.final_power as int,
        }
    }

    /// The power the character contributes to an encounter.
    pub open spec fn power(self) -> int {
        if self.exhausted_until_next_encounter {
            0
        } else {
            self.stage_power() + self.temporary_power_bonus + self.failed_final_climax_power_bonus
        }
    }

    /// Whether computing the power stays within `i32`.
    pub open spec fn power_fits(self) -> bool {
        self.exhausted_until_next_encounter || (fits_i32(self.stage_power() + self.temporary_power_bonus)
            && fits_i32(self.power()))
    }

    /// A fresh character at its base stage, built from its definition.
    pub fn from_definition(definition: &CharacterDefinition) -> (r: Self)
        ensures
            r == fresh_character(*definition),
    {
        CharacterRuntimeState {
            name: definition.name.clone(),
            stage: CharacterStage::Base,
            base_power: definition.base_power,
            transformed_power: definition.transformed_power,
            final_power: definition.final_power,
            temporary_power_bonus: 0,
            next_encounter_power_bonus: 0,
            failed_final_climax_power_bonus: 0,
            radiance: 0,
            dread: 0,
            first_threshold: definition.first_threshold,
            second_threshold: definition.second_threshold,
            exhausted_until_next_encounter: false,
            abilities_blocked_until_next_encounter: false,
        }
    }

    /// An exact copy.
    pub fn duplicate(&self) -> (r: Self)
        ensures
            r == *self,
    {
        CharacterRuntimeState {
            name: self.name.clone(),
            stage: self.stage,
            base_power: self.base_power,
            transformed_power: self.transformed_power,
            final_power: self.final_power,
            temporary_power_bonus: self.temporary_power_bonus,
            next_encounter_power_bonus: self.next_encounter_power_bonus,
            failed_final_climax_power_bonus: self.failed_final_climax_power_bonus,
            radiance: self.radiance,
            dread: self.dread,
            first_threshold: self.first_threshold,
            second_threshold: self.second_threshold,
            exhausted_until_next_encounter: self.exhausted_until_next_encounter,
            abilities_blocked_until_next_encounter: self.abilities_blocked_until_next_encounter,
        }
    }

    /// The power the character contributes to an encounter: none while exhausted, otherwise
    /// the stage's power plus this encounter's bonus and the failed-Final-Climax bonus.
    pub fn current_power(&self) -> (r: i32)
        requires
            self.power_fits(),
        ensures
            r == self.power(),
    {
        if self.exhausted_until_next_encounter {
            return 0;
        }
        let base = match self.stage {
            CharacterStage::Base => self.base_power,
            CharacterStage::Transformed | CharacterStage::Awakened => self.transformed_power,
            CharacterStage::Radiant | CharacterStage::Catastrophe => self.final_power,
        };
        base + self.temporary_power_bonus + self.failed_final_climax_power_bonus
    }

    /// Adds growth and upgrades the stage when a threshold is crossed.
    pub fn gain(&mut self, resource: ResourceKind, amount: i32)
        requires
            old(self).can_gain(resource, amount),
        ensures
            *final(self) == old(self).gained(resource, amount),
    {
        match resource {
            ResourceKind::Radiance => {
                let total = self.radiance + amount;
                self.radiance = if total < 0 { 0 } else { total };
                self.check_upgrade();
            },
            ResourceKind::Dread => {
                let total = self.dread + amount;
                self.dread = if total < 0 { 0 } else { total };
                self.check_upgrade();
            },
        }
    }

    fn check_upgrade(&mut self)
        ensures
            *final(self) == old(self).upgraded(),
    {
        match self.stage {
            CharacterStage::Base => {
                if self.radiance >= self.first_threshold {
                    self.stage = CharacterStage::Transformed;
                    self.radiance = 0;
                }
                if self.dread >= self.first_threshold {
                    self.stage = CharacterStage::Awakened;
                    self.dread = 0;
                }
            },
            CharacterStage::Transformed => {
                if self.radiance >= self.second_threshold {
                    self.stage = CharacterStage::Radiant;
                    self.radiance = 0;
                }
            },
            CharacterStage::Awakened => {
                if self.dread >= self.second_threshold {
                    self.stage = CharacterStage::Catastrophe;
                    self.dread = 0;
                }
            },
            CharacterStage::Radiant | CharacterStage::Catastrophe => {},
        }
    }
}

/// Reaching a threshold always advances the stage, spending the resource that reached it: a
/// Transformed character whose Radiance reaches its second threshold becomes Radiant, an
/// Awakened one whose Dread reaches it becomes Catastrophe, and a Base character becomes
/// Transformed or Awakened on reaching its first threshold in Radiance or Dread. Below the
/// thresholds of its stage a character stays as it is.
pub proof fn lemma_threshold_advances_stage(c: CharacterRuntimeState)
    ensures
        c.stage == CharacterStage::Transformed && c.radiance >= c.second_threshold ==> c.upgraded().stage
            == CharacterStage::Radiant && c.upgraded().radiance == 0 && c.upgraded().dread == c.dread,
        c.stage == CharacterStage::Awakened && c.dread >= c.second_threshold ==> c.upgraded().stage
            == CharacterStage::Catastrophe && c.upgraded().dread == 0 && c.upgraded().radiance == c.radiance,
        c.stage == CharacterStage::Base && c.dread >= c.first_threshold ==> c.upgraded().stage
            == CharacterStage::Awakened && c.upgraded().dread == 0,
        c.stage == CharacterStage::Base && c.radiance >= c.first_threshold && c.dread < c.first_threshold
            ==> c.upgraded().stage == CharacterStage::Transformed && c.upgraded().radiance == 0,
        c.stage == CharacterStage::Transformed && c.radiance < c.second_threshold ==> c.upgraded() == c,
        c.stage == CharacterStage::Awakened && c.dread < c.second_threshold ==> c.upgraded() == c,
        c.stage == CharacterStage::Base && c.radiance < c.first_threshold && c.dread < c.first_threshold
            ==> c.upgraded() == c,
{
}

/// A Dread gain that brings an Awakened character to its second threshold makes it a
/// Catastrophe with its Dread spent; a Radiance gain that brings a Transformed character
/// there makes it Radiant with its Radiance spent.
pub proof fn lemma_gain_crossing_second_threshold(c: CharacterRuntimeState, amount: i32)
    ensures
        c.can_gain(ResourceKind::Dread, amount) && c.stage == CharacterStage::Awakened && c.dread + amount >= c.second_threshold && c.dread + amount >= 0
            ==> c.gained(ResourceKind::Dread, amount).stage == CharacterStage::Catastrophe && c.gained(
            ResourceKind::Dread,
            amount,
        ).dread == 0,
        c.can_gain(ResourceKind::Radiance, amount) && c.stage == CharacterStage::Transformed && c.radiance + amount
            >= c.second_threshold && c.radiance + amount >= 0 ==> c.gained(ResourceKind::Radiance, amount).stage == CharacterStage::Radiant && c.gained(
            ResourceKind::Radiance,
            amount,
        ).radiance == 0,
{
}

/// Gaining growth never moves a character back to an earlier stage, and never leaves the
/// gained resource below zero when it started at zero or above.
pub proof fn lemma_gain_never_reverts(c: CharacterRuntimeState, resource: ResourceKind, amount: i32)
    requires
        c.can_gain(resource, amount),
    ensures
        stage_rank(c.gained(resource, amount).stage) >= stage_rank(c.stage),
        c.resource_value(ResourceKind::Radiance) >= 0 && c.resource_value(ResourceKind::Dread) >= 0
            ==> c.gained(resource, amount).radiance >= 0 && c.gained(resource, amount).dread >= 0,
{
}

/// A support character, hidden until revealed.
#[derive(Clone, Debug)]
pub struct SupportState {
    pub runtime: CharacterRuntimeState,
    pub revealed: bool,
}

impl SupportState {
    pub fn gain(&mut self, resource: ResourceKind, amount: i32)
        requires
            old(self).runtime.can_gain(resource, amount),
        ensures
            *final(self) == (SupportState { runtime: old(self).runtime.gained(resource, amount), ..*old(self) }),
    {
        self.runtime.gain(resource, amount);
    }

    pub fn duplicate(&self) -> (r: Self)
        ensures
            r == *self,
    {
        SupportState { runtime: self.runtime.duplicate(), revealed: self.revealed }
    }

    /// What this support adds to its side's power.
    pub open spec fn contribution(self) -> int {
        if self.revealed && !self.runtime.exhausted_until_next_encounter {
            self.runtime.power()
        } else {
            0
        }
    }

    pub open spec fn contribution_fits(self) -> bool {
        self.revealed && !self.runtime.exhausted_until_next_encounter ==> self.runtime.power_fits()
    }
}

/// The summed contribution of the first `n` supports.
pub open spec fn supports_power(supports: Seq<SupportState>, n: int) -> int
    decreases n,
{
    if n <= 0 {
        0
    } else {
        supports_power(supports, n - 1) + supports[n - 1].contribution()
    }
}

/// One side of a player's table: a main character and its supports.
#[derive(Clone, Debug)]
pub struct SideState {
    pub main_character_id: String,
    pub main: CharacterRuntimeState,
    pub supports: Vec<SupportState>,
}

/// The value of a side, with its supports as a sequence.
#[verifier::ext_equal]
pub struct SideView {
    pub main_character_id: String,
    pub main: CharacterRuntimeState,
    pub supports: Seq<SupportState>,
}

impl View for SideState {
    type V = SideView;

    open spec fn view(&self) -> SideView {
        SideView { main_character_id: self.main_character_id, main: self.main, supports: self.supports@ }
    }
}

impl SideView {
    /// The side's encounter power: the main's power plus that of every revealed,
    /// non-exhausted support.
    pub open spec fn total_power(self) -> int {
        self.main.power() + supports_power(self.supports, self.supports.len() as int)
    }

    /// Whether computing the side's power stays within `i32` at every step.
    pub open spec fn power_fits(self) -> bool {
        &&& self.main.power_fits()
        &&& forall|i: int| 0 <= i < self.supports.len() ==> #[trigger] self.supports[i].contribution_fits()
        &&& forall|k: int| 0 <= k <= self.supports.len() ==> fits_i32(self.main.power() + #[trigger] supports_power(self.supports, k))
    }
}

impl SideState {
    /// The side's encounter power.
    pub fn total_power(&self) -> (r: i32)
        requires
            self@.power_fits(),
        ensures
            r == self@.total_power(),
    {
        let mut power = self.main.current_power();
        let mut i: usize = 0;
        while i < self.supports.len()
            invariant
                i <= self.supports.len(),
                self@.power_fits(),
                power == self.main.power() + supports_power(self.supports@, i as int),
            decreases self.supports.len() - i,
        {
            let support = &self.supports[i];
            assert(self@.supports[i as int].contribution_fits());
            assert(fits_i32(self.main.power() + supports_power(self.supports@, i + 1)));
            if support.revealed && !support.runtime.exhausted_until_next_encounter {
                power = power + support.runtime.current_power();
            }
            i += 1;
        }
        power
    }
}

} // verus!
