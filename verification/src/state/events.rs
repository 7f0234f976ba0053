//! The lines the match log records.

use vstd::prelude::*;

use super::runtime::{CharacterStage, PlayerId};
use crate::text::{integer_text, natural_text, push_integer, push_natural};

verus! {

/// How a player is named in the log.
pub open spec fn player_label(player: PlayerId) -> Seq<char> {
    match player {
        PlayerId::PlayerA => "PlayerA"@,
        PlayerId::PlayerB => "PlayerB"@,
    }
}

/// How a stage is named in the log.
pub open spec fn stage_label(stage: CharacterStage) -> Seq<char> {
    match stage {
        CharacterStage::Base => "Base"@,
        CharacterStage::Transformed => "Transformed"@,
        CharacterStage::Radiant => "Radiant"@,
        CharacterStage::Awakened => "Awakened"@,
        CharacterStage::Catastrophe => "Catastrophe"@,
    }
}

pub fn player_text(player: PlayerId) -> (r: &'static str)
    ensures
        r@ == player_label(player),
{
    match player {
        PlayerId::PlayerA => "PlayerA",
        PlayerId::PlayerB => "PlayerB",
    }
}

pub fn stage_text(stage: CharacterStage) -> (r: &'static str)
    ensures
        r@ == stage_label(stage),
{
    match stage {
        CharacterStage::Base => "Base",
        CharacterStage::Transformed => "Transformed",
        CharacterStage::Radiant => "Radiant",
        CharacterStage::Awakened => "Awakened",
        CharacterStage::Catastrophe => "Catastrophe",
    }
}

/// The most recent lines the log keeps.
pub open spec fn log_capacity() -> int {
    8
}

/// The log after recording `line`: the line is appended and only the newest eight lines are kept.
pub open spec fn logged(log: Seq<Seq<char>>, line: Seq<char>) -> Seq<Seq<char>> {
    let appended = log.push(line);
    if appended.len() > log_capacity() {
        appended.subrange(appended.len() - log_capacity(), appended.len() as int)
    } else {
        appended
    }
}

/// A log of at most eight lines stays at most eight lines long after recording one more, and
/// the new line is the newest.
pub proof fn lemma_log_keeps_newest_lines(log: Seq<Seq<char>>, line: Seq<char>)
    requires
        log.len() <= log_capacity(),
    ensures
        logged(log, line).len() <= log_capacity(),
        logged(log, line).last() == line,
        log.len() < log_capacity() ==> logged(log, line) == log.push(line),
{
}

/// The log after recording each of `lines` in order.
pub open spec fn logged_all(log: Seq<Seq<char>>, lines: Seq<Seq<char>>) -> Seq<Seq<char>>
    decreases lines.len(),
{
    if lines.len() == 0 {
        log
    } else {
        logged(logged_all(log, lines.drop_last()), lines.last())
    }
}

pub open spec fn msg_declared_final_climax(player: PlayerId) -> Seq<char> {
    player_label(player) + " declared Final Climax."@
}

pub open spec fn msg_daily_life_ended() -> Seq<char> {
    "Daily Life ended. Encounter begins."@
}

pub open spec fn msg_passed_daily_life(player: PlayerId) -> Seq<char> {
    player_label(player) + " passed Daily Life."@
}

pub open spec fn msg_passed_encounter(player: PlayerId) -> Seq<char> {
    player_label(player) + " passed encounter priority."@
}

pub open spec fn msg_queued_card(player: PlayerId, card_name: Seq<char>) -> Seq<char> {
    player_label(player) + " queued "@ + card_name + "."@
}

pub open spec fn msg_queued_reveal(player: PlayerId) -> Seq<char> {
    player_label(player) + " queued a support reveal."@
}

pub open spec fn msg_passed_priority(player: PlayerId) -> Seq<char> {
    player_label(player) + " passed priority."@
}

pub open spec fn msg_magical_girls_win(attacker: PlayerId, defender: PlayerId) -> Seq<char> {
    player_label(attacker) + " Magical Girls beat "@ + player_label(defender) + " Baddies."@
}

pub open spec fn msg_baddies_hold(defender: PlayerId, attacker: PlayerId) -> Seq<char> {
    player_label(defender) + " Baddies hold against "@ + player_label(attacker) + "."@
}

pub open spec fn msg_tie() -> Seq<char> {
    "Encounter resolved as a tie."@
}

pub open spec fn msg_final_climax_draw(attacker: PlayerId) -> Seq<char> {
    player_label(attacker) + " drew Final Climax and gains +1 power for the next attempt."@
}

pub open spec fn msg_resolved(player: PlayerId, card_name: Seq<char>) -> Seq<char> {
    player_label(player) + " resolved "@ + card_name + "."@
}

pub open spec fn msg_revealed(player: PlayerId, name: Seq<char>) -> Seq<char> {
    player_label(player) + " revealed "@ + name + "."@
}

pub open spec fn msg_prime_defeated(defender: PlayerId) -> Seq<char> {
    player_label(defender) + " Prime Baddie was defeated."@
}

pub open spec fn msg_final_climax_lost_exhausted(attacker: PlayerId) -> Seq<char> {
    player_label(attacker) + " lost Final Climax and its Main Magical Girl is exhausted."@
}

pub open spec fn msg_final_climax_lost_no_exhaustion(attacker: PlayerId) -> Seq<char> {
    player_label(attacker)
        + " lost Final Climax, but no exhaustion is applied because both Main Magical Girls are Radiant."@
}

pub open spec fn msg_power_this_encounter(name: Seq<char>, amount: int) -> Seq<char> {
    name + " gains "@ + integer_text(amount) + " power this encounter."@
}

pub open spec fn msg_power_next_encounter(name: Seq<char>, amount: int) -> Seq<char> {
    name + " gains "@ + integer_text(amount) + " power next encounter."@
}

pub open spec fn msg_power_lost_this_encounter(name: Seq<char>, amount: int) -> Seq<char> {
    name + " loses "@ + integer_text(amount) + " power this encounter."@
}

pub open spec fn msg_resource_change(name: Seq<char>, label: Seq<char>, before: int, after: int) -> Seq<char> {
    name + " "@ + label + ": "@ + integer_text(before) + " -> "@ + integer_text(after) + "."@
}

pub open spec fn msg_stage_change(name: Seq<char>, before: CharacterStage, after: CharacterStage) -> Seq<char> {
    name + " advanced from "@ + stage_label(before) + " to "@ + stage_label(after) + "."@
}

pub open spec fn msg_failed_final_climax_power(name: Seq<char>) -> Seq<char> {
    name + " gains +1 power for the next Final Climax attempt."@
}

pub open spec fn msg_round_draw(round: nat, player_a_drew: nat, player_b_drew: nat) -> Seq<char> {
    "Round "@ + natural_text(round) + " draw: PlayerA +"@ + natural_text(player_a_drew) + ", PlayerB +"@
        + natural_text(player_b_drew) + "."@
}

pub open spec fn msg_discarded(player: PlayerId, count: nat, limit: nat) -> Seq<char> {
    player_label(player) + " discarded "@ + natural_text(count) + " card(s) down to "@ + natural_text(limit) + "."@
}

pub open spec fn msg_exhausted(name: Seq<char>) -> Seq<char> {
    name + " becomes exhausted."@
}

pub open spec fn msg_is_revealed(name: Seq<char>) -> Seq<char> {
    name + " is revealed."@
}

fn concat2(a: &str, b: &str) -> (r: String)
    ensures
        r@ == a@ + b@,
{
    let mut s = a.to_owned();
    s.append(b);
    s
}

fn concat3(a: &str, b: &str, c: &str) -> (r: String)
    ensures
        r@ == a@ + b@ + c@,
{
    let mut s = a.to_owned();
    s.append(b);
    s.append(c);
    s
}

fn concat4(a: &str, b: &str, c: &str, d: &str) -> (r: String)
    ensures
        r@ == a@ + b@ + c@ + d@,
{
    let mut s = a.to_owned();
    s.append(b);
    s.append(c);
    s.append(d);
    s
}

pub fn line_declared_final_climax(player: PlayerId) -> (r: String)
    ensures
        r@ == msg_declared_final_climax(player),
{
    concat2(player_text(player), " declared Final Climax.")
}

pub fn line_daily_life_ended() -> (r: String)
    ensures
        r@ == msg_daily_life_ended(),
{
    "Daily Life ended. Encounter begins.".to_owned()
}

pub fn line_passed_daily_life(player: PlayerId) -> (r: String)
    ensures
        r@ == msg_passed_daily_life(player),
{
    concat2(player_text(player), " passed Daily Life.")
}

pub fn line_passed_encounter(player: PlayerId) -> (r: String)
    ensures
        r@ == msg_passed_encounter(player),
{
    concat2(player_text(player), " passed encounter priority.")
}

pub fn line_queued_card(player: PlayerId, card_name: &str) -> (r: String)
    ensures
        r@ == msg_queued_card(player, card_name@),
{
    concat4(player_text(player), " queued ", card_name, ".")
}

pub fn line_queued_reveal(player: PlayerId) -> (r: String)
    ensures
        r@ == msg_queued_reveal(player),
{
    concat2(player_text(player), " queued a support reveal.")
}

pub fn line_passed_priority(player: PlayerId) -> (r: String)
    ensures
        r@ == msg_passed_priority(player),
{
    concat2(player_text(player), " passed priority.")
}

pub fn line_magical_girls_win(attacker: PlayerId, defender: PlayerId) -> (r: String)
    ensures
        r@ == msg_magical_girls_win(attacker, defender),
{
    concat4(player_text(attacker), " Magical Girls beat ", player_text(defender), " Baddies.")
}

pub fn line_baddies_hold(defender: PlayerId, attacker: PlayerId) -> (r: String)
    ensures
        r@ == msg_baddies_hold(defender, attacker),
{
    concat4(player_text(defender), " Baddies hold against ", player_text(attacker), ".")
}

pub fn line_tie() -> (r: String)
    ensures
        r@ == msg_tie(),
{
    "Encounter resolved as a tie.".to_owned()
}

pub fn line_final_climax_draw(attacker: PlayerId) -> (r: String)
    ensures
        r@ == msg_final_climax_draw(attacker),
{
    concat2(player_text(attacker), " drew Final Climax and gains +1 power for the next attempt.")
}

pub fn line_resolved(player: PlayerId, card_name: &str) -> (r: String)
    ensures
        r@ == msg_resolved(player, card_name@),
{
    concat4(player_text(player), " resolved ", card_name, ".")
}

pub fn line_revealed(player: PlayerId, name: &str) -> (r: String)
    ensures
        r@ == msg_revealed(player, name@),
{
    concat4(player_text(player), " revealed ", name, ".")
}

pub fn line_prime_defeated(defender: PlayerId) -> (r: String)
    ensures
        r@ == msg_prime_defeated(defender),
{
    concat2(player_text(defender), " Prime Baddie was defeated.")
}

pub fn line_final_climax_lost_exhausted(attacker: PlayerId) -> (r: String)
    ensures
        r@ == msg_final_climax_lost_exhausted(attacker),
{
    concat2(player_text(attacker), " lost Final Climax and its Main Magical Girl is exhausted.")
}

pub fn line_final_climax_lost_no_exhaustion(attacker: PlayerId) -> (r: String)
    ensures
        r@ == msg_final_climax_lost_no_exhaustion(attacker),
{
    concat2(
        player_text(attacker),
        " lost Final Climax, but no exhaustion is applied because both Main Magical Girls are Radiant.",
    )
}

fn line_name_amount(name: &str, middle: &str, amount: i32, tail: &str) -> (r: String)
    ensures
        r@ == name@ + middle@ + integer_text(amount as int) + tail@,
{
    let mut s = name.to_owned();
    s.append(middle);
    push_integer(&mut s, amount as i64);
    s.append(tail);
    s
}

pub fn line_power_this_encounter(name: &str, amount: i32) -> (r: String)
    ensures
        r@ == msg_power_this_encounter(name@, amount as int),
{
    line_name_amount(name, " gains ", amount, " power this encounter.")
}

pub fn line_power_next_encounter(name: &str, amount: i32) -> (r: String)
    ensures
        r@ == msg_power_next_encounter(name@, amount as int),
{
    line_name_amount(name, " gains ", amount, " power next encounter.")
}

pub fn line_power_lost_this_encounter(name: &str, amount: i32) -> (r: String)
    ensures
        r@ == msg_power_lost_this_encounter(name@, amount as int),
{
    line_name_amount(name, " loses ", amount, " power this encounter.")
}

pub fn line_resource_change(name: &str, label: &str, before: i32, after: i32) -> (r: String)
    ensures
        r@ == msg_resource_change(name@, label@, before as int, after as int),
{
    let mut s = name.to_owned();
    s.append(" ");
    s.append(label);
    s.append(": ");
    push_integer(&mut s, before as i64);
    s.append(" -> ");
    push_integer(&mut s, after as i64);
    s.append(".");
    s
}

pub fn line_stage_change(name: &str, before: CharacterStage, after: CharacterStage) -> (r: String)
    ensures
        r@ == msg_stage_change(name@, before, after),
{
    let mut s = name.to_owned();
    s.append(" advanced from ");
    s.append(stage_text(before));
    s.append(" to ");
    s.append(stage_text(after));
    s.append(".");
    s
}

pub fn line_failed_final_climax_power(name: &str) -> (r: String)
    ensures
        r@ == msg_failed_final_climax_power(name@),
{
    concat2(name, " gains +1 power for the next Final Climax attempt.")
}

pub fn line_round_draw(round: u32, player_a_drew: usize, player_b_drew: usize) -> (r: String)
    ensures
        r@ == msg_round_draw(round as nat, player_a_drew as nat, player_b_drew as nat),
{
    let mut s = "Round ".to_owned();
    push_natural(&mut s, round as u64);
    s.append(" draw: PlayerA +");
    push_natural(&mut s, player_a_drew as u64);
    s.append(", PlayerB +");
    push_natural(&mut s, player_b_drew as u64);
    s.append(".");
    s
}

pub fn line_discarded(player: PlayerId, count: usize, limit: usize) -> (r: String)
    ensures
        r@ == msg_discarded(player, count as nat, limit as nat),
{
    let mut s = player_text(player).to_owned();
    s.append(" discarded ");
    push_natural(&mut s, count as u64);
    s.append(" card(s) down to ");
    push_natural(&mut s, limit as u64);
    s.append(".");
    s
}

pub fn line_exhausted(name: &str) -> (r: String)
    ensures
        r@ == msg_exhausted(name@),
{
    concat2(name, " becomes exhausted.")
}

pub fn line_is_revealed(name: &str) -> (r: String)
    ensures
        r@ == msg_is_revealed(name@),
{
    concat2(name, " is revealed.")
}

} // verus!
