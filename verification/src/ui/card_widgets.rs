//! The short labels and effect lines written on story card tiles and previews.

use vstd::prelude::*;

use crate::data::{CardAlignment, CardEffect, CardSpeed};
use crate::text::{integer_text, push_integer};

verus! {

/// The badge text of a card speed.
pub open spec fn speed_text(speed: CardSpeed) -> Seq<char> {
    match speed {
        CardSpeed::DailyLife => "Daily"@,
        CardSpeed::Reaction => "Reaction"@,
        CardSpeed::Encounter => "Encounter"@,
    }
}

/// The badge text of a card alignment.
pub open spec fn alignment_text(alignment: CardAlignment) -> Seq<char> {
    match alignment {
        CardAlignment::MagicalGirl => "MG"@,
        CardAlignment::Baddie => "Baddie"@,
        CardAlignment::Neutral => "Neutral"@,
    }
}

pub fn speed_label(speed: CardSpeed) -> (r: &'static str)
    ensures
        r@ == speed_text(speed),
{
    match speed {
        CardSpeed::DailyLife => "Daily",
        CardSpeed::Reaction => "Reaction",
        CardSpeed::Encounter => "Encounter",
    }
}

pub fn alignment_label(alignment: CardAlignment) -> (r: &'static str)
    ensures
        r@ == alignment_text(alignment),
{
    match alignment {
        CardAlignment::MagicalGirl => "MG",
        CardAlignment::Baddie => "Baddie",
        CardAlignment::Neutral => "Neutral",
    }
}

/// A sentence with the decimal amount between its two parts.
pub open spec fn amount_sentence(before: Seq<char>, amount: i32, after: Seq<char>) -> Seq<char> {
    before + integer_text(amount as int) + after
}

/// The sentence that describes what an effect does.
pub open spec fn effect_text(effect: CardEffect) -> Seq<char> {
    match effect {
        CardEffect::GainMainRadiance { amount } => amount_sentence("Gain "@, amount, " main Radiance."@),
        CardEffect::GainRevealedSupportRadiance { amount } => amount_sentence(
            "Gain "@,
            amount,
            " Radiance on revealed supports."@,
        ),
        CardEffect::ReduceOpponentMainRadiance { amount } => amount_sentence(
            "Opponent main loses "@,
            amount,
            " Radiance."@,
        ),
        CardEffect::GainPrimeDread { amount } => amount_sentence("Gain "@, amount, " Prime Dread."@),
        CardEffect::GainRevealedSupportDread { amount } => amount_sentence(
            "Gain "@,
            amount,
            " Dread on revealed supports."@,
        ),
        CardEffect::ReduceOpponentPrimeDread { amount } => amount_sentence(
            "Opponent Prime loses "@,
            amount,
            " Dread."@,
        ),
        CardEffect::GainMainPowerThisEncounter { amount } => amount_sentence(
            "Gain "@,
            amount,
            " main power this Encounter."@,
        ),
        CardEffect::GainMainPowerNextEncounter { amount } => amount_sentence(
            "Gain "@,
            amount,
            " main power next Encounter."@,
        ),
        CardEffect::ReduceOpponentMainPowerThisEncounter { amount } => amount_sentence(
            "Opponent main loses "@,
            amount,
            " power this Encounter."@,
        ),
        CardEffect::GainPrimePowerThisEncounter { amount } => amount_sentence(
            "Gain "@,
            amount,
            " Prime power this Encounter."@,
        ),
        CardEffect::GainRevealedSupportPowerThisEncounter { amount } => amount_sentence(
            "Revealed supports gain "@,
            amount,
            " power this Encounter."@,
        ),
        CardEffect::GainFirstRevealedSupportRadiance { amount } => amount_sentence(
            "First revealed support gains "@,
            amount,
            " Radiance."@,
        ),
        CardEffect::ExhaustFirstRevealedOpponentSupport => "Exhaust the first revealed opponent support."@,
        CardEffect::RevealFirstHiddenOwnSupport => "Reveal your first hidden support."@,
    }
}

fn sentence_with_amount(before: &str, amount: i32, after: &str) -> (r: String)
    ensures
        r@ == amount_sentence(before@, amount, after@),
{
    let mut out = String::new();
    out.append(before);
    push_integer(&mut out, amount as i64);
    out.append(after);
    out
}

/// The sentence that describes what an effect does.
pub fn describe_effect(effect: &CardEffect) -> (r: String)
    ensures
        r@ == effect_text(*effect),
{
    match effect {
        CardEffect::GainMainRadiance { amount } => sentence_with_amount("Gain ", *amount, " main Radiance."),
        CardEffect::GainRevealedSupportRadiance { amount } => sentence_with_amount(
            "Gain ",
            *amount,
            " Radiance on revealed supports.",
        ),
        CardEffect::ReduceOpponentMainRadiance { amount } => sentence_with_amount(
            "Opponent main loses ",
            *amount,
            " Radiance.",
        ),
        CardEffect::GainPrimeDread { amount } => sentence_with_amount("Gain ", *amount, " Prime Dread."),
        CardEffect::GainRevealedSupportDread { amount } => sentence_with_amount(
            "Gain ",
            *amount,
            " Dread on revealed supports.",
        ),
        CardEffect::ReduceOpponentPrimeDread { amount } => sentence_with_amount(
            "Opponent Prime loses ",
            *amount,
            " Dread.",
        ),
        CardEffect::GainMainPowerThisEncounter { amount } => sentence_with_amount(
            "Gain ",
            *amount,
            " main power this Encounter.",
        ),
        CardEffect::GainMainPowerNextEncounter { amount } => sentence_with_amount(
            "Gain ",
            *amount,
            " main power next Encounter.",
        ),
        CardEffect::ReduceOpponentMainPowerThisEncounter { amount } => sentence_with_amount(
            "Opponent main loses ",
            *amount,
            " power this Encounter.",
        ),
        CardEffect::GainPrimePowerThisEncounter { amount } => sentence_with_amount(
            "Gain ",
            *amount,
            " Prime power this Encounter.",
        ),
        CardEffect::GainRevealedSupportPowerThisEncounter { amount } => sentence_with_amount(
            "Revealed supports gain ",
            *amount,
            " power this Encounter.",
        ),
        CardEffect::GainFirstRevealedSupportRadiance { amount } => sentence_with_amount(
            "First revealed support gains ",
            *amount,
            " Radiance.",
        ),
        CardEffect::ExhaustFirstRevealedOpponentSupport => "Exhaust the first revealed opponent support.".to_owned(),
        CardEffect::RevealFirstHiddenOwnSupport => "Reveal your first hidden support.".to_owned(),
    }
}

} // verus!
