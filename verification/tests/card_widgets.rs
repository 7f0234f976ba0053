use eclipse_heart::data::{CardAlignment, CardEffect, CardSpeed};
use eclipse_heart::ui::card_widgets::{alignment_label, describe_effect, speed_label};

#[test]
fn badges_name_speed_and_alignment() {
    assert_eq!(speed_label(CardSpeed::DailyLife), "Daily");
    assert_eq!(speed_label(CardSpeed::Reaction), "Reaction");
    assert_eq!(speed_label(CardSpeed::Encounter), "Encounter");
    assert_eq!(alignment_label(CardAlignment::MagicalGirl), "MG");
    assert_eq!(alignment_label(CardAlignment::Baddie), "Baddie");
    assert_eq!(alignment_label(CardAlignment::Neutral), "Neutral");
}

#[test]
fn effects_are_described_with_their_amounts() {
    assert_eq!(describe_effect(&CardEffect::GainMainRadiance { amount: 2 }), "Gain 2 main Radiance.");
    assert_eq!(
        describe_effect(&CardEffect::GainRevealedSupportRadiance { amount: 1 }),
        "Gain 1 Radiance on revealed supports."
    );
    assert_eq!(
        describe_effect(&CardEffect::ReduceOpponentMainRadiance { amount: 3 }),
        "Opponent main loses 3 Radiance."
    );
    assert_eq!(describe_effect(&CardEffect::GainPrimeDread { amount: 10 }), "Gain 10 Prime Dread.");
    assert_eq!(
        describe_effect(&CardEffect::GainRevealedSupportDread { amount: 4 }),
        "Gain 4 Dread on revealed supports."
    );
    assert_eq!(
        describe_effect(&CardEffect::ReduceOpponentPrimeDread { amount: 2 }),
        "Opponent Prime loses 2 Dread."
    );
    assert_eq!(
        describe_effect(&CardEffect::GainMainPowerThisEncounter { amount: 5 }),
        "Gain 5 main power this Encounter."
    );
    assert_eq!(
        describe_effect(&CardEffect::GainMainPowerNextEncounter { amount: 1 }),
        "Gain 1 main power next Encounter."
    );
    assert_eq!(
        describe_effect(&CardEffect::ReduceOpponentMainPowerThisEncounter { amount: 2 }),
        "Opponent main loses 2 power this Encounter."
    );
    assert_eq!(
        describe_effect(&CardEffect::GainPrimePowerThisEncounter { amount: 3 }),
        "Gain 3 Prime power this Encounter."
    );
    assert_eq!(
        describe_effect(&CardEffect::GainRevealedSupportPowerThisEncounter { amount: 1 }),
        "Revealed supports gain 1 power this Encounter."
    );
    assert_eq!(
        describe_effect(&CardEffect::GainFirstRevealedSupportRadiance { amount: 2 }),
        "First revealed support gains 2 Radiance."
    );
    assert_eq!(
        describe_effect(&CardEffect::ExhaustFirstRevealedOpponentSupport),
        "Exhaust the first revealed opponent support."
    );
    assert_eq!(describe_effect(&CardEffect::RevealFirstHiddenOwnSupport), "Reveal your first hidden support.");
    assert_eq!(describe_effect(&CardEffect::GainMainRadiance { amount: -7 }), "Gain -7 main Radiance.");
}
