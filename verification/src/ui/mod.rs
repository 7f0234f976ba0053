//! What the card widgets write on a card.

pub mod card_widgets;
