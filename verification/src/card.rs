//! The parts of the card record family that the library's logic can
//! hold: plain text and integer fields.  The priced sub-records live
//! with the application, since prices are floating-point.

use vstd::prelude::*;

verus! {

/// An ancient trait printed on a card.
#[derive(Debug, Clone)]
pub struct AncientTrait {
    pub name: String,
    pub text: String,
}

/// An ability printed on a card.
#[derive(Debug, Clone)]
pub struct Ability {
    pub name: String,
    pub text: String,
    pub ability_type: String,
}

/// One attack printed on a card.
#[derive(Debug, Clone)]
pub struct Attack {
    pub cost: Vec<String>,
    pub name: String,
    pub text: String,
    pub damage: String,
    pub converted_energy_cost: u8,
}

/// A weakness of a card against one energy type.
#[derive(Debug, Clone)]
pub struct Weakness {
    pub weakness_type: String,
    pub value: String,
}

/// A resistance of a card against one energy type.
#[derive(Debug, Clone)]
pub struct Resistance {
    pub resistance_type: String,
    pub value: String,
}

/// The two renderings of a card's picture.
#[derive(Debug, Clone)]
pub struct CardImage {
    pub small: String,
    pub large: String,
}

} // verus!
