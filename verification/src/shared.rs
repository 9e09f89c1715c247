//! Fields shared between the record families.

use vstd::prelude::*;

verus! {

/// Legal-play status of a card or set in each tournament format.
#[derive(Debug, Clone)]
pub struct Legality {
    pub standard: String,
    pub expanded: String,
    pub unlimited: String,
}

} // verus!
