//! The upper bound on how often an element may occur.

use vstd::prelude::*;

verus! {

/// The value of a `maxOccurs` attribute.
#[derive(Clone, Copy, Debug, PartialEq, Eq)]
pub enum MaxOccurences {
    Unbounded,
    Number { value: u32 },
}

impl MaxOccurences {
    /// Whether the bound admits more than one occurrence.
    pub open spec fn admits_many(self) -> bool {
        match self {
            MaxOccurences::Unbounded => true,
            MaxOccurences::Number { value } => value > 1,
        }
    }

    /// Whether the bound admits more than one occurrence.
    pub fn is_multiple(&self) -> (r: bool)
        ensures
            r == self.admits_many(),
    {
        match self {
            MaxOccurences::Unbounded => true,
            MaxOccurences::Number { value } => *value > 1,
        }
    }
}

} // verus!
