//! Whether the names of a schema are qualified by its target namespace.

use vstd::prelude::*;

verus! {

/// The value of an `elementFormDefault` or `attributeFormDefault` attribute.
#[derive(Clone, Copy, Debug, Default, PartialEq, Eq)]
pub enum Qualification {
    Qualified,
    #[default]
    Unqualified,
}

} // verus!
