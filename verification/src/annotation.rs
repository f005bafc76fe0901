//! Annotations: documentation attached to a node of the schema.

use crate::attribute::Attribute;
use crate::text::clone_strings;
use crate::text::strings_view;
use vstd::prelude::*;

verus! {

/// An annotation. Only its documentation is carried into the declarations.
#[derive(Clone, Debug, Default, PartialEq)]
pub struct Annotation {
    pub id: Option<String>,
    pub attributes: Vec<Attribute>,
    pub documentation: Vec<String>,
}

/// The documentation lines of a node: those of its annotation, in order.
pub open spec fn documentation_of(annotation: Option<Annotation>) -> Seq<Seq<char>> {
    match annotation {
        Some(a) => strings_view(a.documentation@),
        None => Seq::empty(),
    }
}

impl Annotation {
    /// The documentation lines of the annotation, in order.
    pub fn implement(&self) -> (r: Vec<String>)
        ensures
            strings_view(r@) == documentation_of(Some(*self)),
    {
        clone_strings(&self.documentation)
    }
}

/// The documentation lines of a node with an optional annotation.
pub fn implement_annotation(annotation: &Option<Annotation>) -> (r: Vec<String>)
    ensures
        strings_view(r@) == documentation_of(*annotation),
{
    match annotation {
        Some(a) => a.implement(),
        None => {
            let r: Vec<String> = Vec::new();
            r
        },
    }
}

} // verus!
