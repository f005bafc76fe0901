//! Simple content: a complex type whose content is a value, extended by
//! attributes.

use crate::context::XsdContext;
use crate::extension::extension_fields;
use crate::extension::Extension;
use crate::model::fields_outcome;
use crate::model::CompileError;
use crate::model::GeneratedField;
use vstd::prelude::*;

verus! {

/// The simple content of a complex type.
#[derive(Debug, Default, PartialEq)]
pub struct SimpleContent {
    pub extension: Extension,
}

impl SimpleContent {
    /// Compiles the simple content into the fields of the enclosing
    /// declaration.
    pub fn implement(&self, context: &XsdContext) -> (r: Result<Vec<GeneratedField>, CompileError>)
        ensures
            fields_outcome(r) == extension_fields(self.extension, context@),
    {
        self.extension.implement(context)
    }
}

} // verus!
