//! Complex content: a complex type that extends another complex type.

use crate::context::env_of;
use crate::context::NameContext;
use crate::context::XsdContext;
use crate::extension::extension_embedded_fields;
use crate::extension::extension_subtypes;
use crate::extension::Extension;
use crate::model::decls_outcome;
use crate::model::fields_outcome;
use crate::model::CompileError;
use crate::model::GeneratedField;
use crate::model::GeneratedTypeDecl;
use crate::model::Namespace;
use crate::model::Placement;
use crate::text::optional_view;
use vstd::prelude::*;

verus! {

/// The complex content of a complex type.
#[derive(Debug, Default, PartialEq)]
pub struct ComplexContent {
    pub extension: Extension,
}

impl ComplexContent {
    /// Compiles the complex content into the fields of the enclosing
    /// declaration: the base is embedded, what the extension adds follows.
    pub fn get_field_implementation(
        &self,
        context: &XsdContext,
        prefix: &Option<String>,
        sub_types_name_prefix: &NameContext,
    ) -> (r: Result<Vec<GeneratedField>, CompileError>)
        ensures
            fields_outcome(r) == extension_embedded_fields(
                self.extension,
                context@,
                optional_view(*prefix),
                sub_types_name_prefix@,
            ),
    {
        self.extension.get_embedded_implementation(context, prefix, sub_types_name_prefix)
    }

    /// Compiles the declarations hoisted out of what the extension adds.
    pub fn get_sub_types_implementation(
        &self,
        context: &XsdContext,
        namespace_definition: &Option<Namespace>,
        prefix: &Option<String>,
        sub_types_name_prefix: &NameContext,
        placement: Placement,
    ) -> (r: Result<Vec<GeneratedTypeDecl>, CompileError>)
        ensures
            decls_outcome(r) == extension_subtypes(
                self.extension,
                env_of(*namespace_definition, *prefix, *context, placement),
                sub_types_name_prefix@,
            ),
        decreases self, 0nat,
    {
        self.extension.get_sub_types_implementation(
            context,
            namespace_definition,
            prefix,
            sub_types_name_prefix,
            placement,
        )
    }
}

} // verus!
