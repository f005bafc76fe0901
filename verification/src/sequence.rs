//! Sequences: the ordered child elements of a complex type.

use crate::context::env_of;
use crate::context::Env;
use crate::context::NameContext;
use crate::context::XsdContext;
use crate::element::elements_fields;
use crate::element::elements_subtypes;
use crate::element::lemma_elements_fields_error_stays;
use crate::element::lemma_elements_subtypes_error_stays;
use crate::element::Element;
use crate::model::append_decls;
use crate::model::decls_outcome;
use crate::model::decls_view;
use crate::model::fields_outcome;
use crate::model::fields_view;
use crate::model::lemma_fields_view_push;
use crate::model::CompileError;
use crate::model::DeclView;
use crate::model::ErrorView;
use crate::model::FieldView;
use crate::model::GeneratedField;
use crate::model::GeneratedTypeDecl;
use crate::model::Namespace;
use crate::model::Placement;
use crate::text::optional_view;
use vstd::prelude::*;

verus! {

/// A sequence of child elements, in document order.
#[derive(Debug, Default, PartialEq)]
pub struct Sequence {
    pub elements: Vec<Element>,
}

/// The fields of a sequence: one for each child element that has a name, in
/// document order.
pub open spec fn sequence_fields(
    s: Sequence,
    schema_prefix: Option<Seq<char>>,
    wire_prefix: Option<Seq<char>>,
    names: Seq<Seq<char>>,
) -> Result<Seq<FieldView>, ErrorView> {
    elements_fields(s.elements@, s.elements@.len(), schema_prefix, wire_prefix, names)
}

/// The declarations hoisted out of the child elements of a sequence, in
/// document order.
pub open spec fn sequence_subtypes(s: Sequence, env: Env, names: Seq<Seq<char>>) -> Result<
    Seq<DeclView>,
    ErrorView,
>
    decreases s, 0nat,
{
    elements_subtypes(s.elements@, s.elements@.len(), env, names)
}

impl Sequence {
    /// Compiles the child elements into the fields of the enclosing
    /// declaration, in document order.
    pub fn implement(
        &self,
        prefix: &Option<String>,
        context: &XsdContext,
        sub_types_name_prefix: &NameContext,
    ) -> (r: Result<Vec<GeneratedField>, CompileError>)
        ensures
            fields_outcome(r) == sequence_fields(
                *self,
                context@,
                optional_view(*prefix),
                sub_types_name_prefix@,
            ),
    {
        self.get_field_implementation(context, prefix, sub_types_name_prefix)
    }

    /// Compiles the declarations hoisted out of the child elements, in
    /// document order.
    pub fn get_sub_types_implementation(
        &self,
        context: &XsdContext,
        namespace_definition: &Option<Namespace>,
        prefix: &Option<String>,
        sub_types_name_prefix: &NameContext,
        placement: Placement,
    ) -> (r: Result<Vec<GeneratedTypeDecl>, CompileError>)
        ensures
            decls_outcome(r) == sequence_subtypes(
                *self,
                env_of(*namespace_definition, *prefix, *context, placement),
                sub_types_name_prefix@,
            ),
        decreases self, 0nat,
    {
        let ghost env = env_of(*namespace_definition, *prefix, *context, placement);
        let ghost names = sub_types_name_prefix@;
        let mut out: Vec<GeneratedTypeDecl> = Vec::new();
        let mut i: usize = 0;
        assert(decls_view(out@) =~= Seq::<DeclView>::empty());
        while i < self.elements.len()
            invariant
                i <= self.elements.len(),
                env == env_of(*namespace_definition, *prefix, *context, placement),
                names == sub_types_name_prefix@,
                elements_subtypes(self.elements@, i as nat, env, names) == Ok::<
                    Seq<DeclView>,
                    ErrorView,
                >(decls_view(out@)),
            decreases self.elements.len() - i,
        {
            match self.elements[i].get_subtypes_implementation(
                namespace_definition,
                prefix,
                context,
                sub_types_name_prefix,
                placement,
            ) {
                Err(e) => {
                    proof {
                        lemma_elements_subtypes_error_stays(
                            self.elements@,
                            (i + 1) as nat,
                            self.elements@.len(),
                            env,
                            names,
                        );
                    }
                    return Err(e);
                },
                Ok(more) => {
                    append_decls(&mut out, more);
                },
            }
            i += 1;
        }
        Ok(out)
    }

    /// Compiles the child elements into fields, in document order.
    pub fn get_field_implementation(
        &self,
        context: &XsdContext,
        prefix: &Option<String>,
        sub_types_name_prefix: &NameContext,
    ) -> (r: Result<Vec<GeneratedField>, CompileError>)
        ensures
            fields_outcome(r) == sequence_fields(
                *self,
                context@,
                optional_view(*prefix),
                sub_types_name_prefix@,
            ),
    {
        let ghost wire = optional_view(*prefix);
        let ghost names = sub_types_name_prefix@;
        let mut out: Vec<GeneratedField> = Vec::new();
        let mut i: usize = 0;
        assert(fields_view(out@) =~= Seq::<FieldView>::empty());
        while i < self.elements.len()
            invariant
                i <= self.elements.len(),
                wire == optional_view(*prefix),
                names == sub_types_name_prefix@,
                elements_fields(self.elements@, i as nat, context@, wire, names) == Ok::<
                    Seq<FieldView>,
                    ErrorView,
                >(fields_view(out@)),
            decreases self.elements.len() - i,
        {
            match self.elements[i].get_field_implementation(context, prefix, sub_types_name_prefix) {
                Err(e) => {
                    proof {
                        lemma_elements_fields_error_stays(
                            self.elements@,
                            (i + 1) as nat,
                            self.elements@.len(),
                            context@,
                            wire,
                            names,
                        );
                    }
                    return Err(e);
                },
                Ok(Some(f)) => {
                    proof {
                        lemma_fields_view_push(out@, f);
                    }
                    out.push(f);
                },
                Ok(None) => {},
            }
            i += 1;
        }
        Ok(out)
    }
}

} // verus!
