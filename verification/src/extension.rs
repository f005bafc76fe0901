//! Extensions: a base type with attributes and child elements added to it.

use crate::attribute::attributes_fields;
use crate::attribute::implement_attributes;
use crate::attribute::Attribute;
use crate::context::env_of;
use crate::context::Env;
use crate::context::NameContext;
use crate::context::XsdContext;
use crate::element::elements_subtypes;
use crate::element::lemma_elements_fields_fail_on_nodes;
use crate::element::lemma_elements_subtypes_fail_on_nodes;
use crate::model::append_decls;
use crate::model::append_fields;
use crate::model::content_field;
use crate::model::decls_outcome;
use crate::model::decls_view;
use crate::model::fails_only_on_nodes;
use crate::model::fields_outcome;
use crate::model::fields_view;
use crate::model::make_content_field;
use crate::model::Cardinality;
use crate::model::CompileError;
use crate::model::DeclView;
use crate::model::ErrorView;
use crate::model::FieldView;
use crate::model::GeneratedField;
use crate::model::GeneratedTypeDecl;
use crate::model::Namespace;
use crate::model::Placement;
use crate::model::Role;
use crate::rust_types_mapping::resolve;
use crate::rust_types_mapping::RustTypesMapping;
use crate::sequence::sequence_fields;
use crate::sequence::sequence_subtypes;
use crate::sequence::Sequence;
use crate::text::optional_view;
use vstd::prelude::*;

verus! {

/// An extension of the type called `base`.
#[derive(Debug, Default, PartialEq)]
pub struct Extension {
    pub base: String,
    pub attributes: Vec<Attribute>,
    pub sequences: Vec<Sequence>,
}

/// The fields of a simple content extension: the value of the base type as
/// `content`, then one field for each attribute.
pub open spec fn extension_fields(x: Extension, schema_prefix: Option<Seq<char>>) -> Result<
    Seq<FieldView>,
    ErrorView,
> {
    match attributes_fields(x.attributes@, x.attributes@.len(), schema_prefix) {
        Err(e) => Err(e),
        Ok(attributes) => Ok(seq![content_field(resolve(schema_prefix, x.base@))] + attributes),
    }
}

/// The field that embeds the base type of a complex content extension: the
/// fields of the base stand in its place.
pub open spec fn flattened_base(x: Extension, schema_prefix: Option<Seq<char>>) -> FieldView {
    FieldView {
        ident: seq!['c', 'o', 'n', 't', 'e', 'n', 't'],
        kind: resolve(schema_prefix, x.base@),
        cardinality: Cardinality::Required,
        role: Role::Flatten,
        rename: None,
        prefix: None,
    }
}

/// The fields of the first `n` sequences of a list, one sequence after the
/// other.
pub open spec fn sequences_fields(
    sequences: Seq<Sequence>,
    n: nat,
    schema_prefix: Option<Seq<char>>,
    wire_prefix: Option<Seq<char>>,
    names: Seq<Seq<char>>,
) -> Result<Seq<FieldView>, ErrorView>
    decreases n,
{
    if n == 0 || n > sequences.len() {
        Ok(Seq::empty())
    } else {
        match sequences_fields(sequences, (n - 1) as nat, schema_prefix, wire_prefix, names) {
            Err(e) => Err(e),
            Ok(fields) => match sequence_fields(
                sequences[n - 1],
                schema_prefix,
                wire_prefix,
                names,
            ) {
                Err(e) => Err(e),
                Ok(more) => Ok(fields + more),
            },
        }
    }
}

/// Once a sequence has failed, the sequences behind it change nothing.
pub proof fn lemma_sequences_fields_error_stays(
    sequences: Seq<Sequence>,
    k: nat,
    n: nat,
    schema_prefix: Option<Seq<char>>,
    wire_prefix: Option<Seq<char>>,
    names: Seq<Seq<char>>,
)
    requires
        k <= n <= sequences.len(),
        sequences_fields(sequences, k, schema_prefix, wire_prefix, names) is Err,
    ensures
        sequences_fields(sequences, n, schema_prefix, wire_prefix, names) == sequences_fields(
            sequences,
            k,
            schema_prefix,
            wire_prefix,
            names,
        ),
    decreases n - k,
{
    if k < n {
        lemma_sequences_fields_error_stays(
            sequences,
            k,
            (n - 1) as nat,
            schema_prefix,
            wire_prefix,
            names,
        );
    }
}

/// The declarations hoisted out of the first `n` sequences of a list.
pub open spec fn sequences_subtypes(
    sequences: Seq<Sequence>,
    n: nat,
    env: Env,
    names: Seq<Seq<char>>,
) -> Result<Seq<DeclView>, ErrorView>
    decreases sequences, n,
{
    if n == 0 || n > sequences.len() {
        Ok(Seq::empty())
    } else {
        match sequences_subtypes(sequences, (n - 1) as nat, env, names) {
            Err(e) => Err(e),
            Ok(decls) => match sequence_subtypes(sequences[n - 1], env, names) {
                Err(e) => Err(e),
                Ok(more) => Ok(decls + more),
            },
        }
    }
}

/// Once a sequence has failed, the sequences behind it change nothing.
pub proof fn lemma_sequences_subtypes_error_stays(
    sequences: Seq<Sequence>,
    k: nat,
    n: nat,
    env: Env,
    names: Seq<Seq<char>>,
)
    requires
        k <= n <= sequences.len(),
        sequences_subtypes(sequences, k, env, names) is Err,
    ensures
        sequences_subtypes(sequences, n, env, names) == sequences_subtypes(
            sequences,
            k,
            env,
            names,
        ),
    decreases n - k,
{
    if k < n {
        lemma_sequences_subtypes_error_stays(sequences, k, (n - 1) as nat, env, names);
    }
}

/// The fields of a complex content extension: the embedded base, then the
/// fields of the added sequences, then one field for each added attribute.
pub open spec fn extension_embedded_fields(
    x: Extension,
    schema_prefix: Option<Seq<char>>,
    wire_prefix: Option<Seq<char>>,
    names: Seq<Seq<char>>,
) -> Result<Seq<FieldView>, ErrorView> {
    match sequences_fields(x.sequences@, x.sequences@.len(), schema_prefix, wire_prefix, names) {
        Err(e) => Err(e),
        Ok(added) => match attributes_fields(x.attributes@, x.attributes@.len(), schema_prefix) {
            Err(e) => Err(e),
            Ok(attributes) => Ok(seq![flattened_base(x, schema_prefix)] + added + attributes),
        },
    }
}

/// The declarations hoisted out of the sequences that an extension adds.
pub open spec fn extension_subtypes(x: Extension, env: Env, names: Seq<Seq<char>>) -> Result<
    Seq<DeclView>,
    ErrorView,
>
    decreases x, 0nat,
{
    sequences_subtypes(x.sequences@, x.sequences@.len(), env, names)
}

/// Compiling the fields of sequences never fails on the configuration.
pub proof fn lemma_sequences_fields_fail_on_nodes(
    sequences: Seq<Sequence>,
    n: nat,
    schema_prefix: Option<Seq<char>>,
    wire_prefix: Option<Seq<char>>,
    names: Seq<Seq<char>>,
)
    ensures
        fails_only_on_nodes(sequences_fields(sequences, n, schema_prefix, wire_prefix, names)),
    decreases n,
{
    if 0 < n <= sequences.len() {
        lemma_sequences_fields_fail_on_nodes(
            sequences,
            (n - 1) as nat,
            schema_prefix,
            wire_prefix,
            names,
        );
        let s = sequences[n - 1];
        lemma_elements_fields_fail_on_nodes(
            s.elements@,
            s.elements@.len(),
            schema_prefix,
            wire_prefix,
            names,
        );
    }
}

/// Compiling the declarations hoisted out of sequences never fails on the
/// configuration.
pub proof fn lemma_sequences_subtypes_fail_on_nodes(
    sequences: Seq<Sequence>,
    n: nat,
    env: Env,
    names: Seq<Seq<char>>,
)
    ensures
        fails_only_on_nodes(sequences_subtypes(sequences, n, env, names)),
    decreases sequences, n,
{
    if 0 < n <= sequences.len() {
        lemma_sequences_subtypes_fail_on_nodes(sequences, (n - 1) as nat, env, names);
        let s = sequences[n - 1];
        lemma_elements_subtypes_fail_on_nodes(s.elements@, s.elements@.len(), env, names);
        assert(sequence_subtypes(s, env, names) == elements_subtypes(
            s.elements@,
            s.elements@.len(),
            env,
            names,
        ));
    }
}

impl Extension {
    /// Compiles a simple content extension into the fields of the enclosing
    /// declaration.
    pub fn implement(&self, context: &XsdContext) -> (r: Result<Vec<GeneratedField>, CompileError>)
        ensures
            fields_outcome(r) == extension_fields(*self, context@),
    {
        let attributes = implement_attributes(&self.attributes, context)?;
        let content = make_content_field(RustTypesMapping::get(context, self.base.as_str()));
        let mut out: Vec<GeneratedField> = Vec::new();
        out.push(content);
        assert(fields_view(out@) =~= seq![content_field(resolve(context@, self.base@))]);
        append_fields(&mut out, attributes);
        Ok(out)
    }

    /// The field that embeds the base type of a complex content extension.
    pub fn get_field_implementation(&self, context: &XsdContext) -> (r: GeneratedField)
        ensures
            r@ == flattened_base(*self, context@),
    {
        proof {
            reveal_strlit("content");
            assert("content"@ =~= seq!['c', 'o', 'n', 't', 'e', 'n', 't']);
        }
        GeneratedField {
            ident: "content".to_owned(),
            kind: RustTypesMapping::get(context, self.base.as_str()),
            cardinality: Cardinality::Required,
            role: Role::Flatten,
            rename: None,
            prefix: None,
        }
    }

    /// Compiles the sequences that the extension adds into fields.
    pub fn get_sequences_implementation(
        &self,
        context: &XsdContext,
        prefix: &Option<String>,
        sub_types_name_prefix: &NameContext,
    ) -> (r: Result<Vec<GeneratedField>, CompileError>)
        ensures
            fields_outcome(r) == sequences_fields(
                self.sequences@,
                self.sequences@.len(),
                context@,
                optional_view(*prefix),
                sub_types_name_prefix@,
            ),
    {
        let ghost wire = optional_view(*prefix);
        let ghost names = sub_types_name_prefix@;
        let mut out: Vec<GeneratedField> = Vec::new();
        let mut i: usize = 0;
        assert(fields_view(out@) =~= Seq::<FieldView>::empty());
        while i < self.sequences.len()
            invariant
                i <= self.sequences.len(),
                wire == optional_view(*prefix),
                names == sub_types_name_prefix@,
                sequences_fields(self.sequences@, i as nat, context@, wire, names) == Ok::<
                    Seq<FieldView>,
                    ErrorView,
                >(fields_view(out@)),
            decreases self.sequences.len() - i,
        {
            match self.sequences[i].get_field_implementation(
                context,
                prefix,
                sub_types_name_prefix,
            ) {
                Err(e) => {
                    proof {
                        lemma_sequences_fields_error_stays(
                            self.sequences@,
                            (i + 1) as nat,
                            self.sequences@.len(),
                            context@,
                            wire,
                            names,
                        );
                    }
                    return Err(e);
                },
                Ok(more) => {
                    append_fields(&mut out, more);
                },
            }
            i += 1;
        }
        Ok(out)
    }

    /// Compiles a complex content extension into the fields of the enclosing
    /// declaration.
    pub fn get_embedded_implementation(
        &self,
        context: &XsdContext,
        prefix: &Option<String>,
        sub_types_name_prefix: &NameContext,
    ) -> (r: Result<Vec<GeneratedField>, CompileError>)
        ensures
            fields_outcome(r) == extension_embedded_fields(
                *self,
                context@,
                optional_view(*prefix),
                sub_types_name_prefix@,
            ),
    {
        let added = self.get_sequences_implementation(context, prefix, sub_types_name_prefix)?;
        let attributes = implement_attributes(&self.attributes, context)?;
        let base = self.get_field_implementation(context);
        let mut out: Vec<GeneratedField> = Vec::new();
        out.push(base);
        assert(fields_view(out@) =~= seq![flattened_base(*self, context@)]);
        append_fields(&mut out, added);
        append_fields(&mut out, attributes);
        Ok(out)
    }

    /// Compiles the declarations hoisted out of the sequences that the
    /// extension adds.
    pub fn get_sub_types_implementation(
        &self,
        context: &XsdContext,
        namespace_definition: &Option<Namespace>,
        prefix: &Option<String>,
        sub_types_name_prefix: &NameContext,
        placement: Placement,
    ) -> (r: Result<Vec<GeneratedTypeDecl>, CompileError>)
        ensures
            decls_outcome(r) == extension_subtypes(
                *self,
                env_of(*namespace_definition, *prefix, *context, placement),
                sub_types_name_prefix@,
            ),
        decreases self, 0nat,
    {
        let ghost env = env_of(*namespace_definition, *prefix, *context, placement);
        let ghost names = sub_types_name_prefix@;
        let mut out: Vec<GeneratedTypeDecl> = Vec::new();
        let mut i: usize = 0;
        assert(decls_view(out@) =~= Seq::<DeclView>::empty());
        while i < self.sequences.len()
            invariant
                i <= self.sequences.len(),
                env == env_of(*namespace_definition, *prefix, *context, placement),
                names == sub_types_name_prefix@,
                sequences_subtypes(self.sequences@, i as nat, env, names) == Ok::<
                    Seq<DeclView>,
                    ErrorView,
                >(decls_view(out@)),
            decreases self.sequences.len() - i,
        {
            match self.sequences[i].get_sub_types_implementation(
                context,
                namespace_definition,
                prefix,
                sub_types_name_prefix,
                placement,
            ) {
                Err(e) => {
                    proof {
                        lemma_sequences_subtypes_error_stays(
                            self.sequences@,
                            (i + 1) as nat,
                            self.sequences@.len(),
                            env,
                            names,
                        );
                    }
                    return Err(e);
                },
                Ok(more) => {
                    append_decls(&mut out, more);
                },
            }
            i += 1;
        }
        Ok(out)
    }
}

} // verus!
