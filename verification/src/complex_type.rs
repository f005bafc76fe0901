//! Complex types: the content model compiler.
//!
//! A complex type has one of four content models: a sequence of child
//! elements, simple content, complex content, or none. The content model
//! gives the first fields of the declaration; the attributes of the complex
//! type follow.

use crate::annotation::documentation_of;
use crate::annotation::implement_annotation;
use crate::annotation::Annotation;
use crate::attribute::attributes_fields;
use crate::attribute::implement_attributes;
use crate::attribute::lemma_attributes_fail_on_nodes;
use crate::attribute::Attribute;
use crate::complex_content::ComplexContent;
use crate::context::env_of;
use crate::context::qualified_name;
use crate::context::Env;
use crate::context::NameContext;
use crate::context::XsdContext;
use crate::element::lemma_elements_fields_fail_on_nodes;
use crate::element::lemma_elements_subtypes_fail_on_nodes;
use crate::extension::extension_embedded_fields;
use crate::extension::extension_fields;
use crate::extension::extension_subtypes;
use crate::extension::lemma_sequences_fields_fail_on_nodes;
use crate::extension::lemma_sequences_subtypes_fail_on_nodes;
use crate::model::append_decls;
use crate::model::append_fields;
use crate::model::clone_namespace;
use crate::model::decls_outcome;
use crate::model::decls_view;
use crate::model::fails_only_on_nodes;
use crate::model::fields_outcome;
use crate::model::CompileError;
use crate::model::DeclView;
use crate::model::ErrorView;
use crate::model::FieldView;
use crate::model::GeneratedField;
use crate::model::GeneratedTypeDecl;
use crate::model::Namespace;
use crate::model::Placement;
use crate::model::Primitive;
use crate::model::TypeRef;
use crate::model::TypeRefView;
use crate::references::closed;
use crate::references::lemma_complex_type_decls_closed;
use crate::rust_types_mapping::resolve;
use crate::rust_types_mapping::RustTypesMapping;
use crate::sequence::sequence_fields;
use crate::sequence::sequence_subtypes;
use crate::sequence::Sequence;
use crate::simple_content::SimpleContent;
use crate::text::optional_view;
use vstd::prelude::*;

verus! {

/// A complex type, named at the top level of a schema or anonymous inside
/// an element.
#[derive(Debug, Default, PartialEq)]
pub struct ComplexType {
    pub name: String,
    pub attributes: Vec<Attribute>,
    pub sequence: Option<Sequence>,
    pub simple_content: Option<SimpleContent>,
    pub complex_content: Option<ComplexContent>,
    pub annotation: Option<Annotation>,
}

/// The content model that a complex type is compiled by.
#[derive(Clone, Copy, Debug, PartialEq, Eq)]
pub enum ContentKind {
    Sequence,
    SimpleContent,
    ComplexContent,
    Empty,
}

/// Which content model decides: a sequence before simple content, simple
/// content before complex content.
pub open spec fn content_kind(ct: ComplexType) -> ContentKind {
    if ct.sequence is Some {
        ContentKind::Sequence
    } else if ct.simple_content is Some {
        ContentKind::SimpleContent
    } else if ct.complex_content is Some {
        ContentKind::ComplexContent
    } else {
        ContentKind::Empty
    }
}

/// Whether a complex type only wraps a primitive value: its content model
/// is simple content and the base resolves to a primitive.
pub open spec fn is_text_content(ct: ComplexType, schema_prefix: Option<Seq<char>>) -> bool {
    &&& content_kind(ct) is SimpleContent
    &&& resolve(schema_prefix, ct.simple_content->0.extension.base@) is Primitive
}

/// The type of a field whose element holds the anonymous complex type `ct`:
/// a string where the complex type only wraps a primitive value, and else
/// the declaration that is hoisted for the element called `parent`.
pub open spec fn integrated_type(
    ct: ComplexType,
    parent: Seq<char>,
    schema_prefix: Option<Seq<char>>,
    names: Seq<Seq<char>>,
) -> TypeRefView {
    if is_text_content(ct, schema_prefix) {
        TypeRefView::Primitive(Primitive::Str)
    } else {
        TypeRefView::Declared(qualified_name(names, parent))
    }
}

/// The fields that the content model of a complex type gives.
pub open spec fn content_fields(
    ct: ComplexType,
    schema_prefix: Option<Seq<char>>,
    wire_prefix: Option<Seq<char>>,
    names: Seq<Seq<char>>,
) -> Result<Seq<FieldView>, ErrorView> {
    match content_kind(ct) {
        ContentKind::Sequence => sequence_fields(ct.sequence->0, schema_prefix, wire_prefix, names),
        ContentKind::SimpleContent => extension_fields(
            ct.simple_content->0.extension,
            schema_prefix,
        ),
        ContentKind::ComplexContent => extension_embedded_fields(
            ct.complex_content->0.extension,
            schema_prefix,
            wire_prefix,
            names,
        ),
        ContentKind::Empty => Ok(Seq::empty()),
    }
}

/// The fields of a complex type: those of its content model, then one for
/// each of its attributes.
pub open spec fn complex_type_fields(
    ct: ComplexType,
    schema_prefix: Option<Seq<char>>,
    wire_prefix: Option<Seq<char>>,
    names: Seq<Seq<char>>,
) -> Result<Seq<FieldView>, ErrorView> {
    match content_fields(ct, schema_prefix, wire_prefix, names) {
        Err(e) => Err(e),
        Ok(content) => match attributes_fields(
            ct.attributes@,
            ct.attributes@.len(),
            schema_prefix,
        ) {
            Err(e) => Err(e),
            Ok(attributes) => Ok(content + attributes),
        },
    }
}

/// The declarations hoisted out of the elements nested in a complex type.
pub open spec fn complex_type_subtypes(ct: ComplexType, env: Env, names: Seq<Seq<char>>) -> Result<
    Seq<DeclView>,
    ErrorView,
>
    decreases ct, 0nat,
{
    if let Some(s) = ct.sequence {
        sequence_subtypes(s, env, names)
    } else if ct.simple_content is Some {
        Ok(Seq::empty())
    } else if let Some(cc) = ct.complex_content {
        extension_subtypes(cc.extension, env, names)
    } else {
        Ok(Seq::empty())
    }
}

/// The declarations of a named complex type: its own, called by its
/// qualified name, then those hoisted out of it. What is nested in the
/// complex type is named in the context extended by its name.
pub open spec fn complex_type_decls(ct: ComplexType, env: Env, names: Seq<Seq<char>>) -> Result<
    Seq<DeclView>,
    ErrorView,
> {
    let inner = names.push(ct.name@);
    match complex_type_fields(ct, env.schema_prefix, env.wire_prefix, inner) {
        Err(e) => Err(e),
        Ok(fields) => match complex_type_subtypes(ct, env, inner) {
            Err(e) => Err(e),
            Ok(hoisted) => Ok(
                seq![
                    DeclView {
                        name: qualified_name(names, ct.name@),
                        fields,
                        docs: documentation_of(ct.annotation),
                        namespace: env.namespace,
                        placement: env.placement,
                    },
                ] + hoisted,
            ),
        },
    }
}

/// Compiling the fields of a complex type never fails on the configuration.
pub proof fn lemma_complex_type_fields_fail_on_nodes(
    ct: ComplexType,
    schema_prefix: Option<Seq<char>>,
    wire_prefix: Option<Seq<char>>,
    names: Seq<Seq<char>>,
)
    ensures
        fails_only_on_nodes(complex_type_fields(ct, schema_prefix, wire_prefix, names)),
{
    lemma_attributes_fail_on_nodes(ct.attributes@, ct.attributes@.len(), schema_prefix);
    if let Some(s) = ct.sequence {
        lemma_elements_fields_fail_on_nodes(
            s.elements@,
            s.elements@.len(),
            schema_prefix,
            wire_prefix,
            names,
        );
    } else if let Some(sc) = ct.simple_content {
        let x = sc.extension;
        lemma_attributes_fail_on_nodes(x.attributes@, x.attributes@.len(), schema_prefix);
    } else if let Some(cc) = ct.complex_content {
        let x = cc.extension;
        lemma_attributes_fail_on_nodes(x.attributes@, x.attributes@.len(), schema_prefix);
        lemma_sequences_fields_fail_on_nodes(
            x.sequences@,
            x.sequences@.len(),
            schema_prefix,
            wire_prefix,
            names,
        );
    }
}

/// Compiling the declarations hoisted out of a complex type never fails on
/// the configuration.
pub proof fn lemma_complex_type_subtypes_fail_on_nodes(
    ct: ComplexType,
    env: Env,
    names: Seq<Seq<char>>,
)
    ensures
        fails_only_on_nodes(complex_type_subtypes(ct, env, names)),
    decreases ct, 0nat,
{
    if let Some(s) = ct.sequence {
        lemma_elements_subtypes_fail_on_nodes(s.elements@, s.elements@.len(), env, names);
    } else if ct.simple_content is Some {
    } else if let Some(cc) = ct.complex_content {
        let x = cc.extension;
        lemma_sequences_subtypes_fail_on_nodes(x.sequences@, x.sequences@.len(), env, names);
    }
}

/// Compiling a named complex type never fails on the configuration.
pub proof fn lemma_complex_type_decls_fail_on_nodes(ct: ComplexType, env: Env, names: Seq<Seq<char>>)
    ensures
        fails_only_on_nodes(complex_type_decls(ct, env, names)),
{
    let inner = names.push(ct.name@);
    lemma_complex_type_fields_fail_on_nodes(ct, env.schema_prefix, env.wire_prefix, inner);
    lemma_complex_type_subtypes_fail_on_nodes(ct, env, inner);
}

impl ComplexType {
    /// Which content model the complex type is compiled by.
    pub fn content_kind(&self) -> (r: ContentKind)
        ensures
            r == content_kind(*self),
    {
        if self.sequence.is_some() {
            ContentKind::Sequence
        } else if self.simple_content.is_some() {
            ContentKind::SimpleContent
        } else if self.complex_content.is_some() {
            ContentKind::ComplexContent
        } else {
            ContentKind::Empty
        }
    }

    /// Whether the complex type only wraps a primitive value.
    pub fn is_text_content(&self, context: &XsdContext) -> (r: bool)
        ensures
            r == is_text_content(*self, context@),
    {
        if self.sequence.is_some() {
            false
        } else {
            match &self.simple_content {
                Some(sc) => RustTypesMapping::get(context, sc.extension.base.as_str()).is_primitive(),
                None => false,
            }
        }
    }

    /// Compiles a named complex type into its declaration and those hoisted
    /// out of it.
    pub fn implement(
        &self,
        namespace_definition: &Option<Namespace>,
        prefix: &Option<String>,
        context: &XsdContext,
        sub_types_name_prefix: &NameContext,
        placement: Placement,
    ) -> (r: Result<Vec<GeneratedTypeDecl>, CompileError>)
        ensures
            decls_outcome(r) == complex_type_decls(
                *self,
                env_of(*namespace_definition, *prefix, *context, placement),
                sub_types_name_prefix@,
            ),
            r matches Ok(decls) ==> closed(decls_view(decls@)),
    {
        proof {
            lemma_complex_type_decls_closed(
                *self,
                env_of(*namespace_definition, *prefix, *context, placement),
                sub_types_name_prefix@,
            );
        }
        let inner = sub_types_name_prefix.extend(self.name.as_str());
        let fields = self.get_field_implementation(context, prefix, &inner)?;
        let hoisted = self.get_sub_types_implementation(
            context,
            namespace_definition,
            prefix,
            &inner,
            placement,
        )?;
        let decl = GeneratedTypeDecl {
            name: sub_types_name_prefix.qualify(self.name.as_str()),
            fields,
            docs: implement_annotation(&self.annotation),
            namespace: clone_namespace(namespace_definition),
            placement,
        };
        let mut out: Vec<GeneratedTypeDecl> = Vec::new();
        out.push(decl);
        assert(decls_view(out@) =~= seq![decl@]);
        append_decls(&mut out, hoisted);
        Ok(out)
    }

    /// Compiles the complex type into the fields of the enclosing
    /// declaration: those of the content model, then the attributes.
    pub fn get_field_implementation(
        &self,
        context: &XsdContext,
        prefix: &Option<String>,
        sub_type_name_prefix: &NameContext,
    ) -> (r: Result<Vec<GeneratedField>, CompileError>)
        ensures
            fields_outcome(r) == complex_type_fields(
                *self,
                context@,
                optional_view(*prefix),
                sub_type_name_prefix@,
            ),
    {
        let mut out = if let Some(s) = &self.sequence {
            s.implement(prefix, context, sub_type_name_prefix)?
        } else if let Some(sc) = &self.simple_content {
            sc.implement(context)?
        } else if let Some(cc) = &self.complex_content {
            cc.get_field_implementation(context, prefix, sub_type_name_prefix)?
        } else {
            Vec::new()
        };
        let attributes = implement_attributes(&self.attributes, context)?;
        append_fields(&mut out, attributes);
        Ok(out)
    }

    /// Compiles the declarations hoisted out of the elements nested in the
    /// complex type.
    pub fn get_sub_types_implementation(
        &self,
        context: &XsdContext,
        namespace_definition: &Option<Namespace>,
        prefix: &Option<String>,
        sub_types_name_prefix: &NameContext,
        placement: Placement,
    ) -> (r: Result<Vec<GeneratedTypeDecl>, CompileError>)
        ensures
            decls_outcome(r) == complex_type_subtypes(
                *self,
                env_of(*namespace_definition, *prefix, *context, placement),
                sub_types_name_prefix@,
            ),
        decreases self, 0nat,
    {
        if let Some(s) = &self.sequence {
            s.get_sub_types_implementation(
                context,
                namespace_definition,
                prefix,
                sub_types_name_prefix,
                placement,
            )
        } else if self.simple_content.is_some() {
            let empty: Vec<GeneratedTypeDecl> = Vec::new();
            assert(decls_view(empty@) =~= Seq::<DeclView>::empty());
            Ok(empty)
        } else if let Some(cc) = &self.complex_content {
            cc.get_sub_types_implementation(
                context,
                namespace_definition,
                prefix,
                sub_types_name_prefix,
                placement,
            )
        } else {
            let empty: Vec<GeneratedTypeDecl> = Vec::new();
            assert(decls_view(empty@) =~= Seq::<DeclView>::empty());
            Ok(empty)
        }
    }

    /// The type of the field whose element, called `parent_name`, holds this
    /// anonymous complex type.
    pub fn get_integrated_implementation(
        &self,
        parent_name: &str,
        context: &XsdContext,
        sub_type_name_prefix: &NameContext,
    ) -> (r: TypeRef)
        ensures
            r@ == integrated_type(*self, parent_name@, context@, sub_type_name_prefix@),
    {
        if self.is_text_content(context) {
            TypeRef::Primitive(Primitive::Str)
        } else {
            TypeRef::Declared(sub_type_name_prefix.qualify(parent_name))
        }
    }
}

} // verus!
