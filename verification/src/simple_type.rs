//! Simple types: values without structure, derived from another type by
//! restriction.

use crate::context::qualified_name;
use crate::context::NameContext;
use crate::context::XsdContext;
use crate::model::clone_namespace;
use crate::model::content_field;
use crate::model::decl_outcome;
use crate::model::make_content_field;
use crate::model::namespace_view;
use crate::model::type_outcome;
use crate::model::CompileError;
use crate::model::DeclView;
use crate::model::ErrorView;
use crate::model::GeneratedField;
use crate::model::GeneratedTypeDecl;
use crate::model::Namespace;
use crate::model::NamespaceView;
use crate::model::Placement;
use crate::model::TypeRef;
use crate::model::TypeRefView;
use crate::rust_types_mapping::resolve;
use crate::rust_types_mapping::RustTypesMapping;
use vstd::prelude::*;

verus! {

/// A restriction of a base type. The facets that narrow the base type do not
/// change the type of the value and are not kept.
#[derive(Clone, Debug, Default, PartialEq)]
pub struct Restriction {
    pub base: String,
}

/// A simple type, named at the top level of a schema or anonymous inside an
/// element or attribute.
#[derive(Clone, Debug, Default, PartialEq)]
pub struct SimpleType {
    pub name: String,
    pub restriction: Option<Restriction>,
}

/// The name by which an error refers to a simple type: its own, or that of
/// the node that owns it where it is anonymous.
pub open spec fn simple_type_label(st: SimpleType, owner: Seq<char>) -> Seq<char> {
    if st.name@.len() == 0 {
        owner
    } else {
        st.name@
    }
}

/// The type of the values of a simple type: what its base resolves to. A
/// simple type without restriction cannot be classified.
pub open spec fn simple_type_ref(
    st: SimpleType,
    schema_prefix: Option<Seq<char>>,
    owner: Seq<char>,
) -> Result<TypeRefView, ErrorView> {
    match st.restriction {
        Some(r) => Ok(resolve(schema_prefix, r.base@)),
        None => Err(ErrorView::UnresolvedSimpleTypeStructure(simple_type_label(st, owner))),
    }
}

/// The declaration of a top-level simple type: one `content` field that
/// holds the value.
pub open spec fn simple_type_decl(
    st: SimpleType,
    namespace: Option<NamespaceView>,
    schema_prefix: Option<Seq<char>>,
    names: Seq<Seq<char>>,
    placement: Placement,
) -> Result<DeclView, ErrorView> {
    match simple_type_ref(st, schema_prefix, st.name@) {
        Err(e) => Err(e),
        Ok(kind) => Ok(
            DeclView {
                name: qualified_name(names, st.name@),
                fields: seq![content_field(kind)],
                docs: Seq::empty(),
                namespace,
                placement,
            },
        ),
    }
}

impl SimpleType {
    /// Resolves the type of the values of this simple type. `owner` names
    /// the node that holds the simple type, for the error of an anonymous
    /// one.
    pub fn get_type_implementation(&self, context: &XsdContext, owner: &str) -> (r: Result<
        TypeRef,
        CompileError,
    >)
        ensures
            type_outcome(r) == simple_type_ref(*self, context@, owner@),
            r is Ok <==> self.restriction is Some,
    {
        match &self.restriction {
            Some(r) => Ok(RustTypesMapping::get(context, r.base.as_str())),
            None => {
                let label = if self.name.as_str().unicode_len() == 0 {
                    owner.to_owned()
                } else {
                    self.name.clone()
                };
                Err(CompileError::UnresolvedSimpleTypeStructure(label))
            },
        }
    }

    /// Compiles a top-level simple type into its declaration.
    pub fn implement(
        &self,
        namespace_definition: &Option<Namespace>,
        context: &XsdContext,
        name_prefix: &NameContext,
        placement: Placement,
    ) -> (r: Result<GeneratedTypeDecl, CompileError>)
        ensures
            decl_outcome(r) == simple_type_decl(
                *self,
                namespace_view(*namespace_definition),
                context@,
                name_prefix@,
                placement,
            ),
            r is Ok <==> self.restriction is Some,
    {
        let kind = self.get_type_implementation(context, self.name.as_str())?;
        let mut fields: Vec<GeneratedField> = Vec::new();
        let field = make_content_field(kind);
        fields.push(field);
        let d = GeneratedTypeDecl {
            name: name_prefix.qualify(self.name.as_str()),
            fields,
            docs: Vec::new(),
            namespace: clone_namespace(namespace_definition),
            placement,
        };
        assert(d@.fields =~= seq![content_field(kind@)]);
        assert(d@.docs =~= Seq::<Seq<char>>::empty());
        Ok(d)
    }
}

} // verus!
