//! Attributes of complex types and of extensions.

use crate::context::XsdContext;
use crate::model::fails_only_on_nodes;
use crate::model::field_outcome;
use crate::model::fields_outcome;
use crate::model::fields_view;
use crate::model::lemma_fields_view_push;
use crate::model::type_outcome;
use crate::model::Cardinality;
use crate::model::CompileError;
use crate::model::ErrorView;
use crate::model::FieldView;
use crate::model::GeneratedField;
use crate::model::Primitive;
use crate::model::Role;
use crate::model::TypeRef;
use crate::model::TypeRefView;
use crate::naming::field_identifier;
use crate::naming::field_name;
use crate::rust_types_mapping::resolve;
use crate::rust_types_mapping::RustTypesMapping;
use crate::simple_type::simple_type_ref;
use crate::simple_type::SimpleType;
use crate::text::same_text;
use vstd::prelude::*;

verus! {

/// Whether an attribute must be present.
#[derive(Clone, Copy, Debug, Default, PartialEq, Eq)]
pub enum Required {
    #[default]
    Optional,
    Required,
}

/// An attribute declaration.
#[derive(Clone, Debug, Default, PartialEq)]
pub struct Attribute {
    pub name: Option<String>,
    pub kind: Option<String>,
    pub reference: Option<String>,
    pub required: Required,
    pub simple_type: Option<SimpleType>,
}

/// The name of an attribute; empty where it has none.
pub open spec fn attribute_name(a: Attribute) -> Seq<char> {
    match a.name {
        Some(n) => n@,
        None => Seq::empty(),
    }
}

/// The type of an attribute's value: what its type reference resolves to,
/// else what the referenced attribute's name resolves to, else the type of
/// its inline simple type. An attribute that says nothing of its type holds
/// a string.
pub open spec fn attribute_type(a: Attribute, schema_prefix: Option<Seq<char>>) -> Result<
    TypeRefView,
    ErrorView,
> {
    if let Some(kind) = a.kind {
        Ok(resolve(schema_prefix, kind@))
    } else if let Some(reference) = a.reference {
        Ok(resolve(schema_prefix, reference@))
    } else if let Some(st) = a.simple_type {
        simple_type_ref(st, schema_prefix, attribute_name(a))
    } else {
        Ok(TypeRefView::Primitive(Primitive::Str))
    }
}

/// The cardinality of an attribute's field.
pub open spec fn attribute_cardinality(a: Attribute) -> Cardinality {
    match a.required {
        Required::Required => Cardinality::Required,
        Required::Optional => Cardinality::Optional,
    }
}

/// The field that stands for an attribute. An attribute without a name
/// gives no field. The wire name is recorded only where the identifier
/// differs from it.
pub open spec fn attribute_field(a: Attribute, schema_prefix: Option<Seq<char>>) -> Result<
    Option<FieldView>,
    ErrorView,
> {
    let name = attribute_name(a);
    if name.len() == 0 {
        Ok(None)
    } else {
        match attribute_type(a, schema_prefix) {
            Err(e) => Err(e),
            Ok(kind) => {
                let ident = field_identifier(name, false);
                Ok(
                    Some(
                        FieldView {
                            ident,
                            kind,
                            cardinality: attribute_cardinality(a),
                            role: Role::Attribute,
                            rename: if ident == name {
                                None
                            } else {
                                Some(name)
                            },
                            prefix: None,
                        },
                    ),
                )
            },
        }
    }
}

/// The fields of the first `n` attributes of a list, in order. The first
/// attribute that fails decides the error.
pub open spec fn attributes_fields(
    attributes: Seq<Attribute>,
    n: nat,
    schema_prefix: Option<Seq<char>>,
) -> Result<Seq<FieldView>, ErrorView>
    decreases n,
{
    if n == 0 || n > attributes.len() {
        Ok(Seq::empty())
    } else {
        match attributes_fields(attributes, (n - 1) as nat, schema_prefix) {
            Err(e) => Err(e),
            Ok(fields) => match attribute_field(attributes[n - 1], schema_prefix) {
                Err(e) => Err(e),
                Ok(Some(f)) => Ok(fields.push(f)),
                Ok(None) => Ok(fields),
            },
        }
    }
}

/// Once an attribute has failed, the attributes behind it change nothing.
pub proof fn lemma_attributes_error_stays(
    attributes: Seq<Attribute>,
    k: nat,
    n: nat,
    schema_prefix: Option<Seq<char>>,
)
    requires
        k <= n <= attributes.len(),
        attributes_fields(attributes, k, schema_prefix) is Err,
    ensures
        attributes_fields(attributes, n, schema_prefix) == attributes_fields(
            attributes,
            k,
            schema_prefix,
        ),
    decreases n - k,
{
    if k < n {
        lemma_attributes_error_stays(attributes, k, (n - 1) as nat, schema_prefix);
    }
}

/// Compiling attributes never fails on the configuration.
pub proof fn lemma_attributes_fail_on_nodes(
    attributes: Seq<Attribute>,
    n: nat,
    schema_prefix: Option<Seq<char>>,
)
    ensures
        fails_only_on_nodes(attributes_fields(attributes, n, schema_prefix)),
    decreases n,
{
    if n > 0 {
        lemma_attributes_fail_on_nodes(attributes, (n - 1) as nat, schema_prefix);
    }
}

/// The fields of a list of attributes are compiled exactly where every
/// attribute compiles. Where one fails, the error is that of the first
/// attribute that fails.
pub proof fn lemma_attributes_outcome(
    attributes: Seq<Attribute>,
    n: nat,
    schema_prefix: Option<Seq<char>>,
)
    requires
        n <= attributes.len(),
    ensures
        attributes_fields(attributes, n, schema_prefix) is Ok <==> forall|i: int|
            0 <= i < n ==> (#[trigger] attribute_field(attributes[i], schema_prefix)) is Ok,
        attributes_fields(attributes, n, schema_prefix) matches Err(e) ==> exists|i: int|
            0 <= i < n && (#[trigger] attribute_field(attributes[i], schema_prefix)) == Err::<
                Option<FieldView>,
                ErrorView,
            >(e) && forall|j: int|
                0 <= j < i ==> (#[trigger] attribute_field(attributes[j], schema_prefix)) is Ok,
    decreases n,
{
    if n > 0 {
        let m = (n - 1) as nat;
        lemma_attributes_outcome(attributes, m, schema_prefix);
        let head = attributes_fields(attributes, m, schema_prefix);
        let last = attribute_field(attributes[n - 1], schema_prefix);
        if head is Ok {
            if let Err(e) = last {
            }
        } else {
            let e = head->Err_0;
            let i = choose|i: int|
                0 <= i < m && (#[trigger] attribute_field(attributes[i], schema_prefix)) == Err::<
                    Option<FieldView>,
                    ErrorView,
                >(e) && forall|j: int|
                    0 <= j < i ==> (#[trigger] attribute_field(attributes[j], schema_prefix))
                        is Ok;
        }
    }
}

impl Attribute {
    /// Resolves the type of the attribute's value.
    pub fn get_type_implementation(&self, context: &XsdContext) -> (r: Result<
        TypeRef,
        CompileError,
    >)
        ensures
            type_outcome(r) == attribute_type(*self, context@),
            r is Err <==> self.kind is None && self.reference is None && (
            self.simple_type matches Some(st) && st.restriction is None),
    {
        if let Some(kind) = &self.kind {
            Ok(RustTypesMapping::get(context, kind.as_str()))
        } else if let Some(reference) = &self.reference {
            Ok(RustTypesMapping::get(context, reference.as_str()))
        } else if let Some(st) = &self.simple_type {
            match &self.name {
                Some(n) => st.get_type_implementation(context, n.as_str()),
                None => {
                    proof {
                        reveal_strlit("");
                        assert(""@ =~= Seq::<char>::empty());
                    }
                    st.get_type_implementation(context, "")
                },
            }
        } else {
            Ok(TypeRef::Primitive(Primitive::Str))
        }
    }

    /// Compiles the attribute into its field, if it has a name.
    pub fn implement(&self, context: &XsdContext) -> (r: Result<
        Option<GeneratedField>,
        CompileError,
    >)
        ensures
            field_outcome(r) == attribute_field(*self, context@),
            r matches Ok(None) <==> attribute_name(*self).len() == 0,
            r is Err <==> attribute_name(*self).len() > 0 && attribute_type(*self, context@) is Err,
    {
        match &self.name {
            None => Ok(None),
            Some(name) => {
                if name.as_str().unicode_len() == 0 {
                    return Ok(None);
                }
                let kind = self.get_type_implementation(context)?;
                let ident = field_name(name.as_str(), false);
                let rename = if same_text(ident.as_str(), name.as_str()) {
                    None
                } else {
                    Some(name.clone())
                };
                let cardinality = match self.required {
                    Required::Required => Cardinality::Required,
                    Required::Optional => Cardinality::Optional,
                };
                Ok(
                    Some(
                        GeneratedField {
                            ident,
                            kind,
                            cardinality,
                            role: Role::Attribute,
                            rename,
                            prefix: None,
                        },
                    ),
                )
            },
        }
    }
}

/// Compiles a list of attributes into their fields, in order.
pub fn implement_attributes(attributes: &Vec<Attribute>, context: &XsdContext) -> (r: Result<
    Vec<GeneratedField>,
    CompileError,
>)
    ensures
        fields_outcome(r) == attributes_fields(attributes@, attributes@.len(), context@),
{
    let mut out: Vec<GeneratedField> = Vec::new();
    let mut i: usize = 0;
    assert(fields_view(out@) =~= Seq::<FieldView>::empty());
    while i < attributes.len()
        invariant
            i <= attributes.len(),
            attributes_fields(attributes@, i as nat, context@) == Ok::<Seq<FieldView>, ErrorView>(
                fields_view(out@),
            ),
        decreases attributes.len() - i,
    {
        match attributes[i].implement(context) {
            Err(e) => {
                proof {
                    lemma_attributes_error_stays(
                        attributes@,
                        (i + 1) as nat,
                        attributes@.len(),
                        context@,
                    );
                }
                return Err(e);
            },
            Ok(Some(f)) => {
                proof {
                    lemma_fields_view_push(out@, f);
                }
                out.push(f);
            },
            Ok(None) => {},
        }
        i += 1;
    }
    Ok(out)
}

} // verus!
