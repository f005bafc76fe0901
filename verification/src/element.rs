//! Elements: the field compiler, and the declarations that elements give.
//!
//! Inside a sequence an element becomes one field of the enclosing
//! declaration. At the top level of a schema, and wherever it holds an
//! anonymous complex type that is more than a wrapped primitive, an element
//! also gives a declaration of its own.

use crate::annotation::documentation_of;
use crate::annotation::implement_annotation;
use crate::annotation::Annotation;
use crate::complex_type::complex_type_fields;
use crate::complex_type::complex_type_subtypes;
use crate::complex_type::integrated_type;
use crate::complex_type::is_text_content;
use crate::complex_type::lemma_complex_type_fields_fail_on_nodes;
use crate::complex_type::lemma_complex_type_subtypes_fail_on_nodes;
use crate::complex_type::ComplexType;
use crate::context::env_of;
use crate::context::joined;
use crate::context::lemma_raw_names_differ;
use crate::context::qualified_name;
use crate::context::raw_name;
use crate::context::Env;
use crate::context::NameContext;
use crate::context::XsdContext;
use crate::max_occurences::MaxOccurences;
use crate::model::append_decls;
use crate::model::clone_namespace;
use crate::model::content_field;
use crate::model::decls_outcome;
use crate::model::decls_view;
use crate::model::fails_only_on_nodes;
use crate::model::field_outcome;
use crate::model::fields_view;
use crate::model::make_content_field;
use crate::model::type_outcome;
use crate::model::Cardinality;
use crate::model::CompileError;
use crate::model::DeclView;
use crate::model::ErrorView;
use crate::model::FieldView;
use crate::model::GeneratedField;
use crate::model::GeneratedTypeDecl;
use crate::model::Namespace;
use crate::model::Placement;
use crate::model::Role;
use crate::model::TypeRef;
use crate::model::TypeRefView;
use crate::naming::field_identifier;
use crate::naming::field_name;
use crate::naming::kind_word;
use crate::references::closed;
use crate::references::lemma_element_decls_closed;
use crate::rust_types_mapping::resolve;
use crate::rust_types_mapping::RustTypesMapping;
use crate::simple_type::simple_type_ref;
use crate::simple_type::SimpleType;
use crate::text::camel_case_of;
use crate::text::clone_optional;
use crate::text::dots_to_underscores;
use crate::text::optional_view;
use crate::text::spells_type;
use vstd::prelude::*;

verus! {

/// An element declaration.
#[derive(Debug, Default, PartialEq)]
pub struct Element {
    pub name: String,
    pub kind: Option<String>,
    pub refers: Option<String>,
    pub min_occurences: Option<u64>,
    pub max_occurences: Option<MaxOccurences>,
    pub complex_type: Option<ComplexType>,
    pub simple_type: Option<SimpleType>,
    pub annotation: Option<Annotation>,
}

/// Whether an element may occur more than once: `maxOccurs` is present and
/// is `unbounded` or a number above 1.
pub open spec fn element_multiple(e: Element) -> bool {
    match e.max_occurences {
        Some(m) => m.admits_many(),
        None => false,
    }
}

/// The cardinality of an element's field: a list where the element may
/// occur more than once, whatever `minOccurs` says; else optional where
/// `minOccurs` is 0; else required.
pub open spec fn element_cardinality(e: Element) -> Cardinality {
    if element_multiple(e) {
        Cardinality::List
    } else if e.min_occurences == Some(0u64) {
        Cardinality::Optional
    } else {
        Cardinality::Required
    }
}

/// The type of one occurrence of an element: that of its inline complex
/// type, else that of its inline simple type, else what its type reference
/// resolves to. An element with none of the three has no type.
pub open spec fn element_type(
    e: Element,
    schema_prefix: Option<Seq<char>>,
    names: Seq<Seq<char>>,
) -> Result<TypeRefView, ErrorView> {
    if let Some(ct) = e.complex_type {
        Ok(integrated_type(ct, e.name@, schema_prefix, names))
    } else if let Some(st) = e.simple_type {
        simple_type_ref(st, schema_prefix, e.name@)
    } else if let Some(kind) = e.kind {
        Ok(resolve(schema_prefix, kind@))
    } else {
        Err(ErrorView::UnresolvedElementType(e.name@))
    }
}

/// The field that stands for an element in the enclosing declaration. An
/// element without a name gives no field and no error.
pub open spec fn element_field(
    e: Element,
    schema_prefix: Option<Seq<char>>,
    wire_prefix: Option<Seq<char>>,
    names: Seq<Seq<char>>,
) -> Result<Option<FieldView>, ErrorView> {
    if e.name@.len() == 0 {
        Ok(None)
    } else {
        match element_type(e, schema_prefix, names) {
            Err(err) => Err(err),
            Ok(kind) => Ok(
                Some(
                    FieldView {
                        ident: field_identifier(e.name@, element_multiple(e)),
                        kind,
                        cardinality: element_cardinality(e),
                        role: Role::Element,
                        rename: Some(e.name@),
                        prefix: wire_prefix,
                    },
                ),
            ),
        }
    }
}

/// The fields of the first `n` elements of a list, in order. The first
/// element that fails decides the error.
pub open spec fn elements_fields(
    elements: Seq<Element>,
    n: nat,
    schema_prefix: Option<Seq<char>>,
    wire_prefix: Option<Seq<char>>,
    names: Seq<Seq<char>>,
) -> Result<Seq<FieldView>, ErrorView>
    decreases n,
{
    if n == 0 || n > elements.len() {
        Ok(Seq::empty())
    } else {
        match elements_fields(elements, (n - 1) as nat, schema_prefix, wire_prefix, names) {
            Err(err) => Err(err),
            Ok(fields) => match element_field(elements[n - 1], schema_prefix, wire_prefix, names) {
                Err(err) => Err(err),
                Ok(Some(f)) => Ok(fields.push(f)),
                Ok(None) => Ok(fields),
            },
        }
    }
}

/// Once an element has failed, the elements behind it change nothing.
pub proof fn lemma_elements_fields_error_stays(
    elements: Seq<Element>,
    k: nat,
    n: nat,
    schema_prefix: Option<Seq<char>>,
    wire_prefix: Option<Seq<char>>,
    names: Seq<Seq<char>>,
)
    requires
        k <= n <= elements.len(),
        elements_fields(elements, k, schema_prefix, wire_prefix, names) is Err,
    ensures
        elements_fields(elements, n, schema_prefix, wire_prefix, names) == elements_fields(
            elements,
            k,
            schema_prefix,
            wire_prefix,
            names,
        ),
    decreases n - k,
{
    if k < n {
        lemma_elements_fields_error_stays(
            elements,
            k,
            (n - 1) as nat,
            schema_prefix,
            wire_prefix,
            names,
        );
    }
}

/// The fields of a list of elements are compiled exactly where every
/// element compiles. Where one fails, the error is that of the first
/// element that fails.
pub proof fn lemma_elements_fields_outcome(
    elements: Seq<Element>,
    n: nat,
    schema_prefix: Option<Seq<char>>,
    wire_prefix: Option<Seq<char>>,
    names: Seq<Seq<char>>,
)
    requires
        n <= elements.len(),
    ensures
        elements_fields(elements, n, schema_prefix, wire_prefix, names) is Ok <==> forall|i: int|
            0 <= i < n ==> (#[trigger] element_field(
                elements[i],
                schema_prefix,
                wire_prefix,
                names,
            )) is Ok,
        elements_fields(elements, n, schema_prefix, wire_prefix, names) matches Err(e)
            ==> exists|i: int|
            0 <= i < n && (#[trigger] element_field(elements[i], schema_prefix, wire_prefix, names))
                == Err::<Option<FieldView>, ErrorView>(e) && forall|j: int|
                0 <= j < i ==> (#[trigger] element_field(
                    elements[j],
                    schema_prefix,
                    wire_prefix,
                    names,
                )) is Ok,
    decreases n,
{
    if n > 0 {
        let m = (n - 1) as nat;
        lemma_elements_fields_outcome(elements, m, schema_prefix, wire_prefix, names);
        let head = elements_fields(elements, m, schema_prefix, wire_prefix, names);
        let last = element_field(elements[n - 1], schema_prefix, wire_prefix, names);
        if head is Ok {
            if let Err(e) = last {
            }
        } else {
            let e = head->Err_0;
            let i = choose|i: int|
                0 <= i < m && (#[trigger] element_field(
                    elements[i],
                    schema_prefix,
                    wire_prefix,
                    names,
                )) == Err::<Option<FieldView>, ErrorView>(e) && forall|j: int|
                    0 <= j < i ==> (#[trigger] element_field(
                        elements[j],
                        schema_prefix,
                        wire_prefix,
                        names,
                    )) is Ok;
        }
    }
}

/// Document order is kept: where every element of a list has a name and
/// compiles, the list gives one field for each element, at the element's
/// own position.
pub proof fn lemma_elements_fields_in_order(
    elements: Seq<Element>,
    n: nat,
    schema_prefix: Option<Seq<char>>,
    wire_prefix: Option<Seq<char>>,
    names: Seq<Seq<char>>,
)
    requires
        n <= elements.len(),
        forall|i: int|
            0 <= i < n ==> (#[trigger] element_field(
                elements[i],
                schema_prefix,
                wire_prefix,
                names,
            )) matches Ok(Some(_)),
    ensures
        elements_fields(elements, n, schema_prefix, wire_prefix, names) matches Ok(fields)
            && fields.len() == n && forall|i: int|
            0 <= i < n ==> Ok::<Option<FieldView>, ErrorView>(Some(#[trigger] fields[i]))
                == element_field(elements[i], schema_prefix, wire_prefix, names),
    decreases n,
{
    if n > 0 {
        lemma_elements_fields_in_order(
            elements,
            (n - 1) as nat,
            schema_prefix,
            wire_prefix,
            names,
        );
    }
}

/// The fields of the declaration that an element gives: those of its inline
/// complex type, compiled in the context extended by the element's name;
/// for an element without one, a single `content` field of its type.
pub open spec fn element_own_fields(e: Element, env: Env, names: Seq<Seq<char>>) -> Result<
    Seq<FieldView>,
    ErrorView,
> {
    if let Some(ct) = e.complex_type {
        complex_type_fields(ct, env.schema_prefix, env.wire_prefix, names.push(e.name@))
    } else {
        match element_type(e, env.schema_prefix, names) {
            Err(err) => Err(err),
            Ok(kind) => Ok(seq![content_field(kind)]),
        }
    }
}

/// The declarations that an element gives: its own, called by its qualified
/// name, then those hoisted out of its inline complex type.
pub open spec fn element_decls(e: Element, env: Env, names: Seq<Seq<char>>) -> Result<
    Seq<DeclView>,
    ErrorView,
>
    decreases e, 0nat,
{
    match element_own_fields(e, env, names) {
        Err(err) => Err(err),
        Ok(fields) => {
            let nested = if let Some(ct) = e.complex_type {
                complex_type_subtypes(ct, env, names.push(e.name@))
            } else {
                Ok(Seq::empty())
            };
            match nested {
                Err(err) => Err(err),
                Ok(hoisted) => Ok(
                    seq![
                        DeclView {
                            name: qualified_name(names, e.name@),
                            fields,
                            docs: documentation_of(e.annotation),
                            namespace: env.namespace,
                            placement: env.placement,
                        },
                    ] + hoisted,
                ),
            }
        },
    }
}

/// Whether an element nested in a sequence is hoisted into a declaration of
/// its own: it has a name and an inline complex type that is more than a
/// wrapped primitive. These are the elements whose field refers to a
/// declared type.
pub open spec fn element_hoisted(e: Element, schema_prefix: Option<Seq<char>>) -> bool {
    &&& e.name@.len() > 0
    &&& e.complex_type matches Some(ct)
    &&& !is_text_content(ct, schema_prefix)
}

/// The declarations that a nested element adds to the output: its own and
/// all below it where it is hoisted, none otherwise.
pub open spec fn element_subtypes(e: Element, env: Env, names: Seq<Seq<char>>) -> Result<
    Seq<DeclView>,
    ErrorView,
>
    decreases e, 1nat,
{
    if element_hoisted(e, env.schema_prefix) {
        element_decls(e, env, names)
    } else {
        Ok(Seq::empty())
    }
}

/// The declarations that the first `n` elements of a list add to the
/// output, in order.
pub open spec fn elements_subtypes(
    elements: Seq<Element>,
    n: nat,
    env: Env,
    names: Seq<Seq<char>>,
) -> Result<Seq<DeclView>, ErrorView>
    decreases elements, n,
{
    if n == 0 || n > elements.len() {
        Ok(Seq::empty())
    } else {
        match elements_subtypes(elements, (n - 1) as nat, env, names) {
            Err(err) => Err(err),
            Ok(decls) => match element_subtypes(elements[n - 1], env, names) {
                Err(err) => Err(err),
                Ok(more) => Ok(decls + more),
            },
        }
    }
}

/// Once an element has failed, the elements behind it change nothing.
pub proof fn lemma_elements_subtypes_error_stays(
    elements: Seq<Element>,
    k: nat,
    n: nat,
    env: Env,
    names: Seq<Seq<char>>,
)
    requires
        k <= n <= elements.len(),
        elements_subtypes(elements, k, env, names) is Err,
    ensures
        elements_subtypes(elements, n, env, names) == elements_subtypes(elements, k, env, names),
    decreases n - k,
{
    if k < n {
        lemma_elements_subtypes_error_stays(elements, k, (n - 1) as nat, env, names);
    }
}

/// Compiling the fields of elements never fails on the configuration.
pub proof fn lemma_elements_fields_fail_on_nodes(
    elements: Seq<Element>,
    n: nat,
    schema_prefix: Option<Seq<char>>,
    wire_prefix: Option<Seq<char>>,
    names: Seq<Seq<char>>,
)
    ensures
        fails_only_on_nodes(elements_fields(elements, n, schema_prefix, wire_prefix, names)),
    decreases n,
{
    if n > 0 {
        lemma_elements_fields_fail_on_nodes(
            elements,
            (n - 1) as nat,
            schema_prefix,
            wire_prefix,
            names,
        );
    }
}

/// Compiling an element into its declarations never fails on the
/// configuration.
pub proof fn lemma_element_decls_fail_on_nodes(e: Element, env: Env, names: Seq<Seq<char>>)
    ensures
        fails_only_on_nodes(element_decls(e, env, names)),
        fails_only_on_nodes(element_subtypes(e, env, names)),
    decreases e, 0nat,
{
    if let Some(ct) = e.complex_type {
        let inner = names.push(e.name@);
        lemma_complex_type_fields_fail_on_nodes(ct, env.schema_prefix, env.wire_prefix, inner);
        lemma_complex_type_subtypes_fail_on_nodes(ct, env, inner);
    }
}

/// Compiling the declarations hoisted out of elements never fails on the
/// configuration.
pub proof fn lemma_elements_subtypes_fail_on_nodes(
    elements: Seq<Element>,
    n: nat,
    env: Env,
    names: Seq<Seq<char>>,
)
    ensures
        fails_only_on_nodes(elements_subtypes(elements, n, env, names)),
    decreases elements, n,
{
    if 0 < n <= elements.len() {
        lemma_elements_subtypes_fail_on_nodes(elements, (n - 1) as nat, env, names);
        lemma_element_decls_fail_on_nodes(elements[n - 1], env, names);
    }
}

/// An element whose name spells `type`, in any case, and that occurs at
/// most once gives a field called `kind`, in whatever context it is nested.
pub proof fn lemma_type_element_is_kind(
    e: Element,
    schema_prefix: Option<Seq<char>>,
    wire_prefix: Option<Seq<char>>,
    names: Seq<Seq<char>>,
)
    requires
        spells_type(e.name@),
        !element_multiple(e),
    ensures
        element_field(e, schema_prefix, wire_prefix, names) matches Ok(o) ==> o matches Some(f)
            && f.ident == kind_word(),
{
}

/// An element whose name spells `type`, in any case, and that may occur
/// more than once gives a field called `kinds`: the plural `s` follows the
/// replaced word too.
pub proof fn lemma_repeated_type_element_is_kinds(
    e: Element,
    schema_prefix: Option<Seq<char>>,
    wire_prefix: Option<Seq<char>>,
    names: Seq<Seq<char>>,
)
    requires
        spells_type(e.name@),
        element_multiple(e),
    ensures
        element_field(e, schema_prefix, wire_prefix, names) matches Ok(o) ==> o matches Some(f)
            && f.ident == kind_word().push('s'),
{
}

/// An element with `maxOccurs="unbounded"` gives a list, whatever its
/// `minOccurs`: a list is never made optional.
pub proof fn lemma_unbounded_is_list(
    e: Element,
    schema_prefix: Option<Seq<char>>,
    wire_prefix: Option<Seq<char>>,
    names: Seq<Seq<char>>,
)
    requires
        e.max_occurences == Some(MaxOccurences::Unbounded),
    ensures
        element_cardinality(e) == Cardinality::List,
        element_field(e, schema_prefix, wire_prefix, names) matches Ok(Some(f))
            ==> f.cardinality == Cardinality::List,
{
}

/// An element with `minOccurs="0"` whose `maxOccurs` is absent or 1 gives
/// an optional field.
pub proof fn lemma_zero_or_one_is_optional(
    e: Element,
    schema_prefix: Option<Seq<char>>,
    wire_prefix: Option<Seq<char>>,
    names: Seq<Seq<char>>,
)
    requires
        e.min_occurences == Some(0u64),
        e.max_occurences is None || e.max_occurences == Some(MaxOccurences::Number { value: 1 }),
    ensures
        element_cardinality(e) == Cardinality::Optional,
        element_field(e, schema_prefix, wire_prefix, names) matches Ok(Some(f))
            ==> f.cardinality == Cardinality::Optional,
{
}

/// An element whose `minOccurs` is absent or at least 1 and whose
/// `maxOccurs` is absent or 1 gives a required field.
pub proof fn lemma_exactly_one_is_required(
    e: Element,
    schema_prefix: Option<Seq<char>>,
    wire_prefix: Option<Seq<char>>,
    names: Seq<Seq<char>>,
)
    requires
        e.min_occurences matches Some(m) ==> m >= 1,
        e.max_occurences is None || e.max_occurences == Some(MaxOccurences::Number { value: 1 }),
    ensures
        element_cardinality(e) == Cardinality::Required,
        element_field(e, schema_prefix, wire_prefix, names) matches Ok(Some(f))
            ==> f.cardinality == Cardinality::Required,
{
}

/// The field of a hoisted element refers to the declaration that the
/// element gives: both carry the element's qualified name.
pub proof fn lemma_field_refers_to_hoisted_declaration(e: Element, env: Env, names: Seq<Seq<char>>)
    requires
        element_hoisted(e, env.schema_prefix),
    ensures
        element_field(e, env.schema_prefix, env.wire_prefix, names) matches Ok(Some(f))
            && f.kind == TypeRefView::Declared(qualified_name(names, e.name@)),
        element_subtypes(e, env, names) matches Ok(decls) ==> decls.len() >= 1 && decls[0].name
            == qualified_name(names, e.name@),
{
}

/// An element that is not hoisted adds no declaration, and its field refers
/// to none.
pub proof fn lemma_plain_element_declares_nothing(e: Element, env: Env, names: Seq<Seq<char>>)
    requires
        !element_hoisted(e, env.schema_prefix),
    ensures
        element_subtypes(e, env, names) == Ok::<Seq<DeclView>, ErrorView>(Seq::empty()),
        element_field(e, env.schema_prefix, env.wire_prefix, names) matches Ok(Some(f))
            ==> !(f.kind is Declared),
{
    if let Some(st) = e.simple_type {
    }
}

/// Two hoisted elements with one local name, nested under chains that spell
/// different names, are declared under the case conversions of two
/// different raw names. Their declarations collide only where case
/// conversion gives two different raw names one form.
pub proof fn lemma_hoisted_names_differ(
    e1: Element,
    e2: Element,
    env: Env,
    a: Seq<Seq<char>>,
    b: Seq<Seq<char>>,
)
    requires
        e1.name@ == e2.name@,
        joined(a) != joined(b),
        element_hoisted(e1, env.schema_prefix),
        element_hoisted(e2, env.schema_prefix),
    ensures
        raw_name(a, e1.name@) != raw_name(b, e2.name@),
        element_subtypes(e1, env, a) matches Ok(d1) ==> d1[0].name == camel_case_of(
            dots_to_underscores(raw_name(a, e1.name@)),
        ),
        element_subtypes(e2, env, b) matches Ok(d2) ==> d2[0].name == camel_case_of(
            dots_to_underscores(raw_name(b, e2.name@)),
        ),
{
    lemma_raw_names_differ(a, b, e1.name@);
    lemma_field_refers_to_hoisted_declaration(e1, env, a);
    lemma_field_refers_to_hoisted_declaration(e2, env, b);
}

impl Element {
    /// Whether the element may occur more than once.
    pub fn is_multiple(&self) -> (r: bool)
        ensures
            r == element_multiple(*self),
    {
        match &self.max_occurences {
            Some(m) => m.is_multiple(),
            None => false,
        }
    }

    /// The cardinality of the element's field.
    pub fn cardinality(&self) -> (r: Cardinality)
        ensures
            r == element_cardinality(*self),
            self.max_occurences == Some(MaxOccurences::Unbounded) ==> r == Cardinality::List,
    {
        if self.is_multiple() {
            Cardinality::List
        } else {
            match self.min_occurences {
                Some(0) => Cardinality::Optional,
                _ => Cardinality::Required,
            }
        }
    }

    /// Resolves the type of one occurrence of the element.
    pub fn get_type_implementation(
        &self,
        context: &XsdContext,
        sub_type_name_prefix: &NameContext,
    ) -> (r: Result<TypeRef, CompileError>)
        ensures
            type_outcome(r) == element_type(*self, context@, sub_type_name_prefix@),
            r is Err <==> self.complex_type is None && (match self.simple_type {
                Some(st) => st.restriction is None,
                None => self.kind is None,
            }),
    {
        if let Some(ct) = &self.complex_type {
            Ok(ct.get_integrated_implementation(self.name.as_str(), context, sub_type_name_prefix))
        } else if let Some(st) = &self.simple_type {
            st.get_type_implementation(context, self.name.as_str())
        } else if let Some(kind) = &self.kind {
            Ok(RustTypesMapping::get(context, kind.as_str()))
        } else {
            Err(CompileError::UnresolvedElementType(self.name.clone()))
        }
    }

    /// Compiles the element into the declaration that it gives, followed by
    /// the declarations hoisted out of its inline complex type.
    pub fn implement(
        &self,
        namespace_definition: &Option<Namespace>,
        prefix: &Option<String>,
        context: &XsdContext,
        name_prefix: &NameContext,
        placement: Placement,
    ) -> (r: Result<Vec<GeneratedTypeDecl>, CompileError>)
        ensures
            decls_outcome(r) == element_decls(
                *self,
                env_of(*namespace_definition, *prefix, *context, placement),
                name_prefix@,
            ),
            r matches Ok(decls) ==> closed(decls_view(decls@)),
        decreases self, 0nat,
    {
        proof {
            lemma_element_decls_closed(
                *self,
                env_of(*namespace_definition, *prefix, *context, placement),
                name_prefix@,
            );
        }
        let (fields, hoisted) = if let Some(ct) = &self.complex_type {
            let inner = name_prefix.extend(self.name.as_str());
            let fields = ct.get_field_implementation(context, prefix, &inner)?;
            let hoisted = ct.get_sub_types_implementation(
                context,
                namespace_definition,
                prefix,
                &inner,
                placement,
            )?;
            (fields, hoisted)
        } else {
            let kind = self.get_type_implementation(context, name_prefix)?;
            let mut fields: Vec<GeneratedField> = Vec::new();
            fields.push(make_content_field(kind));
            assert(fields_view(fields@) =~= seq![content_field(kind@)]);
            let hoisted: Vec<GeneratedTypeDecl> = Vec::new();
            (fields, hoisted)
        };
        let decl = GeneratedTypeDecl {
            name: name_prefix.qualify(self.name.as_str()),
            fields,
            docs: implement_annotation(&self.annotation),
            namespace: clone_namespace(namespace_definition),
            placement,
        };
        let mut out: Vec<GeneratedTypeDecl> = Vec::new();
        out.push(decl);
        assert(decls_view(out@) =~= seq![decl@]);
        append_decls(&mut out, hoisted);
        Ok(out)
    }

    /// Whether the element, nested in a sequence, is hoisted into a
    /// declaration of its own.
    pub fn is_hoisted(&self, context: &XsdContext) -> (r: bool)
        ensures
            r == element_hoisted(*self, context@),
    {
        if self.name.as_str().unicode_len() == 0 {
            false
        } else {
            match &self.complex_type {
                Some(ct) => !ct.is_text_content(context),
                None => false,
            }
        }
    }

    /// Compiles the declarations that the element, nested in a sequence,
    /// adds to the output.
    pub fn get_subtypes_implementation(
        &self,
        namespace_definition: &Option<Namespace>,
        prefix: &Option<String>,
        context: &XsdContext,
        sub_types_name_prefix: &NameContext,
        placement: Placement,
    ) -> (r: Result<Vec<GeneratedTypeDecl>, CompileError>)
        ensures
            decls_outcome(r) == element_subtypes(
                *self,
                env_of(*namespace_definition, *prefix, *context, placement),
                sub_types_name_prefix@,
            ),
        decreases self, 1nat,
    {
        if !self.is_hoisted(context) {
            let empty: Vec<GeneratedTypeDecl> = Vec::new();
            assert(decls_view(empty@) =~= Seq::<DeclView>::empty());
            return Ok(empty);
        }
        self.implement(namespace_definition, prefix, context, sub_types_name_prefix, placement)
    }

    /// Compiles the element into the field that stands for it in the
    /// enclosing declaration.
    pub fn get_field_implementation(
        &self,
        context: &XsdContext,
        prefix: &Option<String>,
        sub_type_name_prefix: &NameContext,
    ) -> (r: Result<Option<GeneratedField>, CompileError>)
        ensures
            field_outcome(r) == element_field(
                *self,
                context@,
                optional_view(*prefix),
                sub_type_name_prefix@,
            ),
            r matches Ok(None) <==> self.name@.len() == 0,
            r is Err <==> self.name@.len() > 0 && element_type(
                *self,
                context@,
                sub_type_name_prefix@,
            ) is Err,
    {
        if self.name.as_str().unicode_len() == 0 {
            return Ok(None);
        }
        let multiple = self.is_multiple();
        let ident = field_name(self.name.as_str(), multiple);
        let kind = self.get_type_implementation(context, sub_type_name_prefix)?;
        Ok(
            Some(
                GeneratedField {
                    ident,
                    kind,
                    cardinality: self.cardinality(),
                    role: Role::Element,
                    rename: Some(self.name.clone()),
                    prefix: clone_optional(prefix),
                },
            ),
        )
    }
}

} // verus!
