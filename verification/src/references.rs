//! References between declarations.
//!
//! A field refers to a declared type by name. The lemmas of this module
//! show that the compiler never leaves such a reference open: whatever a
//! compilation returns holds, for every field that refers to a declared
//! type, a declaration of that name.

use crate::attribute::attribute_field;
use crate::attribute::attributes_fields;
use crate::attribute::Attribute;
use crate::complex_type::complex_type_decls;
use crate::complex_type::complex_type_fields;
use crate::complex_type::complex_type_subtypes;
use crate::complex_type::content_fields;
use crate::complex_type::ComplexType;
use crate::context::Env;
use crate::element::element_decls;
use crate::element::element_field;
use crate::element::element_hoisted;
use crate::element::element_own_fields;
use crate::element::element_subtypes;
use crate::element::elements_fields;
use crate::element::elements_subtypes;
use crate::element::lemma_field_refers_to_hoisted_declaration;
use crate::element::lemma_plain_element_declares_nothing;
use crate::element::Element;
use crate::extension::flattened_base;
use crate::extension::sequences_fields;
use crate::extension::sequences_subtypes;
use crate::model::DeclView;
use crate::model::FieldView;
use crate::model::Placement;
use crate::schema::complex_types_decls;
use crate::schema::namespace_definition;
use crate::schema::schema_decls;
use crate::schema::schema_env;
use crate::schema::simple_types_decls;
use crate::schema::top_elements_decls;
use crate::schema::Schema;
use crate::sequence::sequence_fields;
use crate::sequence::sequence_subtypes;
use crate::sequence::Sequence;
use crate::simple_type::simple_type_decl;
use crate::simple_type::SimpleType;
use crate::text::optional_view;
use vstd::prelude::*;

verus! {

/// Whether a list of declarations holds one called `name`.
pub open spec fn declares(decls: Seq<DeclView>, name: Seq<char>) -> bool {
    exists|i: int| 0 <= i < decls.len() && (#[trigger] decls[i]).name == name
}

/// Whether every field of `fields` that refers to a declared type finds a
/// declaration of that name in `decls`.
pub open spec fn fields_resolved(fields: Seq<FieldView>, decls: Seq<DeclView>) -> bool {
    forall|j: int|
        0 <= j < fields.len() && (#[trigger] fields[j]).kind is Declared ==> declares(
            decls,
            fields[j].kind->Declared_0,
        )
}

/// Whether no field of `fields` refers to a declared type.
pub open spec fn refers_to_none(fields: Seq<FieldView>) -> bool {
    forall|j: int| 0 <= j < fields.len() ==> !((#[trigger] fields[j]).kind is Declared)
}

/// Whether a list of declarations is closed: every reference to a declared
/// type in any of its fields is met by a declaration of the list.
pub open spec fn closed(decls: Seq<DeclView>) -> bool {
    forall|i: int| 0 <= i < decls.len() ==> fields_resolved((#[trigger] decls[i]).fields, decls)
}

/// What a list declares, a longer list declares too.
pub proof fn lemma_declares_in_longer(a: Seq<DeclView>, b: Seq<DeclView>, name: Seq<char>)
    ensures
        declares(a, name) ==> declares(a + b, name),
        declares(b, name) ==> declares(a + b, name),
{
    if declares(a, name) {
        let i = choose|i: int| 0 <= i < a.len() && (#[trigger] a[i]).name == name;
        assert((a + b)[i] == a[i]);
    }
    if declares(b, name) {
        let i = choose|i: int| 0 <= i < b.len() && (#[trigger] b[i]).name == name;
        assert((a + b)[a.len() + i] == b[i]);
    }
}

/// Fields that are resolved in a list are resolved in a longer list.
pub proof fn lemma_resolved_in_longer(fields: Seq<FieldView>, a: Seq<DeclView>, b: Seq<DeclView>)
    ensures
        fields_resolved(fields, a) ==> fields_resolved(fields, a + b),
        fields_resolved(fields, b) ==> fields_resolved(fields, a + b),
{
    assert forall|j: int|
        0 <= j < fields.len() && (#[trigger] fields[j]).kind is Declared && (fields_resolved(
            fields,
            a,
        ) || fields_resolved(fields, b)) implies declares(a + b, fields[j].kind->Declared_0) by {
        lemma_declares_in_longer(a, b, fields[j].kind->Declared_0);
    }
}

/// Fields that refer to no declared type are resolved in any list.
pub proof fn lemma_none_is_resolved(fields: Seq<FieldView>, decls: Seq<DeclView>)
    requires
        refers_to_none(fields),
    ensures
        fields_resolved(fields, decls),
{
}

/// Two lists of fields that are resolved in a list are resolved together.
pub proof fn lemma_resolved_together(a: Seq<FieldView>, b: Seq<FieldView>, decls: Seq<DeclView>)
    requires
        fields_resolved(a, decls),
        fields_resolved(b, decls),
    ensures
        fields_resolved(a + b, decls),
{
    assert forall|j: int| 0 <= j < (a + b).len() && (#[trigger] (a + b)[j]).kind is Declared implies declares(
        decls,
        (a + b)[j].kind->Declared_0,
    ) by {
        if j >= a.len() {
            assert((a + b)[j] == b[j - a.len()]);
        }
    }
}

/// Two closed lists make a closed list.
pub proof fn lemma_closed_together(a: Seq<DeclView>, b: Seq<DeclView>)
    requires
        closed(a),
        closed(b),
    ensures
        closed(a + b),
{
    assert forall|i: int| 0 <= i < (a + b).len() implies fields_resolved(
        (#[trigger] (a + b)[i]).fields,
        a + b,
    ) by {
        if i < a.len() {
            lemma_resolved_in_longer(a[i].fields, a, b);
        } else {
            lemma_resolved_in_longer(b[i - a.len()].fields, a, b);
        }
    }
}

/// A declaration whose fields are resolved in a closed list, put before the
/// list, makes a closed list.
pub proof fn lemma_closed_with_head(head: DeclView, tail: Seq<DeclView>)
    requires
        fields_resolved(head.fields, tail),
        closed(tail),
    ensures
        closed(seq![head] + tail),
{
    let all = seq![head] + tail;
    assert forall|i: int| 0 <= i < all.len() implies fields_resolved(
        (#[trigger] all[i]).fields,
        all,
    ) by {
        if i == 0 {
            lemma_resolved_in_longer(head.fields, seq![head], tail);
        } else {
            lemma_resolved_in_longer(tail[i - 1].fields, seq![head], tail);
        }
    }
}

/// The field of an attribute never refers to a declared type.
pub proof fn lemma_attribute_refers_to_none(a: Attribute, schema_prefix: Option<Seq<char>>)
    ensures
        attribute_field(a, schema_prefix) matches Ok(Some(f)) ==> !(f.kind is Declared),
{
}

/// The fields of attributes never refer to a declared type.
pub proof fn lemma_attributes_refer_to_none(
    attributes: Seq<Attribute>,
    n: nat,
    schema_prefix: Option<Seq<char>>,
)
    ensures
        attributes_fields(attributes, n, schema_prefix) matches Ok(fields) ==> refers_to_none(
            fields,
        ),
    decreases n,
{
    if 0 < n <= attributes.len() {
        lemma_attributes_refer_to_none(attributes, (n - 1) as nat, schema_prefix);
        lemma_attribute_refers_to_none(attributes[n - 1], schema_prefix);
    }
}

/// The field of an element refers to a declared type only where the element
/// is hoisted, and then to the declaration that the element gives first.
pub proof fn lemma_element_field_is_met(e: Element, env: Env, names: Seq<Seq<char>>)
    ensures
        element_field(e, env.schema_prefix, env.wire_prefix, names) matches Ok(Some(f)) ==> (
        f.kind is Declared ==> element_hoisted(e, env.schema_prefix) && (element_subtypes(
            e,
            env,
            names,
        ) matches Ok(decls) ==> decls.len() > 0 && decls[0].name == f.kind->Declared_0)),
{
    if element_hoisted(e, env.schema_prefix) {
        lemma_field_refers_to_hoisted_declaration(e, env, names);
    } else {
        lemma_plain_element_declares_nothing(e, env, names);
    }
}

/// What the fields of a list of elements refer to is declared by what the
/// same elements hoist.
pub proof fn lemma_elements_fields_are_met(
    elements: Seq<Element>,
    n: nat,
    env: Env,
    names: Seq<Seq<char>>,
)
    ensures
        elements_fields(elements, n, env.schema_prefix, env.wire_prefix, names) matches Ok(fields)
            ==> (elements_subtypes(elements, n, env, names) matches Ok(decls) ==> fields_resolved(
            fields,
            decls,
        )),
    decreases n,
{
    if 0 < n <= elements.len() {
        let m = (n - 1) as nat;
        let e = elements[n - 1];
        lemma_elements_fields_are_met(elements, m, env, names);
        lemma_element_field_is_met(e, env, names);
        let all_fields = elements_fields(elements, n, env.schema_prefix, env.wire_prefix, names);
        let all_decls = elements_subtypes(elements, n, env, names);
        if all_fields is Ok && all_decls is Ok {
            let head_fields = elements_fields(
                elements,
                m,
                env.schema_prefix,
                env.wire_prefix,
                names,
            )->Ok_0;
            let head_decls = elements_subtypes(elements, m, env, names)->Ok_0;
            let more = element_subtypes(e, env, names)->Ok_0;
            lemma_resolved_in_longer(head_fields, head_decls, more);
            if let Some(f) = element_field(e, env.schema_prefix, env.wire_prefix, names)->Ok_0 {
                if f.kind is Declared {
                    lemma_declares_in_longer(head_decls, more, f.kind->Declared_0);
                }
                assert(fields_resolved(seq![f], head_decls + more));
                lemma_resolved_together(head_fields, seq![f], head_decls + more);
            }
        }
    }
}

/// What the fields of a list of sequences refer to is declared by what the
/// same sequences hoist.
pub proof fn lemma_sequences_fields_are_met(
    sequences: Seq<Sequence>,
    n: nat,
    env: Env,
    names: Seq<Seq<char>>,
)
    ensures
        sequences_fields(sequences, n, env.schema_prefix, env.wire_prefix, names) matches Ok(
            fields,
        ) ==> (sequences_subtypes(sequences, n, env, names) matches Ok(decls) ==> fields_resolved(
            fields,
            decls,
        )),
    decreases n,
{
    if 0 < n <= sequences.len() {
        let m = (n - 1) as nat;
        let s = sequences[n - 1];
        lemma_sequences_fields_are_met(sequences, m, env, names);
        lemma_elements_fields_are_met(s.elements@, s.elements@.len(), env, names);
        let all_fields = sequences_fields(sequences, n, env.schema_prefix, env.wire_prefix, names);
        let all_decls = sequences_subtypes(sequences, n, env, names);
        if all_fields is Ok && all_decls is Ok {
            let head_fields = sequences_fields(
                sequences,
                m,
                env.schema_prefix,
                env.wire_prefix,
                names,
            )->Ok_0;
            let head_decls = sequences_subtypes(sequences, m, env, names)->Ok_0;
            let more_fields = sequence_fields(s, env.schema_prefix, env.wire_prefix, names)->Ok_0;
            let more_decls = sequence_subtypes(s, env, names)->Ok_0;
            lemma_resolved_in_longer(head_fields, head_decls, more_decls);
            lemma_resolved_in_longer(more_fields, head_decls, more_decls);
            lemma_resolved_together(head_fields, more_fields, head_decls + more_decls);
        }
    }
}

/// What the fields of a complex type refer to is declared by what the
/// complex type hoists.
pub proof fn lemma_complex_type_fields_are_met(ct: ComplexType, env: Env, names: Seq<Seq<char>>)
    ensures
        complex_type_fields(ct, env.schema_prefix, env.wire_prefix, names) matches Ok(fields)
            ==> (complex_type_subtypes(ct, env, names) matches Ok(decls) ==> fields_resolved(
            fields,
            decls,
        )),
{
    let all_fields = complex_type_fields(ct, env.schema_prefix, env.wire_prefix, names);
    let all_decls = complex_type_subtypes(ct, env, names);
    if all_fields is Ok && all_decls is Ok {
        let decls = all_decls->Ok_0;
        let content = content_fields(ct, env.schema_prefix, env.wire_prefix, names)->Ok_0;
        let own = attributes_fields(ct.attributes@, ct.attributes@.len(), env.schema_prefix)->Ok_0;
        lemma_attributes_refer_to_none(ct.attributes@, ct.attributes@.len(), env.schema_prefix);
        lemma_none_is_resolved(own, decls);
        if let Some(s) = ct.sequence {
            lemma_elements_fields_are_met(s.elements@, s.elements@.len(), env, names);
        } else if let Some(sc) = ct.simple_content {
            let x = sc.extension;
            lemma_attributes_refer_to_none(
                x.attributes@,
                x.attributes@.len(),
                env.schema_prefix,
            );
        } else if let Some(cc) = ct.complex_content {
            let x = cc.extension;
            let added = sequences_fields(
                x.sequences@,
                x.sequences@.len(),
                env.schema_prefix,
                env.wire_prefix,
                names,
            )->Ok_0;
            let attributes = attributes_fields(
                x.attributes@,
                x.attributes@.len(),
                env.schema_prefix,
            )->Ok_0;
            let base = seq![flattened_base(x, env.schema_prefix)];
            lemma_sequences_fields_are_met(x.sequences@, x.sequences@.len(), env, names);
            lemma_attributes_refer_to_none(
                x.attributes@,
                x.attributes@.len(),
                env.schema_prefix,
            );
            lemma_none_is_resolved(attributes, decls);
            assert(refers_to_none(base));
            lemma_none_is_resolved(base, decls);
            lemma_resolved_together(base, added, decls);
            lemma_resolved_together(base + added, attributes, decls);
        }
        lemma_resolved_together(content, own, decls);
    }
}

/// What an element gives is closed: every reference to a declared type is
/// met by a declaration hoisted out of the same element.
pub proof fn lemma_element_decls_closed(e: Element, env: Env, names: Seq<Seq<char>>)
    ensures
        element_decls(e, env, names) matches Ok(decls) ==> closed(decls),
        element_subtypes(e, env, names) matches Ok(decls) ==> closed(decls),
    decreases e, 0nat,
{
    if let Ok(decls) = element_decls(e, env, names) {
        let fields = element_own_fields(e, env, names)->Ok_0;
        let head = decls[0];
        if let Some(ct) = e.complex_type {
            let inner = names.push(e.name@);
            let hoisted = complex_type_subtypes(ct, env, inner)->Ok_0;
            lemma_complex_type_fields_are_met(ct, env, inner);
            lemma_complex_type_subtypes_closed(ct, env, inner);
            lemma_closed_with_head(head, hoisted);
        } else {
            assert(refers_to_none(fields));
            let hoisted = Seq::<DeclView>::empty();
            lemma_none_is_resolved(fields, hoisted);
            lemma_closed_with_head(head, hoisted);
        }
    }
}

/// What a list of elements hoists is closed.
pub proof fn lemma_elements_subtypes_closed(
    elements: Seq<Element>,
    n: nat,
    env: Env,
    names: Seq<Seq<char>>,
)
    ensures
        elements_subtypes(elements, n, env, names) matches Ok(decls) ==> closed(decls),
    decreases elements, n,
{
    if 0 < n <= elements.len() {
        lemma_elements_subtypes_closed(elements, (n - 1) as nat, env, names);
        lemma_element_decls_closed(elements[n - 1], env, names);
        if elements_subtypes(elements, n, env, names) is Ok {
            lemma_closed_together(
                elements_subtypes(elements, (n - 1) as nat, env, names)->Ok_0,
                element_subtypes(elements[n - 1], env, names)->Ok_0,
            );
        }
    }
}

/// What a list of sequences hoists is closed.
pub proof fn lemma_sequences_subtypes_closed(
    sequences: Seq<Sequence>,
    n: nat,
    env: Env,
    names: Seq<Seq<char>>,
)
    ensures
        sequences_subtypes(sequences, n, env, names) matches Ok(decls) ==> closed(decls),
    decreases sequences, n,
{
    if 0 < n <= sequences.len() {
        let s = sequences[n - 1];
        lemma_sequences_subtypes_closed(sequences, (n - 1) as nat, env, names);
        lemma_elements_subtypes_closed(s.elements@, s.elements@.len(), env, names);
        if sequences_subtypes(sequences, n, env, names) is Ok {
            lemma_closed_together(
                sequences_subtypes(sequences, (n - 1) as nat, env, names)->Ok_0,
                sequence_subtypes(s, env, names)->Ok_0,
            );
        }
    }
}

/// What a complex type hoists is closed.
pub proof fn lemma_complex_type_subtypes_closed(ct: ComplexType, env: Env, names: Seq<Seq<char>>)
    ensures
        complex_type_subtypes(ct, env, names) matches Ok(decls) ==> closed(decls),
    decreases ct, 0nat,
{
    if let Some(s) = ct.sequence {
        lemma_elements_subtypes_closed(s.elements@, s.elements@.len(), env, names);
    } else if ct.simple_content is Some {
    } else if let Some(cc) = ct.complex_content {
        let x = cc.extension;
        lemma_sequences_subtypes_closed(x.sequences@, x.sequences@.len(), env, names);
    }
}

/// What a named complex type gives is closed.
pub proof fn lemma_complex_type_decls_closed(ct: ComplexType, env: Env, names: Seq<Seq<char>>)
    ensures
        complex_type_decls(ct, env, names) matches Ok(decls) ==> closed(decls),
{
    if let Ok(decls) = complex_type_decls(ct, env, names) {
        let inner = names.push(ct.name@);
        let hoisted = complex_type_subtypes(ct, env, inner)->Ok_0;
        let head = decls[0];
        lemma_complex_type_fields_are_met(ct, env, inner);
        lemma_complex_type_subtypes_closed(ct, env, inner);
        lemma_closed_with_head(head, hoisted);
    }
}

/// What the simple types of a schema give is closed: no field refers to a
/// declared type.
pub proof fn lemma_simple_types_closed(simple_types: Seq<SimpleType>, n: nat, env: Env)
    ensures
        simple_types_decls(simple_types, n, env) matches Ok(decls) ==> closed(decls),
    decreases n,
{
    if 0 < n <= simple_types.len() {
        lemma_simple_types_closed(simple_types, (n - 1) as nat, env);
        if let Ok(decls) = simple_types_decls(simple_types, n, env) {
            let head = simple_types_decls(simple_types, (n - 1) as nat, env)->Ok_0;
            let d = simple_type_decl(
                simple_types[n - 1],
                env.namespace,
                env.schema_prefix,
                Seq::empty(),
                env.placement,
            )->Ok_0;
            assert(refers_to_none(d.fields));
            lemma_none_is_resolved(d.fields, Seq::empty());
            lemma_closed_with_head(d, Seq::empty());
            lemma_closed_together(head, seq![d]);
            assert(head.push(d) =~= head + seq![d]);
        }
    }
}

/// What the complex types of a schema give is closed.
pub proof fn lemma_complex_types_closed(complex_types: Seq<ComplexType>, n: nat, env: Env)
    ensures
        complex_types_decls(complex_types, n, env) matches Ok(decls) ==> closed(decls),
    decreases n,
{
    if 0 < n <= complex_types.len() {
        lemma_complex_types_closed(complex_types, (n - 1) as nat, env);
        lemma_complex_type_decls_closed(complex_types[n - 1], env, Seq::empty());
        if complex_types_decls(complex_types, n, env) is Ok {
            lemma_closed_together(
                complex_types_decls(complex_types, (n - 1) as nat, env)->Ok_0,
                complex_type_decls(complex_types[n - 1], env, Seq::empty())->Ok_0,
            );
        }
    }
}

/// What the elements of a schema give is closed.
pub proof fn lemma_top_elements_closed(elements: Seq<Element>, n: nat, env: Env)
    ensures
        top_elements_decls(elements, n, env) matches Ok(decls) ==> closed(decls),
    decreases n,
{
    if 0 < n <= elements.len() {
        lemma_top_elements_closed(elements, (n - 1) as nat, env);
        lemma_element_decls_closed(elements[n - 1], env, Seq::empty());
        if top_elements_decls(elements, n, env) is Ok {
            lemma_closed_together(
                top_elements_decls(elements, (n - 1) as nat, env)->Ok_0,
                element_decls(elements[n - 1], env, Seq::empty())->Ok_0,
            );
        }
    }
}

/// What a schema compiles to is closed: every field that refers to a
/// declared type finds a declaration of that name in the same output.
pub proof fn lemma_schema_decls_closed(
    s: Schema,
    target_prefix: Option<Seq<char>>,
    schema_prefix: Option<Seq<char>>,
)
    ensures
        schema_decls(s, target_prefix, schema_prefix) matches Ok(decls) ==> closed(decls),
{
    if let Ok(decls) = schema_decls(s, target_prefix, schema_prefix) {
        let namespace = namespace_definition(target_prefix, optional_view(s.target_namespace))->Ok_0;
        let shared = schema_env(namespace, target_prefix, schema_prefix, Placement::Types);
        let root = schema_env(namespace, target_prefix, schema_prefix, Placement::Root);
        let simple = simple_types_decls(s.simple_type@, s.simple_type@.len(), shared)->Ok_0;
        let complex = complex_types_decls(s.complex_type@, s.complex_type@.len(), shared)->Ok_0;
        let elements = top_elements_decls(s.elements@, s.elements@.len(), root)->Ok_0;
        lemma_simple_types_closed(s.simple_type@, s.simple_type@.len(), shared);
        lemma_complex_types_closed(s.complex_type@, s.complex_type@.len(), shared);
        lemma_top_elements_closed(s.elements@, s.elements@.len(), root);
        lemma_closed_together(simple, complex);
        lemma_closed_together(simple + complex, elements);
    }
}

} // verus!
