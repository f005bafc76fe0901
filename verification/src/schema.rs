//! Schemas: the top level of a compilation.
//!
//! The namespace configuration is checked first. Then the simple types, the
//! complex types and the elements of the schema are compiled, in that
//! order, each in an empty name context, and their declarations are
//! collected in one list. The first error aborts the compilation: nothing
//! is produced beside it.

use crate::attribute::Attribute;
use crate::complex_type::complex_type_decls;
use crate::complex_type::lemma_complex_type_decls_fail_on_nodes;
use crate::complex_type::ComplexType;
use crate::context::Env;
use crate::context::NameContext;
use crate::context::XsdContext;
use crate::element::element_decls;
use crate::element::lemma_element_decls_fail_on_nodes;
use crate::element::Element;
use crate::model::append_decls;
use crate::model::decls_outcome;
use crate::model::decls_view;
use crate::model::fails_only_on_nodes;
use crate::model::lemma_decls_view_push;
use crate::model::namespace_view;
use crate::model::CompileError;
use crate::model::DeclView;
use crate::model::ErrorView;
use crate::model::GeneratedTypeDecl;
use crate::model::Namespace;
use crate::model::NamespaceView;
use crate::model::Placement;
use crate::qualification::Qualification;
use crate::references::closed;
use crate::references::lemma_schema_decls_closed;
use crate::simple_type::simple_type_decl;
use crate::simple_type::SimpleType;
use crate::text::optional_view;
use vstd::prelude::*;

verus! {

/// A schema document.
#[derive(Debug, Default, PartialEq)]
pub struct Schema {
    pub target_namespace: Option<String>,
    pub element_form_default: Qualification,
    pub attribute_form_default: Qualification,
    pub elements: Vec<Element>,
    pub simple_type: Vec<SimpleType>,
    pub complex_type: Vec<ComplexType>,
    pub attributes: Vec<Attribute>,
}

/// The namespace that the declarations are bound to. A prefix and a target
/// namespace are given together or not at all.
pub open spec fn namespace_definition(
    target_prefix: Option<Seq<char>>,
    target_namespace: Option<Seq<char>>,
) -> Result<Option<NamespaceView>, ErrorView> {
    match (target_prefix, target_namespace) {
        (None, None) => Ok(None),
        (None, Some(_)) => Err(ErrorView::MissingPrefix),
        (Some(_), None) => Err(ErrorView::MissingTargetNamespace),
        (Some(prefix), Some(uri)) => Ok(Some(NamespaceView { prefix, uri })),
    }
}

/// The view of the outcome of checking the namespace configuration.
pub open spec fn namespace_outcome(r: Result<Option<Namespace>, CompileError>) -> Result<
    Option<NamespaceView>,
    ErrorView,
> {
    match r {
        Ok(n) => Ok(namespace_view(n)),
        Err(e) => Err(e@),
    }
}

/// Checks the namespace configuration and gives the namespace that the
/// declarations are bound to.
pub fn generate_namespace_definition(
    target_prefix: &Option<String>,
    target_namespace: &Option<String>,
) -> (r: Result<Option<Namespace>, CompileError>)
    ensures
        namespace_outcome(r) == namespace_definition(
            optional_view(*target_prefix),
            optional_view(*target_namespace),
        ),
        r is Ok <==> (*target_prefix is Some <==> *target_namespace is Some),
        r matches Err(e) ==> e@.is_configuration(),
{
    match (target_prefix, target_namespace) {
        (None, None) => Ok(None),
        (None, Some(_)) => Err(CompileError::MissingPrefix),
        (Some(_), None) => Err(CompileError::MissingTargetNamespace),
        (Some(prefix), Some(uri)) => Ok(
            Some(Namespace { prefix: prefix.clone(), uri: uri.clone() }),
        ),
    }
}

/// The declarations of the first `n` simple types of a schema, in order.
pub open spec fn simple_types_decls(simple_types: Seq<SimpleType>, n: nat, env: Env) -> Result<
    Seq<DeclView>,
    ErrorView,
>
    decreases n,
{
    if n == 0 || n > simple_types.len() {
        Ok(Seq::empty())
    } else {
        match simple_types_decls(simple_types, (n - 1) as nat, env) {
            Err(e) => Err(e),
            Ok(decls) => match simple_type_decl(
                simple_types[n - 1],
                env.namespace,
                env.schema_prefix,
                Seq::empty(),
                env.placement,
            ) {
                Err(e) => Err(e),
                Ok(d) => Ok(decls.push(d)),
            },
        }
    }
}

/// The declarations of the first `n` complex types of a schema, in order.
pub open spec fn complex_types_decls(complex_types: Seq<ComplexType>, n: nat, env: Env) -> Result<
    Seq<DeclView>,
    ErrorView,
>
    decreases n,
{
    if n == 0 || n > complex_types.len() {
        Ok(Seq::empty())
    } else {
        match complex_types_decls(complex_types, (n - 1) as nat, env) {
            Err(e) => Err(e),
            Ok(decls) => match complex_type_decls(complex_types[n - 1], env, Seq::empty()) {
                Err(e) => Err(e),
                Ok(more) => Ok(decls + more),
            },
        }
    }
}

/// The declarations of the first `n` elements of a schema, in order.
pub open spec fn top_elements_decls(elements: Seq<Element>, n: nat, env: Env) -> Result<
    Seq<DeclView>,
    ErrorView,
>
    decreases n,
{
    if n == 0 || n > elements.len() {
        Ok(Seq::empty())
    } else {
        match top_elements_decls(elements, (n - 1) as nat, env) {
            Err(e) => Err(e),
            Ok(decls) => match element_decls(elements[n - 1], env, Seq::empty()) {
                Err(e) => Err(e),
                Ok(more) => Ok(decls + more),
            },
        }
    }
}

/// Once a simple type has failed, those behind it change nothing.
pub proof fn lemma_simple_types_error_stays(simple_types: Seq<SimpleType>, k: nat, n: nat, env: Env)
    requires
        k <= n <= simple_types.len(),
        simple_types_decls(simple_types, k, env) is Err,
    ensures
        simple_types_decls(simple_types, n, env) == simple_types_decls(simple_types, k, env),
    decreases n - k,
{
    if k < n {
        lemma_simple_types_error_stays(simple_types, k, (n - 1) as nat, env);
    }
}

/// Once a complex type has failed, those behind it change nothing.
pub proof fn lemma_complex_types_error_stays(
    complex_types: Seq<ComplexType>,
    k: nat,
    n: nat,
    env: Env,
)
    requires
        k <= n <= complex_types.len(),
        complex_types_decls(complex_types, k, env) is Err,
    ensures
        complex_types_decls(complex_types, n, env) == complex_types_decls(complex_types, k, env),
    decreases n - k,
{
    if k < n {
        lemma_complex_types_error_stays(complex_types, k, (n - 1) as nat, env);
    }
}

/// Once an element has failed, those behind it change nothing.
pub proof fn lemma_top_elements_error_stays(elements: Seq<Element>, k: nat, n: nat, env: Env)
    requires
        k <= n <= elements.len(),
        top_elements_decls(elements, k, env) is Err,
    ensures
        top_elements_decls(elements, n, env) == top_elements_decls(elements, k, env),
    decreases n - k,
{
    if k < n {
        lemma_top_elements_error_stays(elements, k, (n - 1) as nat, env);
    }
}

/// The setting in which the nodes of a schema are compiled.
pub open spec fn schema_env(
    namespace: Option<NamespaceView>,
    target_prefix: Option<Seq<char>>,
    schema_prefix: Option<Seq<char>>,
    placement: Placement,
) -> Env {
    Env { schema_prefix, wire_prefix: target_prefix, namespace, placement }
}

/// The declarations of a schema: those of its simple types, then those of
/// its complex types, both placed in the shared `types` namespace, then
/// those of its elements, placed beside it.
pub open spec fn schema_decls(
    s: Schema,
    target_prefix: Option<Seq<char>>,
    schema_prefix: Option<Seq<char>>,
) -> Result<Seq<DeclView>, ErrorView> {
    match namespace_definition(target_prefix, optional_view(s.target_namespace)) {
        Err(e) => Err(e),
        Ok(namespace) => {
            let shared = schema_env(namespace, target_prefix, schema_prefix, Placement::Types);
            let root = schema_env(namespace, target_prefix, schema_prefix, Placement::Root);
            match simple_types_decls(s.simple_type@, s.simple_type@.len(), shared) {
                Err(e) => Err(e),
                Ok(simple) => match complex_types_decls(
                    s.complex_type@,
                    s.complex_type@.len(),
                    shared,
                ) {
                    Err(e) => Err(e),
                    Ok(complex) => match top_elements_decls(
                        s.elements@,
                        s.elements@.len(),
                        root,
                    ) {
                        Err(e) => Err(e),
                        Ok(elements) => Ok(simple + complex + elements),
                    },
                },
            }
        },
    }
}

/// Compiling the simple types of a schema never fails on the configuration.
pub proof fn lemma_simple_types_fail_on_nodes(simple_types: Seq<SimpleType>, n: nat, env: Env)
    ensures
        fails_only_on_nodes(simple_types_decls(simple_types, n, env)),
    decreases n,
{
    if n > 0 {
        lemma_simple_types_fail_on_nodes(simple_types, (n - 1) as nat, env);
    }
}

/// Compiling the complex types of a schema never fails on the
/// configuration.
pub proof fn lemma_complex_types_fail_on_nodes(complex_types: Seq<ComplexType>, n: nat, env: Env)
    ensures
        fails_only_on_nodes(complex_types_decls(complex_types, n, env)),
    decreases n,
{
    if 0 < n <= complex_types.len() {
        lemma_complex_types_fail_on_nodes(complex_types, (n - 1) as nat, env);
        lemma_complex_type_decls_fail_on_nodes(complex_types[n - 1], env, Seq::empty());
    }
}

/// Compiling the elements of a schema never fails on the configuration.
pub proof fn lemma_top_elements_fail_on_nodes(elements: Seq<Element>, n: nat, env: Env)
    ensures
        fails_only_on_nodes(top_elements_decls(elements, n, env)),
    decreases n,
{
    if 0 < n <= elements.len() {
        lemma_top_elements_fail_on_nodes(elements, (n - 1) as nat, env);
        lemma_element_decls_fail_on_nodes(elements[n - 1], env, Seq::empty());
    }
}

/// A compilation fails on the configuration exactly where a target
/// namespace stands without a prefix or a prefix without a target
/// namespace; it then fails whatever else the schema holds, and with the
/// error that says which of the two is missing.
pub proof fn lemma_configuration_error(
    s: Schema,
    target_prefix: Option<Seq<char>>,
    schema_prefix: Option<Seq<char>>,
)
    ensures
        (schema_decls(s, target_prefix, schema_prefix) matches Err(e) && e.is_configuration())
            <==> (target_prefix is Some) != (s.target_namespace is Some),
        target_prefix is None && s.target_namespace is Some ==> schema_decls(
            s,
            target_prefix,
            schema_prefix,
        ) == Err::<Seq<DeclView>, ErrorView>(ErrorView::MissingPrefix),
        target_prefix is Some && s.target_namespace is None ==> schema_decls(
            s,
            target_prefix,
            schema_prefix,
        ) == Err::<Seq<DeclView>, ErrorView>(ErrorView::MissingTargetNamespace),
{
    match namespace_definition(target_prefix, optional_view(s.target_namespace)) {
        Err(_) => {},
        Ok(namespace) => {
            let shared = schema_env(namespace, target_prefix, schema_prefix, Placement::Types);
            let root = schema_env(namespace, target_prefix, schema_prefix, Placement::Root);
            lemma_simple_types_fail_on_nodes(s.simple_type@, s.simple_type@.len(), shared);
            lemma_complex_types_fail_on_nodes(s.complex_type@, s.complex_type@.len(), shared);
            lemma_top_elements_fail_on_nodes(s.elements@, s.elements@.len(), root);
        },
    }
}

impl Schema {
    /// Compiles the simple types of the schema.
    fn implement_simple_types(
        &self,
        namespace: &Option<Namespace>,
        target_prefix: &Option<String>,
        context: &XsdContext,
    ) -> (r: Result<Vec<GeneratedTypeDecl>, CompileError>)
        ensures
            decls_outcome(r) == simple_types_decls(
                self.simple_type@,
                self.simple_type@.len(),
                schema_env(
                    namespace_view(*namespace),
                    optional_view(*target_prefix),
                    context@,
                    Placement::Types,
                ),
            ),
    {
        let ghost env = schema_env(
            namespace_view(*namespace),
            optional_view(*target_prefix),
            context@,
            Placement::Types,
        );
        let names = NameContext::new();
        let mut out: Vec<GeneratedTypeDecl> = Vec::new();
        let mut i: usize = 0;
        assert(decls_view(out@) =~= Seq::<DeclView>::empty());
        while i < self.simple_type.len()
            invariant
                i <= self.simple_type.len(),
                names@ == Seq::<Seq<char>>::empty(),
                env == schema_env(
                    namespace_view(*namespace),
                    optional_view(*target_prefix),
                    context@,
                    Placement::Types,
                ),
                simple_types_decls(self.simple_type@, i as nat, env) == Ok::<
                    Seq<DeclView>,
                    ErrorView,
                >(decls_view(out@)),
            decreases self.simple_type.len() - i,
        {
            match self.simple_type[i].implement(namespace, context, &names, Placement::Types) {
                Err(e) => {
                    proof {
                        lemma_simple_types_error_stays(
                            self.simple_type@,
                            (i + 1) as nat,
                            self.simple_type@.len(),
                            env,
                        );
                    }
                    return Err(e);
                },
                Ok(d) => {
                    proof {
                        lemma_decls_view_push(out@, d);
                    }
                    out.push(d);
                },
            }
            i += 1;
        }
        Ok(out)
    }

    /// Compiles the complex types of the schema.
    fn implement_complex_types(
        &self,
        namespace: &Option<Namespace>,
        target_prefix: &Option<String>,
        context: &XsdContext,
    ) -> (r: Result<Vec<GeneratedTypeDecl>, CompileError>)
        ensures
            decls_outcome(r) == complex_types_decls(
                self.complex_type@,
                self.complex_type@.len(),
                schema_env(
                    namespace_view(*namespace),
                    optional_view(*target_prefix),
                    context@,
                    Placement::Types,
                ),
            ),
    {
        let ghost env = schema_env(
            namespace_view(*namespace),
            optional_view(*target_prefix),
            context@,
            Placement::Types,
        );
        let names = NameContext::new();
        let mut out: Vec<GeneratedTypeDecl> = Vec::new();
        let mut i: usize = 0;
        assert(decls_view(out@) =~= Seq::<DeclView>::empty());
        while i < self.complex_type.len()
            invariant
                i <= self.complex_type.len(),
                names@ == Seq::<Seq<char>>::empty(),
                env == schema_env(
                    namespace_view(*namespace),
                    optional_view(*target_prefix),
                    context@,
                    Placement::Types,
                ),
                complex_types_decls(self.complex_type@, i as nat, env) == Ok::<
                    Seq<DeclView>,
                    ErrorView,
                >(decls_view(out@)),
            decreases self.complex_type.len() - i,
        {
            match self.complex_type[i].implement(
                namespace,
                target_prefix,
                context,
                &names,
                Placement::Types,
            ) {
                Err(e) => {
                    proof {
                        lemma_complex_types_error_stays(
                            self.complex_type@,
                            (i + 1) as nat,
                            self.complex_type@.len(),
                            env,
                        );
                    }
                    return Err(e);
                },
                Ok(more) => {
                    append_decls(&mut out, more);
                },
            }
            i += 1;
        }
        Ok(out)
    }

    /// Compiles the elements of the schema.
    fn implement_elements(
        &self,
        namespace: &Option<Namespace>,
        target_prefix: &Option<String>,
        context: &XsdContext,
    ) -> (r: Result<Vec<GeneratedTypeDecl>, CompileError>)
        ensures
            decls_outcome(r) == top_elements_decls(
                self.elements@,
                self.elements@.len(),
                schema_env(
                    namespace_view(*namespace),
                    optional_view(*target_prefix),
                    context@,
                    Placement::Root,
                ),
            ),
    {
        let ghost env = schema_env(
            namespace_view(*namespace),
            optional_view(*target_prefix),
            context@,
            Placement::Root,
        );
        let names = NameContext::new();
        let mut out: Vec<GeneratedTypeDecl> = Vec::new();
        let mut i: usize = 0;
        assert(decls_view(out@) =~= Seq::<DeclView>::empty());
        while i < self.elements.len()
            invariant
                i <= self.elements.len(),
                names@ == Seq::<Seq<char>>::empty(),
                env == schema_env(
                    namespace_view(*namespace),
                    optional_view(*target_prefix),
                    context@,
                    Placement::Root,
                ),
                top_elements_decls(self.elements@, i as nat, env) == Ok::<Seq<DeclView>, ErrorView>(
                    decls_view(out@),
                ),
            decreases self.elements.len() - i,
        {
            match self.elements[i].implement(
                namespace,
                target_prefix,
                context,
                &names,
                Placement::Root,
            ) {
                Err(e) => {
                    proof {
                        lemma_top_elements_error_stays(
                            self.elements@,
                            (i + 1) as nat,
                            self.elements@.len(),
                            env,
                        );
                    }
                    return Err(e);
                },
                Ok(more) => {
                    append_decls(&mut out, more);
                },
            }
            i += 1;
        }
        Ok(out)
    }

    /// Compiles the schema into its declarations. `target_prefix` is the
    /// prefix that stands for the target namespace on the wire; `context`
    /// says which prefix stands for the XML Schema namespace.
    pub fn implement(&self, target_prefix: &Option<String>, context: &XsdContext) -> (r: Result<
        Vec<GeneratedTypeDecl>,
        CompileError,
    >)
        ensures
            decls_outcome(r) == schema_decls(*self, optional_view(*target_prefix), context@),
            (r matches Err(e) && e@.is_configuration()) <==> (*target_prefix is Some) != (
            self.target_namespace is Some),
            r matches Ok(decls) ==> closed(decls_view(decls@)),
    {
        proof {
            lemma_configuration_error(*self, optional_view(*target_prefix), context@);
            lemma_schema_decls_closed(*self, optional_view(*target_prefix), context@);
        }
        let namespace = generate_namespace_definition(target_prefix, &self.target_namespace)?;
        let mut out = self.implement_simple_types(&namespace, target_prefix, context)?;
        let complex = self.implement_complex_types(&namespace, target_prefix, context)?;
        let elements = self.implement_elements(&namespace, target_prefix, context)?;
        append_decls(&mut out, complex);
        append_decls(&mut out, elements);
        Ok(out)
    }
}

} // verus!
