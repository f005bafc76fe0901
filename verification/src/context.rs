//! The two contexts that a compilation carries: which prefix stands for the
//! XML Schema namespace, and the chain of names that encloses the node being
//! compiled.

use crate::model::namespace_view;
use crate::model::Namespace;
use crate::model::NamespaceView;
use crate::model::Placement;
use crate::text::camel_case_of;
use crate::text::clone_strings;
use crate::text::concat_text;
use crate::text::dots_to_underscores;
use crate::text::optional_view;
use crate::text::replace_dots;
use crate::text::same_text;
use crate::text::strings_view;
use crate::text::to_camel_case;
use vstd::prelude::*;

verus! {

/// What type resolution needs to know of the schema document: the prefix
/// that is bound to the XML Schema namespace. `None` means that the
/// namespace is the default one, so that built-in names stand unprefixed.
#[derive(Clone, Debug, Default, PartialEq, Eq)]
pub struct XsdContext {
    pub xml_schema_prefix: Option<String>,
}

impl View for XsdContext {
    type V = Option<Seq<char>>;

    open spec fn view(&self) -> Option<Seq<char>> {
        optional_view(self.xml_schema_prefix)
    }
}

impl XsdContext {
    /// A context in which `xml_schema_prefix` stands for the XML Schema
    /// namespace.
    pub fn new(xml_schema_prefix: Option<String>) -> (r: XsdContext)
        ensures
            r.xml_schema_prefix == xml_schema_prefix,
    {
        XsdContext { xml_schema_prefix }
    }

    /// Whether `prefix` is the one bound to the XML Schema namespace.
    pub fn match_xml_namespace(&self, prefix: &Option<String>) -> (r: bool)
        ensures
            r == (self@ == optional_view(*prefix)),
    {
        match (&self.xml_schema_prefix, prefix) {
            (Some(a), Some(b)) => same_text(a.as_str(), b.as_str()),
            (None, None) => true,
            _ => false,
        }
    }
}

/// What stays the same while one top-level node and all that is nested in
/// it are compiled.
pub struct Env {
    /// The prefix bound to the XML Schema namespace.
    pub schema_prefix: Option<Seq<char>>,
    /// The prefix that elements carry on the wire.
    pub wire_prefix: Option<Seq<char>>,
    /// The namespace that the declarations are bound to.
    pub namespace: Option<NamespaceView>,
    /// Where the declarations are placed.
    pub placement: Placement,
}

/// The setting that the arguments of a compiling function describe.
pub open spec fn env_of(
    namespace_definition: Option<Namespace>,
    prefix: Option<String>,
    context: XsdContext,
    placement: Placement,
) -> Env {
    Env {
        schema_prefix: context@,
        wire_prefix: optional_view(prefix),
        namespace: namespace_view(namespace_definition),
        placement,
    }
}

/// The fragments of a chain written one after the other.
pub open spec fn joined(fragments: Seq<Seq<char>>) -> Seq<char>
    decreases fragments.len(),
{
    if fragments.len() == 0 {
        Seq::empty()
    } else {
        joined(fragments.drop_last()) + fragments.last()
    }
}

/// The name of a node before any casing rule: the enclosing fragments, then
/// the node's own local name.
pub open spec fn raw_name(fragments: Seq<Seq<char>>, local: Seq<char>) -> Seq<char> {
    joined(fragments) + local
}

/// The global name of a declaration: its raw name with dots replaced, in
/// upper camel case.
pub open spec fn qualified_name(fragments: Seq<Seq<char>>, local: Seq<char>) -> Seq<char> {
    camel_case_of(dots_to_underscores(raw_name(fragments, local)))
}

/// The chain of names that encloses the node being compiled, outermost
/// first. A context is never changed: descending into a nested type makes a
/// longer one.
#[derive(Clone, Debug, Default, PartialEq, Eq)]
pub struct NameContext {
    pub fragments: Vec<String>,
}

impl View for NameContext {
    type V = Seq<Seq<char>>;

    open spec fn view(&self) -> Seq<Seq<char>> {
        strings_view(self.fragments@)
    }
}

impl NameContext {
    /// The empty chain, for a top-level declaration.
    pub fn new() -> (r: NameContext)
        ensures
            r@ == Seq::<Seq<char>>::empty(),
    {
        let r = NameContext { fragments: Vec::new() };
        r
    }

    /// The chain with `fragment` added at its end.
    pub fn extend(&self, fragment: &str) -> (r: NameContext)
        ensures
            r@ == self@.push(fragment@),
    {
        let mut fragments = clone_strings(&self.fragments);
        fragments.push(fragment.to_owned());
        let r = NameContext { fragments };
        r
    }

    /// All fragments of the chain, written one after the other.
    pub fn prefix(&self) -> (r: String)
        ensures
            r@ == joined(self@),
    {
        let mut out = String::new();
        let mut i: usize = 0;
        while i < self.fragments.len()
            invariant
                i <= self.fragments.len(),
                out@ == joined(self@.subrange(0, i as int)),
            decreases self.fragments.len() - i,
        {
            out.append(self.fragments[i].as_str());
            assert(self@.subrange(0, i + 1).drop_last() == self@.subrange(0, i as int));
            i += 1;
        }
        assert(self@.subrange(0, self.fragments.len() as int) == self@);
        out
    }

    /// The name of a node called `local` in this context, before any casing
    /// rule.
    pub fn raw_name(&self, local: &str) -> (r: String)
        ensures
            r@ == raw_name(self@, local@),
    {
        let prefix = self.prefix();
        concat_text(prefix.as_str(), local)
    }

    /// The global name of the declaration for a node called `local` in this
    /// context.
    pub fn qualify(&self, local: &str) -> (r: String)
        ensures
            r@ == qualified_name(self@, local@),
    {
        let raw = self.raw_name(local);
        let plain = replace_dots(raw.as_str());
        to_camel_case(plain.as_str())
    }
}

/// Extending a chain appends the fragment to what the chain spells.
pub proof fn lemma_joined_push(fragments: Seq<Seq<char>>, fragment: Seq<char>)
    ensures
        joined(fragments.push(fragment)) == joined(fragments) + fragment,
{
    assert(fragments.push(fragment).drop_last() == fragments);
}

/// A node nested one level deeper is named as if the enclosing name were
/// written before its own.
pub proof fn lemma_raw_name_extend(fragments: Seq<Seq<char>>, outer: Seq<char>, local: Seq<char>)
    ensures
        raw_name(fragments.push(outer), local) == raw_name(fragments, outer + local),
{
    lemma_joined_push(fragments, outer);
}

/// Two nodes with one local name whose enclosing chains spell different
/// names have different raw names: the chain is never lost in the name.
pub proof fn lemma_raw_names_differ(a: Seq<Seq<char>>, b: Seq<Seq<char>>, local: Seq<char>)
    requires
        joined(a) != joined(b),
    ensures
        raw_name(a, local) != raw_name(b, local),
{
    let x = joined(a);
    let y = joined(b);
    if x + local == y + local {
        assert((x + local).len() == (y + local).len());
        assert forall|i: int| 0 <= i < x.len() implies x[i] == y[i] by {
            assert((y + local)[i] == y[i]);
        }
        assert(x =~= y);
    }
}

} // verus!
