//! What the compiler produces: type declarations, their fields, and the
//! errors that abort a compilation.

use crate::text::concat_text;
use crate::text::optional_view;
use crate::text::strings_view;
use vstd::prelude::*;

verus! {

/// A primitive of the target language.
#[derive(Clone, Copy, Debug, PartialEq, Eq)]
pub enum Primitive {
    Bool,
    I8,
    U8,
    I16,
    U16,
    I32,
    U32,
    I64,
    U64,
    Double,
    Str,
}

/// The type a field refers to.
#[derive(Clone, Debug, PartialEq, Eq)]
pub enum TypeRef {
    /// A primitive of the target language.
    Primitive(Primitive),
    /// A type defined elsewhere, looked up by name in the shared `types`
    /// namespace when the declarations are built.
    External(String),
    /// A declaration that this compilation hoisted out of an anonymous
    /// complex type.
    Declared(String),
}

/// The mathematical value of a [`TypeRef`].
pub enum TypeRefView {
    Primitive(Primitive),
    External(Seq<char>),
    Declared(Seq<char>),
}

impl View for TypeRef {
    type V = TypeRefView;

    open spec fn view(&self) -> TypeRefView {
        match *self {
            TypeRef::Primitive(p) => TypeRefView::Primitive(p),
            TypeRef::External(name) => TypeRefView::External(name@),
            TypeRef::Declared(name) => TypeRefView::Declared(name@),
        }
    }
}

impl TypeRefView {
    /// Whether this is the string primitive, the one type that is carried as
    /// text content.
    pub open spec fn is_string(self) -> bool {
        self == TypeRefView::Primitive(Primitive::Str)
    }
}

impl TypeRef {
    /// Whether this is the string primitive.
    pub fn is_string(&self) -> (r: bool)
        ensures
            r == self@.is_string(),
    {
        match self {
            TypeRef::Primitive(Primitive::Str) => true,
            _ => false,
        }
    }

    /// Whether this is a primitive of the target language.
    pub fn is_primitive(&self) -> (r: bool)
        ensures
            r == (self@ is Primitive),
    {
        match self {
            TypeRef::Primitive(_) => true,
            _ => false,
        }
    }
}

/// How often a field occurs.
#[derive(Clone, Copy, Debug, PartialEq, Eq)]
pub enum Cardinality {
    /// Exactly once.
    Required,
    /// At most once.
    Optional,
    /// Any number of times.
    List,
}

/// The part a field plays when a value is written to XML or read from it.
#[derive(Clone, Copy, Debug, PartialEq, Eq)]
pub enum Role {
    /// A child element.
    Element,
    /// An attribute of the enclosing element.
    Attribute,
    /// The fields of the referenced type stand in place of this field.
    Flatten,
    /// The text content of the enclosing element.
    Text,
}

/// Where a declaration is placed.
#[derive(Clone, Copy, Debug, PartialEq, Eq)]
pub enum Placement {
    /// In the shared `types` namespace, where external references are looked
    /// up.
    Types,
    /// Beside the `types` namespace.
    Root,
}

/// The namespace that the declarations of a schema are bound to.
#[derive(Clone, Debug, PartialEq, Eq)]
pub struct Namespace {
    pub prefix: String,
    pub uri: String,
}

/// The mathematical value of a [`Namespace`].
pub struct NamespaceView {
    pub prefix: Seq<char>,
    pub uri: Seq<char>,
}

impl View for Namespace {
    type V = NamespaceView;

    open spec fn view(&self) -> NamespaceView {
        NamespaceView { prefix: self.prefix@, uri: self.uri@ }
    }
}

impl NamespaceView {
    /// The binding as it is written out: the prefix, a colon, a space and
    /// the URI.
    pub open spec fn definition(self) -> Seq<char> {
        self.prefix + seq![':', ' '] + self.uri
    }
}

impl Namespace {
    /// The binding as it is written out: the prefix, a colon, a space and
    /// the URI.
    pub fn definition(&self) -> (r: String)
        ensures
            r@ == self@.definition(),
    {
        proof {
            reveal_strlit(": ");
        }
        let head = concat_text(self.prefix.as_str(), ": ");
        concat_text(head.as_str(), self.uri.as_str())
    }
}

/// The view of an optional namespace.
pub open spec fn namespace_view(o: Option<Namespace>) -> Option<NamespaceView> {
    match o {
        Some(n) => Some(n@),
        None => None,
    }
}

/// One field of a declaration.
#[derive(Clone, Debug, PartialEq, Eq)]
pub struct GeneratedField {
    /// The identifier of the field.
    pub ident: String,
    /// The type of one occurrence.
    pub kind: TypeRef,
    pub cardinality: Cardinality,
    pub role: Role,
    /// The name on the wire, where it is recorded beside the identifier.
    pub rename: Option<String>,
    /// The namespace prefix on the wire, where the schema has one.
    pub prefix: Option<String>,
}

/// The mathematical value of a [`GeneratedField`].
pub struct FieldView {
    pub ident: Seq<char>,
    pub kind: TypeRefView,
    pub cardinality: Cardinality,
    pub role: Role,
    pub rename: Option<Seq<char>>,
    pub prefix: Option<Seq<char>>,
}

impl View for GeneratedField {
    type V = FieldView;

    open spec fn view(&self) -> FieldView {
        FieldView {
            ident: self.ident@,
            kind: self.kind@,
            cardinality: self.cardinality,
            role: self.role,
            rename: optional_view(self.rename),
            prefix: optional_view(self.prefix),
        }
    }
}

/// The views of a list of fields, in order.
pub open spec fn fields_view(fields: Seq<GeneratedField>) -> Seq<FieldView> {
    fields.map_values(|f: GeneratedField| f@)
}

/// The one field of a declaration that only wraps a value of type `kind`:
/// it is called `content`, and is carried as text where the value is a
/// string and flattened otherwise.
pub open spec fn content_field(kind: TypeRefView) -> FieldView {
    FieldView {
        ident: seq!['c', 'o', 'n', 't', 'e', 'n', 't'],
        kind,
        cardinality: Cardinality::Required,
        role: if kind.is_string() {
            Role::Text
        } else {
            Role::Flatten
        },
        rename: None,
        prefix: None,
    }
}

/// Makes the one field of a declaration that only wraps a value of type
/// `kind`.
pub fn make_content_field(kind: TypeRef) -> (r: GeneratedField)
    ensures
        r@ == content_field(kind@),
{
    proof {
        reveal_strlit("content");
        assert("content"@ =~= seq!['c', 'o', 'n', 't', 'e', 'n', 't']);
    }
    let role = if kind.is_string() {
        Role::Text
    } else {
        Role::Flatten
    };
    GeneratedField {
        ident: "content".to_owned(),
        kind,
        cardinality: Cardinality::Required,
        role,
        rename: None,
        prefix: None,
    }
}

/// A named declaration with its fields in order.
#[derive(Clone, Debug, PartialEq, Eq)]
pub struct GeneratedTypeDecl {
    pub name: String,
    pub fields: Vec<GeneratedField>,
    /// Documentation lines, in order.
    pub docs: Vec<String>,
    pub namespace: Option<Namespace>,
    pub placement: Placement,
}

/// The mathematical value of a [`GeneratedTypeDecl`].
pub struct DeclView {
    pub name: Seq<char>,
    pub fields: Seq<FieldView>,
    pub docs: Seq<Seq<char>>,
    pub namespace: Option<NamespaceView>,
    pub placement: Placement,
}

impl View for GeneratedTypeDecl {
    type V = DeclView;

    open spec fn view(&self) -> DeclView {
        DeclView {
            name: self.name@,
            fields: fields_view(self.fields@),
            docs: strings_view(self.docs@),
            namespace: namespace_view(self.namespace),
            placement: self.placement,
        }
    }
}

/// The views of a list of declarations, in order.
pub open spec fn decls_view(decls: Seq<GeneratedTypeDecl>) -> Seq<DeclView> {
    decls.map_values(|d: GeneratedTypeDecl| d@)
}

/// Why a compilation was aborted. Every error is fatal: nothing is produced
/// beside it.
#[derive(Clone, Debug, PartialEq, Eq)]
pub enum CompileError {
    /// A target namespace is declared and no prefix was given for it.
    MissingPrefix,
    /// A prefix was given and the schema declares no target namespace.
    MissingTargetNamespace,
    /// The named element has no type reference, no inline complex type and
    /// no inline simple type.
    UnresolvedElementType(String),
    /// The named simple type has no content that yields a type.
    UnresolvedSimpleTypeStructure(String),
}

/// The mathematical value of a [`CompileError`].
pub enum ErrorView {
    MissingPrefix,
    MissingTargetNamespace,
    UnresolvedElementType(Seq<char>),
    UnresolvedSimpleTypeStructure(Seq<char>),
}

impl View for CompileError {
    type V = ErrorView;

    open spec fn view(&self) -> ErrorView {
        match *self {
            CompileError::MissingPrefix => ErrorView::MissingPrefix,
            CompileError::MissingTargetNamespace => ErrorView::MissingTargetNamespace,
            CompileError::UnresolvedElementType(name) => ErrorView::UnresolvedElementType(name@),
            CompileError::UnresolvedSimpleTypeStructure(name) => {
                ErrorView::UnresolvedSimpleTypeStructure(name@)
            },
        }
    }
}

impl ErrorView {
    /// Whether the error lies in how namespace and prefix were configured.
    pub open spec fn is_configuration(self) -> bool {
        self is MissingPrefix || self is MissingTargetNamespace
    }
}

impl ErrorView {
    /// What the error says: which rule was broken, and by which node.
    pub open spec fn message(self) -> Seq<char> {
        match self {
            ErrorView::MissingPrefix => "undefined prefix attribute, a target namespace is defined"@,
            ErrorView::MissingTargetNamespace => "a prefix attribute, but no target namespace is defined, please remove the prefix parameter"@,
            ErrorView::UnresolvedElementType(name) => "[Element] "@ + name
                + ": no type reference, no complex type and no simple type"@,
            ErrorView::UnresolvedSimpleTypeStructure(name) => "[SimpleType] "@ + name
                + ": no restriction"@,
        }
    }
}

impl CompileError {
    /// What the error says: which rule was broken, and by which node.
    pub fn message(&self) -> (r: String)
        ensures
            r@ == self@.message(),
    {
        match self {
            CompileError::MissingPrefix => {
                "undefined prefix attribute, a target namespace is defined".to_owned()
            },
            CompileError::MissingTargetNamespace => {
                "a prefix attribute, but no target namespace is defined, please remove the prefix parameter".to_owned()
            },
            CompileError::UnresolvedElementType(name) => {
                let head = concat_text("[Element] ", name.as_str());
                concat_text(
                    head.as_str(),
                    ": no type reference, no complex type and no simple type",
                )
            },
            CompileError::UnresolvedSimpleTypeStructure(name) => {
                let head = concat_text("[SimpleType] ", name.as_str());
                concat_text(head.as_str(), ": no restriction")
            },
        }
    }

    /// Whether the error lies in how namespace and prefix were configured.
    pub fn is_configuration_error(&self) -> (r: bool)
        ensures
            r == self@.is_configuration(),
    {
        match self {
            CompileError::MissingPrefix => true,
            CompileError::MissingTargetNamespace => true,
            _ => false,
        }
    }
}

/// The view of the outcome of resolving a type.
pub open spec fn type_outcome(r: Result<TypeRef, CompileError>) -> Result<TypeRefView, ErrorView> {
    match r {
        Ok(t) => Ok(t@),
        Err(e) => Err(e@),
    }
}

/// The view of the outcome of compiling one node into at most one field.
pub open spec fn field_outcome(r: Result<Option<GeneratedField>, CompileError>) -> Result<
    Option<FieldView>,
    ErrorView,
> {
    match r {
        Ok(Some(f)) => Ok(Some(f@)),
        Ok(None) => Ok(None),
        Err(e) => Err(e@),
    }
}

/// The view of the outcome of compiling a list of fields.
pub open spec fn fields_outcome(r: Result<Vec<GeneratedField>, CompileError>) -> Result<
    Seq<FieldView>,
    ErrorView,
> {
    match r {
        Ok(fields) => Ok(fields_view(fields@)),
        Err(e) => Err(e@),
    }
}

/// The view of the outcome of compiling one declaration.
pub open spec fn decl_outcome(r: Result<GeneratedTypeDecl, CompileError>) -> Result<
    DeclView,
    ErrorView,
> {
    match r {
        Ok(d) => Ok(d@),
        Err(e) => Err(e@),
    }
}

/// The view of the outcome of compiling a list of declarations.
pub open spec fn decls_outcome(r: Result<Vec<GeneratedTypeDecl>, CompileError>) -> Result<
    Seq<DeclView>,
    ErrorView,
> {
    match r {
        Ok(decls) => Ok(decls_view(decls@)),
        Err(e) => Err(e@),
    }
}

/// A copy of an optional namespace.
pub fn clone_namespace(o: &Option<Namespace>) -> (r: Option<Namespace>)
    ensures
        r == *o,
{
    match o {
        Some(n) => Some(Namespace { prefix: n.prefix.clone(), uri: n.uri.clone() }),
        None => None,
    }
}

/// Moves the fields of `more` to the end of `fields`, in order.
pub fn append_fields(fields: &mut Vec<GeneratedField>, more: Vec<GeneratedField>)
    ensures
        fields_view(final(fields)@) == fields_view(old(fields)@) + fields_view(more@),
{
    let mut more = more;
    let ghost before = fields@;
    let ghost added = more@;
    fields.append(&mut more);
}

/// Moves the declarations of `more` to the end of `decls`, in order.
pub fn append_decls(decls: &mut Vec<GeneratedTypeDecl>, more: Vec<GeneratedTypeDecl>)
    ensures
        decls_view(final(decls)@) == decls_view(old(decls)@) + decls_view(more@),
{
    let mut more = more;
    let ghost before = decls@;
    let ghost added = more@;
    decls.append(&mut more);
}

/// Whether an outcome is free of configuration errors: it is a success, or
/// an error about a node of the schema.
pub open spec fn fails_only_on_nodes<T>(r: Result<T, ErrorView>) -> bool {
    r matches Err(e) ==> !e.is_configuration()
}

/// Appending one field to a list appends its view to the list's view.
pub proof fn lemma_fields_view_push(fields: Seq<GeneratedField>, f: GeneratedField)
    ensures
        fields_view(fields.push(f)) == fields_view(fields).push(f@),
{
}

/// Appending one declaration to a list appends its view to the list's view.
pub proof fn lemma_decls_view_push(decls: Seq<GeneratedTypeDecl>, d: GeneratedTypeDecl)
    ensures
        decls_view(decls.push(d)) == decls_view(decls).push(d@),
{
}

} // verus!
