//! Writing declarations out as source text.
//!
//! A declaration becomes a `struct` with one line of derives, the namespace
//! binding of the schema, and for every field the directive that says how
//! the field is carried on the wire. Declarations placed in the shared
//! namespace are written inside `pub mod types`; the others follow it.

use crate::model::decls_view;
use crate::model::fields_view;
use crate::model::namespace_view;
use crate::model::Cardinality;
use crate::model::DeclView;
use crate::model::FieldView;
use crate::model::GeneratedField;
use crate::model::GeneratedTypeDecl;
use crate::model::Namespace;
use crate::model::NamespaceView;
use crate::model::Placement;
use crate::model::Primitive;
use crate::model::Role;
use crate::model::TypeRef;
use crate::model::TypeRefView;
use crate::text::strings_view;
use vstd::prelude::*;

verus! {

/// How one character stands inside a string literal: quotes, backslashes
/// and the common control characters are escaped, every other character
/// stands for itself.
pub open spec fn escaped_char(c: char) -> Seq<char> {
    if c == '"' {
        seq!['\\', '"']
    } else if c == '\\' {
        seq!['\\', '\\']
    } else if c == '\n' {
        seq!['\\', 'n']
    } else if c == '\r' {
        seq!['\\', 'r']
    } else if c == '\t' {
        seq!['\\', 't']
    } else if c == '\0' {
        seq!['\\', '0']
    } else {
        seq![c]
    }
}

/// The characters of `s` as they stand inside a string literal.
pub open spec fn escaped(s: Seq<char>) -> Seq<char>
    decreases s.len(),
{
    if s.len() == 0 {
        Seq::empty()
    } else {
        escaped(s.drop_last()) + escaped_char(s.last())
    }
}

/// The string literal that denotes `s`.
pub open spec fn literal_text(s: Seq<char>) -> Seq<char> {
    seq!['"'] + escaped(s) + seq!['"']
}

/// What the character behind a backslash stands for.
pub open spec fn escape_meaning(c: char) -> char {
    if c == 'n' {
        '\n'
    } else if c == 'r' {
        '\r'
    } else if c == 't' {
        '\t'
    } else if c == '0' {
        '\0'
    } else {
        c
    }
}

/// Whether a backslash may stand before `c`.
pub open spec fn is_escape(c: char) -> bool {
    c == '"' || c == '\\' || c == 'n' || c == 'r' || c == 't' || c == '0'
}

/// What the inside of a string literal denotes, read from its first
/// character on: a backslash and the character behind it stand for one
/// character, every other character stands for itself.
pub open spec fn denoted(t: Seq<char>) -> Seq<char>
    decreases t.len(),
{
    if t.len() == 0 {
        Seq::empty()
    } else if t[0] == '\\' && t.len() >= 2 {
        seq![escape_meaning(t[1])] + denoted(t.subrange(2, t.len() as int))
    } else {
        seq![t[0]] + denoted(t.drop_first())
    }
}

/// Whether `t` can stand between the quotes of a string literal: every
/// backslash is followed by a character that it may stand before, and no
/// quote and no carriage return stands bare.
pub open spec fn is_literal_body(t: Seq<char>) -> bool
    decreases t.len(),
{
    if t.len() == 0 {
        true
    } else if t[0] == '\\' {
        t.len() >= 2 && is_escape(t[1]) && is_literal_body(t.subrange(2, t.len() as int))
    } else {
        t[0] != '"' && t[0] != '\r' && is_literal_body(t.drop_first())
    }
}

/// The escaped form of a string is that of its first character followed by
/// that of the rest.
pub proof fn lemma_escaped_from_front(s: Seq<char>)
    requires
        s.len() > 0,
    ensures
        escaped(s) == escaped_char(s[0]) + escaped(s.drop_first()),
    decreases s.len(),
{
    if s.len() == 1 {
        assert(s.drop_last() =~= Seq::<char>::empty());
        assert(s.drop_first() =~= Seq::<char>::empty());
        assert(escaped(s) =~= escaped_char(s[0]) + escaped(s.drop_first()));
    } else {
        lemma_escaped_from_front(s.drop_last());
        assert(s.drop_last().drop_first() =~= s.drop_first().drop_last());
        assert(escaped(s) =~= escaped_char(s[0]) + escaped(s.drop_first()));
    }
}

/// A string literal can be read, and denotes the string it was written
/// for: escaping loses nothing and leaves no quote bare.
pub proof fn lemma_literal_denotes(s: Seq<char>)
    ensures
        is_literal_body(escaped(s)),
        denoted(escaped(s)) == s,
    decreases s.len(),
{
    if s.len() > 0 {
        let c = s[0];
        let rest = escaped(s.drop_first());
        let t = escaped_char(c) + rest;
        lemma_escaped_from_front(s);
        lemma_literal_denotes(s.drop_first());
        if escaped_char(c).len() == 2 {
            assert(t.subrange(2, t.len() as int) =~= rest);
            assert(escape_meaning(t[1]) == c);
        } else {
            assert(t.drop_first() =~= rest);
        }
        assert(seq![c] + s.drop_first() =~= s);
    }
}

/// Different strings are written as different literals.
pub proof fn lemma_literals_differ(a: Seq<char>, b: Seq<char>)
    requires
        a != b,
    ensures
        literal_text(a) != literal_text(b),
{
    lemma_literal_denotes(a);
    lemma_literal_denotes(b);
    if literal_text(a) == literal_text(b) {
        let x = escaped(a);
        let y = escaped(b);
        assert(literal_text(a).len() == literal_text(b).len());
        assert forall|i: int| 0 <= i < x.len() implies x[i] == y[i] by {
            assert(literal_text(a)[i + 1] == x[i]);
            assert(literal_text(b)[i + 1] == y[i]);
        }
        assert(x =~= y);
    }
}

/// Writes `s` as a string literal.
pub fn quote_string(s: &str) -> (r: String)
    ensures
        r@ == literal_text(s@),
{
    let n = s.unicode_len();
    let mut out = String::new();
    out.push('"');
    let mut i: usize = 0;
    while i < n
        invariant
            n == s@.len(),
            i <= n,
            out@ == seq!['"'] + escaped(s@.subrange(0, i as int)),
        decreases n - i,
    {
        let c = s.get_char(i);
        if c == '"' {
            out.push('\\');
            out.push('"');
        } else if c == '\\' {
            out.push('\\');
            out.push('\\');
        } else if c == '\n' {
            out.push('\\');
            out.push('n');
        } else if c == '\r' {
            out.push('\\');
            out.push('r');
        } else if c == '\t' {
            out.push('\\');
            out.push('t');
        } else if c == '\0' {
            out.push('\\');
            out.push('0');
        } else {
            out.push(c);
        }
        assert(s@.subrange(0, i + 1).drop_last() =~= s@.subrange(0, i as int));
        i += 1;
    }
    assert(s@.subrange(0, n as int) =~= s@);
    out.push('"');
    out
}

/// The name of a primitive in the target language.
pub open spec fn primitive_text(p: Primitive) -> Seq<char> {
    match p {
        Primitive::Bool => "bool"@,
        Primitive::I8 => "i8"@,
        Primitive::U8 => "u8"@,
        Primitive::I16 => "i16"@,
        Primitive::U16 => "u16"@,
        Primitive::I32 => "i32"@,
        Primitive::U32 => "u32"@,
        Primitive::I64 => "i64"@,
        Primitive::U64 => "u64"@,
        Primitive::Double => "f64"@,
        Primitive::Str => "String"@,
    }
}

/// The name of a primitive in the target language.
pub fn primitive_name(p: Primitive) -> (r: &'static str)
    ensures
        r@ == primitive_text(p),
{
    match p {
        Primitive::Bool => "bool",
        Primitive::I8 => "i8",
        Primitive::U8 => "u8",
        Primitive::I16 => "i16",
        Primitive::U16 => "u16",
        Primitive::I32 => "i32",
        Primitive::U32 => "u32",
        Primitive::I64 => "i64",
        Primitive::U64 => "u64",
        Primitive::Double => "f64",
        Primitive::Str => "String",
    }
}

/// The name of the type that a field refers to.
pub open spec fn referred_name(kind: TypeRefView) -> Seq<char> {
    match kind {
        TypeRefView::Primitive(p) => primitive_text(p),
        TypeRefView::External(name) => name,
        TypeRefView::Declared(name) => name,
    }
}

/// Whether the type of a field is written under `types::`: it is for the
/// field that holds the content of a declaration placed beside the shared
/// namespace.
pub open spec fn is_shared(f: FieldView, placement: Placement) -> bool {
    placement == Placement::Root && (f.role == Role::Text || f.role == Role::Flatten)
}

/// The path of the type of one occurrence of a field.
pub open spec fn type_path(f: FieldView, placement: Placement) -> Seq<char> {
    if is_shared(f, placement) {
        "types::"@ + referred_name(f.kind)
    } else {
        referred_name(f.kind)
    }
}

/// The type of a field: the path of one occurrence, in `Vec` for a list and
/// in `Option` for an optional field.
pub open spec fn type_text(f: FieldView, placement: Placement) -> Seq<char> {
    match f.cardinality {
        Cardinality::Required => type_path(f, placement),
        Cardinality::Optional => "Option<"@ + type_path(f, placement) + ">"@,
        Cardinality::List => "Vec<"@ + type_path(f, placement) + ">"@,
    }
}

/// The word of the wire directive that names the role of a field; a child
/// element needs none.
pub open spec fn role_word(role: Role) -> Seq<char> {
    match role {
        Role::Element => Seq::empty(),
        Role::Attribute => "attribute"@,
        Role::Flatten => "flatten"@,
        Role::Text => "text"@,
    }
}

/// A list of directive items with one more item behind it.
pub open spec fn with_item(items: Seq<char>, key: Seq<char>, value: Seq<char>) -> Seq<char> {
    if items.len() == 0 {
        key + literal_text(value)
    } else {
        items + ", "@ + key + literal_text(value)
    }
}

/// The items of the wire directive of a field: the role, the wire name
/// where it is recorded, the prefix where there is one.
pub open spec fn directive_items(f: FieldView) -> Seq<char> {
    let role = role_word(f.role);
    let renamed = match f.rename {
        Some(name) => with_item(role, "rename = "@, name),
        None => role,
    };
    match f.prefix {
        Some(prefix) => with_item(renamed, "prefix = "@, prefix),
        None => renamed,
    }
}

/// The line that holds the wire directive of a field; nothing where the
/// directive has no item.
pub open spec fn directive_line(f: FieldView) -> Seq<char> {
    let items = directive_items(f);
    if items.len() == 0 {
        Seq::empty()
    } else {
        "    #[yaserde("@ + items + ")]\n"@
    }
}

/// What ends a field: a comma, kept apart from the `>` that closes a
/// wrapped type so that the two are never read as one token.
pub open spec fn field_end(f: FieldView) -> Seq<char> {
    match f.cardinality {
        Cardinality::Required => ",\n"@,
        _ => " ,\n"@,
    }
}

/// A field as it is written in a declaration.
pub open spec fn field_text(f: FieldView, placement: Placement) -> Seq<char> {
    directive_line(f) + "    pub "@ + f.ident + ": "@ + type_text(f, placement) + field_end(f)
}

/// The first `n` fields of a list as they are written in a declaration.
pub open spec fn fields_text(fields: Seq<FieldView>, n: nat, placement: Placement) -> Seq<char>
    decreases n,
{
    if n == 0 || n > fields.len() {
        Seq::empty()
    } else {
        fields_text(fields, (n - 1) as nat, placement) + field_text(fields[n - 1], placement)
    }
}

/// The first `n` documentation lines of a declaration.
pub open spec fn docs_text(docs: Seq<Seq<char>>, n: nat) -> Seq<char>
    decreases n,
{
    if n == 0 || n > docs.len() {
        Seq::empty()
    } else {
        docs_text(docs, (n - 1) as nat) + "#[doc = "@ + literal_text(docs[n - 1]) + "]\n"@
    }
}

/// The line that binds a declaration to the namespace of the schema.
pub open spec fn namespace_text(namespace: Option<NamespaceView>) -> Seq<char> {
    match namespace {
        None => Seq::empty(),
        Some(n) => "#[yaserde(prefix = "@ + literal_text(n.prefix) + ", namespace = "@
            + literal_text(n.definition()) + ")]\n"@,
    }
}

/// The line of derives that every declaration carries.
pub open spec fn derive_text() -> Seq<char> {
    "#[derive(Clone, Debug, Default, PartialEq, yaserde_derive::YaDeserialize, yaserde_derive::YaSerialize)]\n"@
}

/// A declaration as it is written out.
pub open spec fn decl_text(d: DeclView) -> Seq<char> {
    docs_text(d.docs, d.docs.len()) + derive_text() + namespace_text(d.namespace)
        + "pub struct "@ + d.name + " {\n"@ + fields_text(d.fields, d.fields.len(), d.placement)
        + "}\n"@
}

/// Those of the first `n` declarations of a list that are placed at
/// `placement`, as they are written out, in order.
pub open spec fn placed_text(decls: Seq<DeclView>, n: nat, placement: Placement) -> Seq<char>
    decreases n,
{
    if n == 0 || n > decls.len() {
        Seq::empty()
    } else if decls[n - 1].placement == placement {
        placed_text(decls, (n - 1) as nat, placement) + decl_text(decls[n - 1])
    } else {
        placed_text(decls, (n - 1) as nat, placement)
    }
}

/// The declarations of a schema as they are written out: the shared
/// namespace with what is placed in it, then what is placed beside it.
pub open spec fn schema_text(decls: Seq<DeclView>) -> Seq<char> {
    "pub mod types {\n"@ + placed_text(decls, decls.len(), Placement::Types) + "}\n"@
        + placed_text(decls, decls.len(), Placement::Root)
}

impl TypeRef {
    /// The name of the type.
    pub fn name(&self) -> (r: &str)
        ensures
            r@ == referred_name(self@),
    {
        match self {
            TypeRef::Primitive(p) => primitive_name(*p),
            TypeRef::External(name) => name.as_str(),
            TypeRef::Declared(name) => name.as_str(),
        }
    }
}

/// Adds one item to the items of a directive.
fn push_item(items: &mut String, key: &str, value: &str)
    ensures
        final(items)@ == with_item(old(items)@, key@, value@),
{
    let literal = quote_string(value);
    if items.as_str().unicode_len() == 0 {
        items.append(key);
        items.append(literal.as_str());
    } else {
        items.append(", ");
        items.append(key);
        items.append(literal.as_str());
    }
}

impl GeneratedField {
    /// Whether the type of the field is written under `types::` in a
    /// declaration placed at `placement`.
    pub fn is_shared(&self, placement: Placement) -> (r: bool)
        ensures
            r == is_shared(self@, placement),
    {
        match placement {
            Placement::Types => false,
            Placement::Root => match self.role {
                Role::Text => true,
                Role::Flatten => true,
                _ => false,
            },
        }
    }

    /// Writes the type of the field.
    pub fn render_type(&self, placement: Placement) -> (r: String)
        ensures
            r@ == type_text(self@, placement),
    {
        let mut path = String::new();
        if self.is_shared(placement) {
            path.append("types::");
        }
        path.append(self.kind.name());
        match self.cardinality {
            Cardinality::Required => path,
            Cardinality::Optional => {
                let mut out = String::new();
                out.append("Option<");
                out.append(path.as_str());
                out.append(">");
                out
            },
            Cardinality::List => {
                let mut out = String::new();
                out.append("Vec<");
                out.append(path.as_str());
                out.append(">");
                out
            },
        }
    }

    /// Writes the items of the wire directive of the field.
    pub fn render_directive(&self) -> (r: String)
        ensures
            r@ == directive_items(self@),
    {
        let mut items = String::new();
        match self.role {
            Role::Element => {},
            Role::Attribute => {
                items.append("attribute");
            },
            Role::Flatten => {
                items.append("flatten");
            },
            Role::Text => {
                items.append("text");
            },
        }
        match &self.rename {
            Some(name) => {
                push_item(&mut items, "rename = ", name.as_str());
            },
            None => {},
        }
        match &self.prefix {
            Some(prefix) => {
                push_item(&mut items, "prefix = ", prefix.as_str());
            },
            None => {},
        }
        items
    }

    /// Writes the field as it stands in a declaration placed at
    /// `placement`.
    pub fn render(&self, placement: Placement) -> (r: String)
        ensures
            r@ == field_text(self@, placement),
    {
        let mut out = String::new();
        let items = self.render_directive();
        if items.as_str().unicode_len() != 0 {
            out.append("    #[yaserde(");
            out.append(items.as_str());
            out.append(")]\n");
        }
        out.append("    pub ");
        out.append(self.ident.as_str());
        out.append(": ");
        out.append(self.render_type(placement).as_str());
        match self.cardinality {
            Cardinality::Required => {
                out.append(",\n");
            },
            _ => {
                out.append(" ,\n");
            },
        }
        out
    }
}

/// Writes a list of fields as they stand in a declaration placed at
/// `placement`.
pub fn render_fields(fields: &Vec<GeneratedField>, placement: Placement) -> (r: String)
    ensures
        r@ == fields_text(fields_view(fields@), fields@.len(), placement),
{
    let mut out = String::new();
    let mut i: usize = 0;
    while i < fields.len()
        invariant
            i <= fields.len(),
            out@ == fields_text(fields_view(fields@), i as nat, placement),
        decreases fields.len() - i,
    {
        out.append(fields[i].render(placement).as_str());
        i += 1;
    }
    out
}

/// Writes the documentation lines of a declaration.
pub fn render_docs(docs: &Vec<String>) -> (r: String)
    ensures
        r@ == docs_text(strings_view(docs@), docs@.len()),
{
    let mut out = String::new();
    let mut i: usize = 0;
    while i < docs.len()
        invariant
            i <= docs.len(),
            out@ == docs_text(strings_view(docs@), i as nat),
        decreases docs.len() - i,
    {
        out.append("#[doc = ");
        out.append(quote_string(docs[i].as_str()).as_str());
        out.append("]\n");
        i += 1;
    }
    out
}

/// Writes the line that binds a declaration to the namespace of the schema.
pub fn render_namespace(namespace: &Option<Namespace>) -> (r: String)
    ensures
        r@ == namespace_text(namespace_view(*namespace)),
{
    let mut out = String::new();
    match namespace {
        None => {},
        Some(n) => {
            out.append("#[yaserde(prefix = ");
            out.append(quote_string(n.prefix.as_str()).as_str());
            out.append(", namespace = ");
            out.append(quote_string(n.definition().as_str()).as_str());
            out.append(")]\n");
        },
    }
    out
}

impl GeneratedTypeDecl {
    /// Writes the declaration out.
    pub fn render(&self) -> (r: String)
        ensures
            r@ == decl_text(self@),
    {
        let mut out = render_docs(&self.docs);
        out.append(
            "#[derive(Clone, Debug, Default, PartialEq, yaserde_derive::YaDeserialize, yaserde_derive::YaSerialize)]\n",
        );
        out.append(render_namespace(&self.namespace).as_str());
        out.append("pub struct ");
        out.append(self.name.as_str());
        out.append(" {\n");
        out.append(render_fields(&self.fields, self.placement).as_str());
        out.append("}\n");
        out
    }
}

/// Writes out those declarations of a list that are placed at `placement`,
/// in order.
pub fn render_placed(decls: &Vec<GeneratedTypeDecl>, placement: Placement) -> (r: String)
    ensures
        r@ == placed_text(decls_view(decls@), decls@.len(), placement),
{
    let mut out = String::new();
    let mut i: usize = 0;
    while i < decls.len()
        invariant
            i <= decls.len(),
            out@ == placed_text(decls_view(decls@), i as nat, placement),
        decreases decls.len() - i,
    {
        let here = match (decls[i].placement, placement) {
            (Placement::Types, Placement::Types) => true,
            (Placement::Root, Placement::Root) => true,
            _ => false,
        };
        if here {
            out.append(decls[i].render().as_str());
        }
        i += 1;
    }
    out
}

/// Writes out the declarations of a schema.
pub fn render_schema(decls: &Vec<GeneratedTypeDecl>) -> (r: String)
    ensures
        r@ == schema_text(decls_view(decls@)),
{
    let mut out = String::new();
    out.append("pub mod types {\n");
    out.append(render_placed(decls, Placement::Types).as_str());
    out.append("}\n");
    out.append(render_placed(decls, Placement::Root).as_str());
    out
}

} // verus!
