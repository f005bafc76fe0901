//! Type resolution: from the name that a schema gives a type to the type a
//! field refers to.
//!
//! A name is `local` or `prefix:local`. Where the prefix is the one bound to
//! the XML Schema namespace and the local name is built in, the name
//! resolves to a primitive. Every other name resolves to an external type,
//! named by the local part in upper camel case. Resolution never fails:
//! whether an external type exists is found out when the declarations are
//! built.

use crate::context::XsdContext;
use crate::model::Primitive;
use crate::model::TypeRef;
use crate::model::TypeRefView;
use crate::text::camel_case_of;
use crate::text::dots_to_underscores;
use crate::text::optional_view;
use crate::text::replace_dots;
use crate::text::same_text;
use crate::text::to_camel_case;
use vstd::prelude::*;

verus! {

/// Whether the first `:` of `s` stands at index `i`.
pub open spec fn is_first_colon(s: Seq<char>, i: int) -> bool {
    &&& 0 <= i < s.len()
    &&& s[i] == ':'
    &&& forall|j: int| 0 <= j < i ==> s[j] != ':'
}

/// Whether `s` has the form `prefix:local`.
pub open spec fn has_colon(s: Seq<char>) -> bool {
    exists|i: int| is_first_colon(s, i)
}

/// The index of the first `:` of `s`, where there is one.
pub open spec fn first_colon(s: Seq<char>) -> int {
    choose|i: int| is_first_colon(s, i)
}

/// What stands before the first `:` of a name, if it has one.
pub open spec fn namespace_prefix(s: Seq<char>) -> Option<Seq<char>> {
    if has_colon(s) {
        Some(s.subrange(0, first_colon(s)))
    } else {
        None
    }
}

/// What stands after the first `:` of a name; the whole name if it has none.
pub open spec fn local_name(s: Seq<char>) -> Seq<char> {
    if has_colon(s) {
        s.subrange(first_colon(s) + 1, s.len() as int)
    } else {
        s
    }
}

/// There is at most one first colon.
pub proof fn lemma_first_colon_unique(s: Seq<char>, i: int)
    requires
        is_first_colon(s, i),
    ensures
        has_colon(s),
        first_colon(s) == i,
{
}

/// A name without `:` has no prefix.
pub proof fn lemma_no_colon(s: Seq<char>)
    requires
        forall|j: int| 0 <= j < s.len() ==> s[j] != ':',
    ensures
        !has_colon(s),
        namespace_prefix(s) is None,
        local_name(s) == s,
{
}

/// A prefix without `:`, a `:` and a local name are found again in the name
/// they make.
pub proof fn lemma_split_qualified(prefix: Seq<char>, local: Seq<char>)
    requires
        forall|j: int| 0 <= j < prefix.len() ==> prefix[j] != ':',
    ensures
        namespace_prefix(prefix + seq![':'] + local) == Some(prefix),
        local_name(prefix + seq![':'] + local) == local,
{
    let s = prefix + seq![':'] + local;
    let i = prefix.len() as int;
    lemma_first_colon_unique(s, i);
}

/// Splits a name at its first `:` into the prefix, if any, and the local
/// name.
pub fn split_qualified(name: &str) -> (r: (Option<String>, String))
    ensures
        optional_view(r.0) == namespace_prefix(name@),
        r.1@ == local_name(name@),
{
    let n = name.unicode_len();
    let mut i: usize = 0;
    while i < n
        invariant
            n == name@.len(),
            i <= n,
            forall|j: int| 0 <= j < i ==> name@[j] != ':',
        decreases n - i,
    {
        if name.get_char(i) == ':' {
            proof {
                lemma_first_colon_unique(name@, i as int);
            }
            let prefix = name.substring_char(0, i).to_owned();
            let local = name.substring_char(i + 1, n).to_owned();
            return (Some(prefix), local);
        }
        i += 1;
    }
    proof {
        lemma_no_colon(name@);
    }
    (None, name.to_owned())
}

/// The table of built-in names: the primitive that a local name of the XML
/// Schema namespace stands for, if it is built in.
pub open spec fn primitive_of(local: Seq<char>) -> Option<Primitive> {
    if local == "boolean"@ {
        Some(Primitive::Bool)
    } else if local == "byte"@ {
        Some(Primitive::I8)
    } else if local == "unsignedByte"@ {
        Some(Primitive::U8)
    } else if local == "short"@ {
        Some(Primitive::I16)
    } else if local == "unsignedShort"@ || local == "gYear"@ {
        Some(Primitive::U16)
    } else if local == "int"@ || local == "integer"@ {
        Some(Primitive::I32)
    } else if local == "unsignedInt"@ || local == "positiveInteger"@ {
        Some(Primitive::U32)
    } else if local == "long"@ {
        Some(Primitive::I64)
    } else if local == "unsignedLong"@ || local == "nonNegativeInteger"@ {
        Some(Primitive::U64)
    } else if local == "double"@ || local == "decimal"@ {
        Some(Primitive::Double)
    } else if is_string_name(local) {
        Some(Primitive::Str)
    } else {
        None
    }
}

/// The built-in names that are carried as strings.
pub open spec fn is_string_name(local: Seq<char>) -> bool {
    ||| local == "string"@
    ||| local == "normalizedString"@
    ||| local == "token"@
    ||| local == "NMTOKEN"@
    ||| local == "language"@
    ||| local == "anyURI"@
    ||| local == "ID"@
    ||| local == "IDREF"@
    ||| local == "IDREFS"@
    ||| local == "hexBinary"@
    ||| local == "base64Binary"@
    ||| local == "dateTime"@
    ||| local == "date"@
    ||| local == "time"@
    ||| local == "duration"@
    ||| local == "anyType"@
    ||| local == "anySimpleType"@
}

/// What a name resolves to in a document whose XML Schema prefix is
/// `schema_prefix`.
pub open spec fn resolve(schema_prefix: Option<Seq<char>>, name: Seq<char>) -> TypeRefView {
    let local = local_name(name);
    if namespace_prefix(name) == schema_prefix && primitive_of(local) is Some {
        TypeRefView::Primitive(primitive_of(local)->0)
    } else {
        TypeRefView::External(camel_case_of(dots_to_underscores(local)))
    }
}

/// A name as it is written in a document: the local name, behind the prefix
/// and a `:` where there is a prefix.
pub open spec fn qualified(prefix: Option<Seq<char>>, local: Seq<char>) -> Seq<char> {
    match prefix {
        Some(p) => p + seq![':'] + local,
        None => local,
    }
}

/// No built-in name holds a `:`.
pub proof fn lemma_builtin_names_plain(local: Seq<char>)
    requires
        primitive_of(local) is Some,
    ensures
        forall|j: int| 0 <= j < local.len() ==> local[j] != ':',
{
    reveal_strlit("boolean");
    reveal_strlit("byte");
    reveal_strlit("unsignedByte");
    reveal_strlit("short");
    reveal_strlit("unsignedShort");
    reveal_strlit("gYear");
    reveal_strlit("int");
    reveal_strlit("integer");
    reveal_strlit("unsignedInt");
    reveal_strlit("positiveInteger");
    reveal_strlit("long");
    reveal_strlit("unsignedLong");
    reveal_strlit("nonNegativeInteger");
    reveal_strlit("double");
    reveal_strlit("decimal");
    reveal_strlit("string");
    reveal_strlit("normalizedString");
    reveal_strlit("token");
    reveal_strlit("NMTOKEN");
    reveal_strlit("language");
    reveal_strlit("anyURI");
    reveal_strlit("ID");
    reveal_strlit("IDREF");
    reveal_strlit("IDREFS");
    reveal_strlit("hexBinary");
    reveal_strlit("base64Binary");
    reveal_strlit("dateTime");
    reveal_strlit("date");
    reveal_strlit("time");
    reveal_strlit("duration");
    reveal_strlit("anyType");
    reveal_strlit("anySimpleType");
}

/// Every built-in name, written with the prefix of the XML Schema
/// namespace, resolves to the primitive that the table gives for it, and to
/// nothing else.
pub proof fn lemma_resolve_builtin(schema_prefix: Option<Seq<char>>, local: Seq<char>)
    requires
        primitive_of(local) is Some,
        schema_prefix matches Some(p) ==> forall|j: int| 0 <= j < p.len() ==> p[j] != ':',
    ensures
        resolve(schema_prefix, qualified(schema_prefix, local)) == TypeRefView::Primitive(
            primitive_of(local)->0,
        ),
{
    lemma_builtin_names_plain(local);
    match schema_prefix {
        Some(p) => {
            lemma_split_qualified(p, local);
        },
        None => {
            lemma_no_colon(local);
        },
    }
}

/// A name under a prefix other than that of the XML Schema namespace
/// resolves to an external type, whatever its local part.
pub proof fn lemma_resolve_foreign(schema_prefix: Option<Seq<char>>, name: Seq<char>)
    requires
        namespace_prefix(name) != schema_prefix,
    ensures
        resolve(schema_prefix, name) == TypeRefView::External(
            camel_case_of(dots_to_underscores(local_name(name))),
        ),
{
}

/// The type resolver.
pub struct RustTypesMapping {}

impl RustTypesMapping {
    /// Tests whether `local` is one of the built-in names carried as strings.
    fn string_type(local: &str) -> (r: bool)
        ensures
            r == is_string_name(local@),
    {
        same_text(local, "string") || same_text(local, "normalizedString") || same_text(
            local,
            "token",
        ) || same_text(local, "NMTOKEN") || same_text(local, "language") || same_text(
            local,
            "anyURI",
        ) || same_text(local, "ID") || same_text(local, "IDREF") || same_text(local, "IDREFS")
            || same_text(local, "hexBinary") || same_text(local, "base64Binary") || same_text(
            local,
            "dateTime",
        ) || same_text(local, "date") || same_text(local, "time") || same_text(local, "duration")
            || same_text(local, "anyType") || same_text(local, "anySimpleType")
    }

    /// Looks a local name up in the table of built-in names.
    pub fn basic_type(local: &str) -> (r: Option<Primitive>)
        ensures
            r == primitive_of(local@),
    {
        if same_text(local, "boolean") {
            Some(Primitive::Bool)
        } else if same_text(local, "byte") {
            Some(Primitive::I8)
        } else if same_text(local, "unsignedByte") {
            Some(Primitive::U8)
        } else if same_text(local, "short") {
            Some(Primitive::I16)
        } else if same_text(local, "unsignedShort") || same_text(local, "gYear") {
            Some(Primitive::U16)
        } else if same_text(local, "int") || same_text(local, "integer") {
            Some(Primitive::I32)
        } else if same_text(local, "unsignedInt") || same_text(local, "positiveInteger") {
            Some(Primitive::U32)
        } else if same_text(local, "long") {
            Some(Primitive::I64)
        } else if same_text(local, "unsignedLong") || same_text(local, "nonNegativeInteger") {
            Some(Primitive::U64)
        } else if same_text(local, "double") || same_text(local, "decimal") {
            Some(Primitive::Double)
        } else if Self::string_type(local) {
            Some(Primitive::Str)
        } else {
            None
        }
    }

    /// The external type that a local name stands for, given the name's
    /// upper camel case form.
    pub fn extern_type(camel: String) -> (r: TypeRef)
        ensures
            r@ == TypeRefView::External(camel@),
    {
        TypeRef::External(camel)
    }

    /// Resolves the name of a type. Resolution is total: a name that is not
    /// built in resolves to an external type.
    pub fn get(context: &XsdContext, kind: &str) -> (r: TypeRef)
        ensures
            r@ == resolve(context@, kind@),
    {
        let (prefix, local) = split_qualified(kind);
        if context.match_xml_namespace(&prefix) {
            match Self::basic_type(local.as_str()) {
                Some(p) => {
                    return TypeRef::Primitive(p);
                },
                None => {},
            }
        }
        let plain = replace_dots(local.as_str());
        Self::extern_type(to_camel_case(plain.as_str()))
    }

    /// Whether a name resolves to the string primitive.
    pub fn is_xs_string(context: &XsdContext, kind: &str) -> (r: bool)
        ensures
            r == resolve(context@, kind@).is_string(),
    {
        let (prefix, local) = split_qualified(kind);
        if context.match_xml_namespace(&prefix) {
            match Self::basic_type(local.as_str()) {
                Some(Primitive::Str) => true,
                _ => false,
            }
        } else {
            false
        }
    }
}

} // verus!
