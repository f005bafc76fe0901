//! Text helpers: case conversion, joining and the few character-level tests
//! that the naming rules need.

use heck::CamelCase;
use heck::SnakeCase;
use vstd::prelude::*;

verus! {

/// `String::push` appends one character to the end of the string.
pub assume_specification[ String::push ](s: &mut String, c: char)
    ensures
        final(s)@ == old(s)@.push(c),
;

/// The upper camel case form of `s`, as `heck` computes it.
pub uninterp spec fn camel_case_of(s: Seq<char>) -> Seq<char>;

/// The snake case form of `s`, as `heck` computes it.
pub uninterp spec fn snake_case_of(s: Seq<char>) -> Seq<char>;

/// Calls `heck::CamelCase::to_camel_case`. The conversion depends on the
/// characters of `s` alone; the contract gives its result the name
/// [`camel_case_of`] and claims nothing else about it.
#[verifier::external_body]
pub(crate) fn to_camel_case(s: &str) -> (r: String)
    ensures
        r@ == camel_case_of(s@),
{
    s.to_camel_case()
}

/// Calls `heck::SnakeCase::to_snake_case`. The conversion depends on the
/// characters of `s` alone; the contract gives its result the name
/// [`snake_case_of`] and claims nothing else about it.
#[verifier::external_body]
pub(crate) fn to_snake_case(s: &str) -> (r: String)
    ensures
        r@ == snake_case_of(s@),
{
    s.to_snake_case()
}

/// `s` with every `.` replaced by `_`.
pub open spec fn dots_to_underscores(s: Seq<char>) -> Seq<char> {
    s.map_values(|c: char| if c == '.' { '_' } else { c })
}

/// Replaces every `.` of `s` by `_`, so that a dotted schema name can become
/// one identifier.
pub fn replace_dots(s: &str) -> (r: String)
    ensures
        r@ == dots_to_underscores(s@),
{
    let n = s.unicode_len();
    let mut out = String::new();
    let mut i: usize = 0;
    while i < n
        invariant
            n == s@.len(),
            i <= n,
            out@ == dots_to_underscores(s@.subrange(0, i as int)),
        decreases n - i,
    {
        let c = s.get_char(i);
        out.push(if c == '.' { '_' } else { c });
        i += 1;
    }
    out
}

/// Whether two strings hold the same characters.
pub fn same_text(a: &str, b: &str) -> (r: bool)
    ensures
        r == (a@ == b@),
{
    a.to_owned() == b.to_owned()
}

/// The characters of `a` followed by those of `b`.
pub fn concat_text(a: &str, b: &str) -> (r: String)
    ensures
        r@ == a@ + b@,
{
    a.to_owned().concat(b)
}

/// A copy of an optional string.
pub fn clone_optional(o: &Option<String>) -> (r: Option<String>)
    ensures
        r == *o,
{
    match o {
        Some(s) => Some(s.clone()),
        None => None,
    }
}

/// The view of an optional string: its characters, where there is one.
pub open spec fn optional_view(o: Option<String>) -> Option<Seq<char>> {
    match o {
        Some(s) => Some(s@),
        None => None,
    }
}

/// The views of a list of strings, in order.
pub open spec fn strings_view(v: Seq<String>) -> Seq<Seq<char>> {
    v.map_values(|s: String| s@)
}

/// A copy of a list of strings.
pub fn clone_strings(v: &Vec<String>) -> (r: Vec<String>)
    ensures
        r@ == v@,
{
    let mut out: Vec<String> = Vec::new();
    let mut i: usize = 0;
    while i < v.len()
        invariant
            i <= v.len(),
            out@ == v@.subrange(0, i as int),
        decreases v.len() - i,
    {
        out.push(v[i].clone());
        i += 1;
    }
    out
}

/// Whether `c` is the letter `lower` in either case; `lower` and `upper` are
/// the two ASCII forms of one letter.
pub open spec fn is_letter(c: char, lower: char, upper: char) -> bool {
    c == lower || c == upper
}

/// Whether `s` spells the reserved word `type`, in any mix of upper and lower
/// case.
pub open spec fn spells_type(s: Seq<char>) -> bool {
    &&& s.len() == 4
    &&& is_letter(s[0], 't', 'T')
    &&& is_letter(s[1], 'y', 'Y')
    &&& is_letter(s[2], 'p', 'P')
    &&& is_letter(s[3], 'e', 'E')
}

/// Tests whether `s` spells the reserved word `type` without regard to case.
pub fn is_type_word(s: &str) -> (r: bool)
    ensures
        r == spells_type(s@),
{
    if s.unicode_len() != 4 {
        return false;
    }
    let c0 = s.get_char(0);
    let c1 = s.get_char(1);
    let c2 = s.get_char(2);
    let c3 = s.get_char(3);
    (c0 == 't' || c0 == 'T') && (c1 == 'y' || c1 == 'Y') && (c2 == 'p' || c2 == 'P') && (c3 == 'e'
        || c3 == 'E')
}

} // verus!
